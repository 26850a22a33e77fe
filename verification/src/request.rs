//! What a caller hands in: the parameters of each job and the deployment's
//! context.

use crate::tier::ResourceTier;
use vstd::prelude::*;

verus! {

/// Parameters of the job that creates a project.
#[derive(Debug, Clone)]
pub struct CreateProjectParams {
    /// Public key of the owner, as text.
    pub owner_public_key: String,
    pub tier: ResourceTier,
}

/// Parameters of the job that creates a workspace.
#[derive(Debug, Clone)]
pub struct CreateWorkspaceParams {
    /// Public key of the owner, in the text form that the workload expects.
    pub owner_public_key: String,
    pub tier: ResourceTier,
    pub workspace_name: String,
}

/// Parameters of the job that destroys a project.
#[derive(Debug, Clone)]
pub struct DestroyProjectParams {
    pub service_id: String,
}

/// What every job of one deployment shares.
#[derive(Debug, Clone)]
pub struct MyContext {
    /// Root directory for persistent data, if the deployment has one.
    pub data_dir: Option<String>,
}

impl MyContext {
    /// The root directory as a text, if one is configured.
    pub open spec fn spec_data_dir(&self) -> Option<Seq<char>> {
        match self.data_dir {
            Some(root) => Some(root@),
            None => None,
        }
    }

    pub fn new(data_dir: Option<String>) -> (ctx: MyContext)
        ensures
            ctx.data_dir == data_dir,
    {
        MyContext { data_dir }
    }
}

} // verus!
