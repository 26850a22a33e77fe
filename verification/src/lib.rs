//! Lifecycle of per-tenant containers: planning what to create, polling a
//! started container to readiness, and tearing it down again.
//!
//! The library decides; it performs no I/O. A driver asks it for the next
//! action, performs that action against the container runtime, the clock or
//! the filesystem, and reports what happened.
//!
//! - [`tier`]: the catalogue of resource tiers.
//! - [`naming`], [`decimal`]: container names, data directories and addresses
//!   derived from a service identifier.
//! - [`port`]: the host port of a new container.
//! - [`container`]: the creation request handed to the runtime.
//! - [`health`]: what an inspection means for a container that is waited on.
//! - [`provision`]: the state machine that creates, starts and health-checks
//!   a container, and cleans up after one that never becomes healthy.
//! - [`destroy`]: the state machine that removes a service's containers and
//!   purges its data, succeeding also where nothing is left to remove.
//! - [`purge`]: the state machine that deletes a directory with all it holds.
//! - [`request`], [`error`]: what callers hand in and what they are told.

pub mod container;
pub mod decimal;
pub mod destroy;
pub mod error;
pub mod health;
pub mod naming;
pub mod port;
pub mod provision;
pub mod purge;
pub mod request;
pub mod tier;

pub use request::{CreateProjectParams, CreateWorkspaceParams, DestroyProjectParams, MyContext};
pub use tier::ResourceTier;
