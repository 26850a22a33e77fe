//! The catalogue of resource tiers.

use vstd::prelude::*;

verus! {

/// Bytes in one gibibyte.
pub const GIB: u64 = 1_073_741_824;

/// Thousandths of a core in one whole core.
pub const MILLICORES_PER_CORE: u64 = 1000;

/// A named profile of resource limits.
#[derive(Clone, Copy, Debug, PartialEq, Eq, Structural)]
pub enum ResourceTier {
    Small,
    Medium,
    Large,
}

/// The three limits of one tier.
#[derive(Clone, Copy, Debug, PartialEq, Eq, Structural)]
pub struct ResourceLimits {
    /// Processor share, in thousandths of a core.
    pub cpu_millicores: u64,
    /// Memory, in bytes.
    pub memory_bytes: i64,
    /// Storage, in bytes.
    pub storage_bytes: u64,
}

impl ResourceTier {
    /// Position of the tier in the order Small, Medium, Large.
    pub open spec fn rank(self) -> nat {
        match self {
            ResourceTier::Small => 0,
            ResourceTier::Medium => 1,
            ResourceTier::Large => 2,
        }
    }

    /// Whole cores granted to the tier: 1, 2 and 4.
    pub open spec fn cores(self) -> nat {
        match self {
            ResourceTier::Small => 1,
            ResourceTier::Medium => 2,
            ResourceTier::Large => 4,
        }
    }

    /// Processor limit in thousandths of a core.
    pub open spec fn spec_cpu_limit(self) -> nat {
        self.cores() * 1000
    }

    /// Memory limit in bytes: one gibibyte per core.
    pub open spec fn spec_memory_limit(self) -> nat {
        self.cores() * 1_073_741_824
    }

    /// Storage limit in bytes: five gibibytes per core.
    pub open spec fn spec_storage_limit(self) -> nat {
        5 * self.cores() * 1_073_741_824
    }

    /// The tier's limits as one value.
    pub open spec fn spec_limits(self) -> ResourceLimits {
        ResourceLimits {
            cpu_millicores: self.spec_cpu_limit() as u64,
            memory_bytes: self.spec_memory_limit() as i64,
            storage_bytes: self.spec_storage_limit() as u64,
        }
    }

    /// Processor limit, in thousandths of a core so that it stays an integer.
    pub fn cpu_limit(&self) -> (millicores: u64)
        ensures
            millicores == self.spec_cpu_limit(),
    {
        match self {
            ResourceTier::Small => MILLICORES_PER_CORE,
            ResourceTier::Medium => 2 * MILLICORES_PER_CORE,
            ResourceTier::Large => 4 * MILLICORES_PER_CORE,
        }
    }

    /// Memory limit in bytes.
    pub fn memory_limit(&self) -> (bytes: i64)
        ensures
            bytes == self.spec_memory_limit(),
    {
        match self {
            ResourceTier::Small => 1_073_741_824,
            ResourceTier::Medium => 2_147_483_648,
            ResourceTier::Large => 4_294_967_296,
        }
    }

    /// Storage limit in bytes.
    pub fn storage_limit(&self) -> (bytes: u64)
        ensures
            bytes == self.spec_storage_limit(),
    {
        match self {
            ResourceTier::Small => 5 * GIB,
            ResourceTier::Medium => 10 * GIB,
            ResourceTier::Large => 20 * GIB,
        }
    }

    /// All three limits of the tier.
    pub fn limits(&self) -> (limits: ResourceLimits)
        ensures
            limits == self.spec_limits(),
            limits.cpu_millicores == self.spec_cpu_limit(),
            limits.memory_bytes == self.spec_memory_limit(),
            limits.storage_bytes == self.spec_storage_limit(),
    {
        ResourceLimits {
            cpu_millicores: self.cpu_limit(),
            memory_bytes: self.memory_limit(),
            storage_bytes: self.storage_limit(),
        }
    }
}

impl Default for ResourceTier {
    /// The tier taken when a request names none.
    fn default() -> (tier: ResourceTier)
        ensures
            tier == ResourceTier::Medium,
    {
        ResourceTier::Medium
    }
}

/// A larger tier has strictly more of every resource than a smaller one.
pub proof fn lemma_limits_strictly_increasing(smaller: ResourceTier, larger: ResourceTier)
    requires
        smaller.rank() < larger.rank(),
    ensures
        smaller.spec_cpu_limit() < larger.spec_cpu_limit(),
        smaller.spec_memory_limit() < larger.spec_memory_limit(),
        smaller.spec_storage_limit() < larger.spec_storage_limit(),
        smaller.spec_limits().cpu_millicores < larger.spec_limits().cpu_millicores,
        smaller.spec_limits().memory_bytes < larger.spec_limits().memory_bytes,
        smaller.spec_limits().storage_bytes < larger.spec_limits().storage_bytes,
{
}

} // verus!
