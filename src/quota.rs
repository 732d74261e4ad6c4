//! Quota resources and roots (RFC 2087).
use vstd::prelude::*;

verus! {

/// The name of a quota resource.
#[derive(Debug, Clone, PartialEq, Eq, Hash)]
pub enum QuotaResourceName {
    /// Sum of messages' RFC822.SIZE, in units of 1024 octets
    Storage,
    /// Number of messages
    Message,
    /// A different/custom resource
    Atom(String),
}

/// One resource of a `QUOTA` response.
#[derive(Debug, Clone, PartialEq, Eq, Hash)]
pub struct QuotaResource {
    /// name of the resource
    pub name: QuotaResourceName,
    /// current usage of the resource
    pub usage: u64,
    /// resource limit
    pub limit: u64,
}

/// `usage * 100`, saturated at the largest `u64`, divided by `limit`.
pub open spec fn usage_percentage(usage: u64, limit: u64) -> int
    recommends
        limit > 0,
{
    let scaled = if usage * 100 > u64::MAX { u64::MAX as int } else { usage * 100 };
    scaled / (limit as int)
}

impl QuotaResource {
    /// Gets the usage percentage of a resource, rounded down.
    pub fn get_usage_percentage(self) -> (r: u64)
        requires
            self.limit > 0,
        ensures
            r == usage_percentage(self.usage, self.limit),
    {
        let scaled: u64 = if self.usage > u64::MAX / 100 {
            u64::MAX
        } else {
            self.usage * 100
        };
        assert(self.usage > u64::MAX / 100 <==> self.usage * 100 > u64::MAX) by (nonlinear_arith);
        scaled / self.limit
    }
}

/// A `QUOTA` response.
#[derive(Debug, Clone, PartialEq, Eq, Hash)]
pub struct Quota {
    /// quota root name
    pub root_name: String,
    /// quota resources for this quota
    pub resources: Vec<QuotaResource>,
}

/// A `QUOTAROOT` response.
#[derive(Debug, Clone, PartialEq, Eq, Hash)]
pub struct QuotaRoot {
    /// mailbox name
    pub mailbox_name: String,
    /// zero or more quota root names
    pub quota_root_names: Vec<String>,
}

} // verus!
