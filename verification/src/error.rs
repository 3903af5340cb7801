//! The build-time failure taxonomy.
//!
//! Every failure of a pool build is one of these typed values; no path in
//! the library aborts the process.  A failed build hands the caller no pool.

use vstd::prelude::*;

verus! {

/// Why a pool build failed.
#[derive(Clone, Copy, Debug, PartialEq, Eq, Structural)]
pub enum BindError {
    /// The OS topology facility was unavailable or returned inconsistent
    /// data.
    TopologyDiscovery,
    /// More threads were requested than the policy's resource class offers.
    /// `requested` is the number of threads that would be needed,
    /// `available` the number of resources present.
    Oversubscription { requested: usize, available: usize },
    /// The selected policy needs a resource class absent on this host.
    NoResource,
    /// The OS rejected the affinity call for a thread.
    Affinity,
    /// A process-wide pool was already installed; the existing one stays.
    AlreadyInstalled,
}

} // verus!
