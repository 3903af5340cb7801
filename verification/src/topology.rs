//! An immutable snapshot of the host's CPU hierarchy.
//!
//! The snapshot holds the NUMA nodes, cores and processing units in their
//! native enumeration order, each object exposing its aggregate [`CpuSet`].
//! It is built once per pool build, from plain values that the surrounding
//! application reads out of the operating system's topology facility, and is
//! read-only afterwards.

use vstd::prelude::*;

use crate::cpuset::CpuSet;
use crate::error::BindError;

verus! {

/// The smallest bindable unit: a hardware thread, identified by its
/// OS-level index.
#[derive(Clone, Copy, Debug, PartialEq, Eq, Structural)]
pub struct ProcessingUnit {
    /// The OS-level index of this processing unit.
    pub id: usize,
}

/// A physical CPU core, exposing the aggregate set of its processing units.
#[derive(Debug, PartialEq, Eq)]
pub struct Core {
    /// The processing units owned by this core.
    pub cpuset: CpuSet,
}

/// A NUMA node, exposing the aggregate set of its processing units.
#[derive(Debug, PartialEq, Eq)]
pub struct NumaNode {
    /// The processing units local to this node.
    pub cpuset: CpuSet,
}

/// The host hierarchy: ordered sequences of NUMA nodes, cores and
/// processing units, in native enumeration order.
#[derive(Debug, PartialEq, Eq)]
pub struct Topology {
    /// NUMA nodes in native enumeration order; empty on a non-NUMA host.
    pub numa_nodes: Vec<NumaNode>,
    /// Cores in native enumeration order.
    pub cores: Vec<Core>,
    /// Processing units in native enumeration order.
    pub pus: Vec<ProcessingUnit>,
}

impl ProcessingUnit {
    /// The singleton [`CpuSet`] holding exactly this unit.
    pub fn cpuset(&self) -> (r: CpuSet)
        ensures
            r@ == seq![self.id],
            r.wf(),
    {
        let r = CpuSet { ids: vec![self.id] };
        assert(r@ =~= seq![self.id]);
        r
    }
}

impl Topology {
    /// Consistency of a discovered snapshot: every per-object set is in
    /// canonical form, every core owns at least one processing unit, and no
    /// two processing units share an identifier.
    pub open spec fn wf(&self) -> bool {
        &&& forall|i: int|
            0 <= i < self.cores@.len() ==> (#[trigger] self.cores@[i]).cpuset.wf()
                && self.cores@[i].cpuset@.len() > 0
        &&& forall|i: int| 0 <= i < self.numa_nodes@.len() ==> (#[trigger] self.numa_nodes@[i]).cpuset.wf()
        &&& forall|i: int, j: int|
            0 <= i < j < self.pus@.len() ==> (#[trigger] self.pus@[i]).id != (#[trigger] self.pus@[j]).id
    }

    /// Assemble a snapshot from the sequences a discovery read out of the
    /// OS facility, in their native order.  Inconsistent data — a core with
    /// no processing unit, a set out of canonical form, or two processing
    /// units sharing an identifier — is rejected as a discovery failure.
    #[verifier::loop_isolation(false)]
    pub fn from_parts(numa_nodes: Vec<NumaNode>, cores: Vec<Core>, pus: Vec<ProcessingUnit>) -> (r:
        Result<Topology, BindError>)
        ensures
            ({
                let t = Topology { numa_nodes, cores, pus };
                &&& t.wf() ==> r == Ok::<Topology, BindError>(t)
                &&& !t.wf() ==> r == Err::<Topology, BindError>(BindError::TopologyDiscovery)
            }),
    {
        let ghost t = Topology { numa_nodes: numa_nodes, cores: cores, pus: pus };
        let mut i: usize = 0;
        while i < cores.len()
            invariant
                i <= cores@.len(),
                forall|k: int|
                    0 <= k < i ==> (#[trigger] cores@[k]).cpuset.wf() && cores@[k].cpuset@.len()
                        > 0,
            decreases cores@.len() - i,
        {
            if cores[i].cpuset.is_empty() || !cores[i].cpuset.check_wf() {
                proof {
                    assert(t.cores@[i as int] == cores@[i as int]);
                    assert(!t.wf());
                }
                return Err(BindError::TopologyDiscovery);
            }
            i += 1;
        }
        let mut i: usize = 0;
        while i < numa_nodes.len()
            invariant
                i <= numa_nodes@.len(),
                forall|k: int| 0 <= k < i ==> (#[trigger] numa_nodes@[k]).cpuset.wf(),
            decreases numa_nodes@.len() - i,
        {
            if !numa_nodes[i].cpuset.check_wf() {
                proof {
                    assert(t.numa_nodes@[i as int] == numa_nodes@[i as int]);
                    assert(!t.wf());
                }
                return Err(BindError::TopologyDiscovery);
            }
            i += 1;
        }
        let mut i: usize = 0;
        while i < pus.len()
            invariant
                i <= pus@.len(),
                forall|k: int, l: int|
                    0 <= k < l < pus@.len() && k < i ==> (#[trigger] pus@[k]).id != (
                    #[trigger] pus@[l]).id,
            decreases pus@.len() - i,
        {
            let mut j: usize = i + 1;
            while j < pus.len()
                invariant
                    i < j || i == pus@.len(),
                    i < pus@.len(),
                    j <= pus@.len(),
                    forall|l: int| i < l < j ==> (#[trigger] pus@[l]).id != pus@[i as int].id,
                decreases pus@.len() - j,
            {
                if pus[j].id == pus[i].id {
                    proof {
                        assert(t.pus@[i as int] == pus@[i as int]);
                        assert(t.pus@[j as int] == pus@[j as int]);
                        assert(!t.wf());
                    }
                    return Err(BindError::TopologyDiscovery);
                }
                j += 1;
            }
            i += 1;
        }
        Ok(Topology { numa_nodes, cores, pus })
    }

    /// The number of NUMA nodes the snapshot reports.
    pub fn num_numa_nodes(&self) -> (r: usize)
        ensures
            r == self.numa_nodes@.len(),
    {
        self.numa_nodes.len()
    }

    /// The number of cores the snapshot reports.
    pub fn num_cores(&self) -> (r: usize)
        ensures
            r == self.cores@.len(),
    {
        self.cores.len()
    }

    /// The number of processing units the snapshot reports.
    pub fn num_pus(&self) -> (r: usize)
        ensures
            r == self.pus@.len(),
    {
        self.pus.len()
    }
}

} // verus!
