//! The binding policies: a pure map from (thread index, policy, topology)
//! to a single target processing unit.
//!
//! All three policies are deterministic: the same inputs always yield the
//! same assignment, and oversubscription is always a typed failure, never a
//! silent wrap-around.

use vstd::prelude::*;

use crate::cpuset::subset_ids;
use crate::cpuset::CpuSet;
use crate::error::BindError;
use crate::topology::Core;
use crate::topology::NumaNode;
use crate::topology::Topology;

verus! {

/// How worker threads are spread over the host's CPU resources.
#[allow(non_camel_case_types)]
#[derive(Clone, Copy, Debug, PartialEq, Eq, Structural)]
pub enum POLICY {
    /// Threads are interleaved across NUMA nodes: thread `i` goes to node
    /// `i mod numNodes` and takes that node's core number `i div numNodes`.
    ROUND_ROBIN_NUMA,
    /// Thread `i` is pinned to one unit of core `i` in enumeration order.
    ROUND_ROBIN_CORE,
    /// Thread `i` is pinned to processing unit `i` in enumeration order.
    ROUND_ROBIN_PU,
}

/// A computed binding: one thread, one processing unit.  The target is
/// always a single unit, never a multi-unit mask.
#[derive(Clone, Copy, Debug, PartialEq, Eq, Structural)]
pub struct BindingAssignment {
    /// The worker thread's zero-based index within its pool.
    pub thread_index: usize,
    /// The OS-level index of the processing unit the thread is pinned to.
    pub pu: usize,
}

/// `i + 1` without wrap-around at the top of the `usize` range.
pub open spec fn succ_or_max(i: usize) -> usize {
    if i == usize::MAX {
        usize::MAX
    } else {
        (i + 1) as usize
    }
}

/// A core belongs to a NUMA node when the node's aggregate set holds every
/// unit of the core.
pub open spec fn core_in_node(c: Core, node: NumaNode) -> bool {
    subset_ids(c.cpuset@, node.cpuset@)
}

/// The position in `cores` of the `k`-th core (zero-based, in enumeration
/// order) that belongs to `node`, if that node owns more than `k` cores.
pub open spec fn kth_core_in_node(cores: Seq<Core>, node: NumaNode, k: int) -> Option<int>
    decreases cores.len(),
{
    if cores.len() == 0 {
        None
    } else if core_in_node(cores[0], node) {
        if k == 0 {
            Some(0)
        } else {
            match kth_core_in_node(cores.drop_first(), node, k - 1) {
                Some(i) => Some(i + 1),
                None => None,
            }
        }
    } else {
        match kth_core_in_node(cores.drop_first(), node, k) {
            Some(i) => Some(i + 1),
            None => None,
        }
    }
}

/// How many cores of `cores` belong to `node`.
pub open spec fn count_cores_in_node(cores: Seq<Core>, node: NumaNode) -> nat
    decreases cores.len(),
{
    if cores.len() == 0 {
        0
    } else {
        (if core_in_node(cores.last(), node) {
            1nat
        } else {
            0nat
        }) + count_cores_in_node(cores.drop_last(), node)
    }
}

/// The PU policy: thread `i` takes processing unit `i`.
pub open spec fn spec_pu_assignment(thread_index: usize, topo: Topology) -> Result<
    BindingAssignment,
    BindError,
> {
    if thread_index < topo.pus@.len() {
        Ok(
            BindingAssignment {
                thread_index,
                pu: topo.pus@[thread_index as int].id,
            },
        )
    } else {
        Err(
            BindError::Oversubscription {
                requested: succ_or_max(thread_index),
                available: topo.pus@.len() as usize,
            },
        )
    }
}

/// The core policy: thread `i` takes the first unit of core `i`.
pub open spec fn spec_core_assignment(thread_index: usize, topo: Topology) -> Result<
    BindingAssignment,
    BindError,
> {
    if thread_index < topo.cores@.len() {
        Ok(
            BindingAssignment {
                thread_index,
                pu: topo.cores@[thread_index as int].cpuset@[0],
            },
        )
    } else {
        Err(
            BindError::Oversubscription {
                requested: succ_or_max(thread_index),
                available: topo.cores@.len() as usize,
            },
        )
    }
}

/// The NUMA policy: thread `i` goes to node `i mod numNodes`, and takes the
/// first unit of the `(i div numNodes)`-th core belonging to that node, in
/// global core-enumeration order.  This interleaving is well defined also
/// for nodes with unequal core counts: a node that runs out of cores is an
/// oversubscription failure for the thread that would need one more.
pub open spec fn spec_numa_assignment(thread_index: usize, topo: Topology) -> Result<
    BindingAssignment,
    BindError,
> {
    let n = topo.numa_nodes@.len() as int;
    if n == 0 {
        Err(BindError::NoResource)
    } else {
        let node = topo.numa_nodes@[thread_index as int % n];
        match kth_core_in_node(topo.cores@, node, thread_index as int / n) {
            Some(ci) => Ok(BindingAssignment { thread_index, pu: topo.cores@[ci].cpuset@[0] }),
            None => Err(
                BindError::Oversubscription {
                    requested: succ_or_max(thread_index),
                    available: count_cores_in_node(topo.cores@, node) as usize,
                },
            ),
        }
    }
}

/// What every policy assigns: the single source of truth the executable
/// engine is proved against.
pub open spec fn spec_assignment(thread_index: usize, policy: POLICY, topo: Topology) -> Result<
    BindingAssignment,
    BindError,
> {
    match policy {
        POLICY::ROUND_ROBIN_NUMA => spec_numa_assignment(thread_index, topo),
        POLICY::ROUND_ROBIN_CORE => spec_core_assignment(thread_index, topo),
        POLICY::ROUND_ROBIN_PU => spec_pu_assignment(thread_index, topo),
    }
}

fn succ_usize(i: usize) -> (r: usize)
    ensures
        r == succ_or_max(i),
{
    if i == usize::MAX {
        usize::MAX
    } else {
        i + 1
    }
}

/// The aggregate set of the core at position `idx` in enumeration order,
/// or an oversubscription failure when the host has no such core.
pub fn cpuset_for_core(topology: &Topology, idx: usize) -> (r: Result<CpuSet, BindError>)
    ensures
        idx < topology.cores@.len() ==> (r matches Ok(s) && s@ == topology.cores@[idx as int].cpuset@),
        idx >= topology.cores@.len() ==> r == Err::<CpuSet, BindError>(
            BindError::Oversubscription {
                requested: succ_or_max(idx),
                available: topology.cores@.len() as usize,
            },
        ),
{
    if idx < topology.cores.len() {
        Ok(topology.cores[idx].cpuset.clone())
    } else {
        Err(
            BindError::Oversubscription {
                requested: succ_usize(idx),
                available: topology.cores.len(),
            },
        )
    }
}

/// Find the `k`-th core of `node` in the global enumeration order.  The
/// second component reports, when the search fails, how many cores the
/// node owns in total.
#[verifier::loop_isolation(false)]
fn find_kth_core_in_node(cores: &Vec<Core>, node: &NumaNode, k: usize) -> (r: (
    Option<usize>,
    usize,
))
    ensures
        match r.0 {
            Some(ci) => ci < cores@.len() && kth_core_in_node(cores@, *node, k as int) == Some(
                ci as int,
            ),
            None => kth_core_in_node(cores@, *node, k as int) is None && r.1
                == count_cores_in_node(cores@, *node),
        },
{
    let mut i: usize = 0;
    let mut seen: usize = 0;
    proof {
        assert(cores@.skip(0) =~= cores@);
    }
    while i < cores.len()
        invariant
            i <= cores@.len(),
            seen <= k,
            count_cores_in_node(cores@.take(i as int), *node) == seen,
            match kth_core_in_node(cores@.skip(i as int), *node, k - seen) {
                Some(j) => kth_core_in_node(cores@, *node, k as int) == Some(j + i),
                None => kth_core_in_node(cores@, *node, k as int) is None,
            },
        decreases cores@.len() - i,
    {
        let in_node = node.cpuset.contains_all(&cores[i].cpuset);
        proof {
            assert(cores@.skip(i as int)[0] == cores@[i as int]);
            assert(cores@.skip(i as int).drop_first() =~= cores@.skip(i as int + 1));
            assert(cores@.take(i as int + 1).drop_last() =~= cores@.take(i as int));
            assert(cores@.take(i as int + 1).last() == cores@[i as int]);
            assert(core_in_node(cores@[i as int], *node) == in_node);
        }
        if in_node {
            if seen == k {
                return (Some(i), seen);
            }
            seen += 1;
        }
        i += 1;
    }
    proof {
        assert(cores@.skip(i as int).len() == 0);
        assert(cores@.take(i as int) =~= cores@);
    }
    (None, seen)
}

/// Compute the binding for one worker thread under the selected policy.
///
/// The result is exactly what [`spec_assignment`] states: the identical
/// `(thread_index, policy, topology)` triple always yields the identical
/// assignment, so a plan can be replayed or tested without real threads.
#[verifier::rlimit(50)]
pub fn compute_assignment(thread_index: usize, policy: POLICY, topo: &Topology) -> (r: Result<
    BindingAssignment,
    BindError,
>)
    requires
        topo.wf(),
    ensures
        r == spec_assignment(thread_index, policy, *topo),
{
    match policy {
        POLICY::ROUND_ROBIN_PU => {
            if thread_index < topo.pus.len() {
                Ok(BindingAssignment { thread_index, pu: topo.pus[thread_index].id })
            } else {
                Err(
                    BindError::Oversubscription {
                        requested: succ_usize(thread_index),
                        available: topo.pus.len(),
                    },
                )
            }
        },
        POLICY::ROUND_ROBIN_CORE => {
            match cpuset_for_core(topo, thread_index) {
                Ok(set) => Ok(BindingAssignment { thread_index, pu: set.ids[0] }),
                Err(e) => Err(e),
            }
        },
        POLICY::ROUND_ROBIN_NUMA => {
            let n = topo.num_numa_nodes();
            if n == 0 {
                return Err(BindError::NoResource);
            }
            let node_index = thread_index % n;
            let k = thread_index / n;
            let (found, node_core_count) = find_kth_core_in_node(
                &topo.cores,
                &topo.numa_nodes[node_index],
                k,
            );
            match found {
                Some(ci) => Ok(BindingAssignment { thread_index, pu: topo.cores[ci].cpuset.ids[0] }),
                None => Err(
                    BindError::Oversubscription {
                        requested: succ_usize(thread_index),
                        available: node_core_count,
                    },
                ),
            }
        },
    }
}

} // verus!
