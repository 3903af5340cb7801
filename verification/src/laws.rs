//! The guarantees the binding engine gives, stated and proved once for all
//! inputs: distinctness under the PU policy, typed failure on
//! oversubscription and on a missing resource class, placement of every
//! core-policy and NUMA-policy target inside its owning object, and
//! determinism of the whole computation.

use vstd::prelude::*;

use crate::bindable_thread_pool::spec_build;
use crate::bindable_thread_pool::BindableThreadPool;
use crate::error::BindError;
use crate::policy::core_in_node;
use crate::policy::kth_core_in_node;
use crate::policy::spec_assignment;
use crate::policy::BindingAssignment;
use crate::policy::POLICY;
use crate::topology::Core;
use crate::topology::NumaNode;
use crate::topology::Topology;

verus! {

/// Law: under the PU policy with a thread count within the host's
/// processing units, every thread receives exactly one unit, and no two
/// threads share one.
pub proof fn lemma_pu_round_robin_distinct(topo: Topology, n: usize, i: usize, j: usize)
    requires
        topo.wf(),
        n <= topo.pus@.len(),
        i < n,
        j < n,
        i != j,
    ensures
        spec_assignment(i, POLICY::ROUND_ROBIN_PU, topo) is Ok,
        spec_assignment(j, POLICY::ROUND_ROBIN_PU, topo) is Ok,
        spec_assignment(i, POLICY::ROUND_ROBIN_PU, topo)->Ok_0.pu != spec_assignment(
            j,
            POLICY::ROUND_ROBIN_PU,
            topo,
        )->Ok_0.pu,
{
    if i < j {
        assert(topo.pus@[i as int].id != topo.pus@[j as int].id);
    } else {
        assert(topo.pus@[j as int].id != topo.pus@[i as int].id);
    }
}

/// Law: under the PU policy, asking for more threads than the host has
/// processing units fails the whole build with an oversubscription error;
/// no plan is produced.
pub proof fn lemma_pu_oversubscription_fails(pool: BindableThreadPool, topo: Topology)
    requires
        pool.bind_policy == POLICY::ROUND_ROBIN_PU,
        pool.num_threads > topo.pus@.len(),
    ensures
        spec_build(pool, topo) == Err::<Seq<BindingAssignment>, BindError>(
            BindError::Oversubscription {
                requested: pool.num_threads,
                available: topo.pus@.len() as usize,
            },
        ),
{
}

/// Law: under the core policy, thread `i`'s singlified processing unit
/// lies within core `i`'s own set.
pub proof fn lemma_core_round_robin_within_core(topo: Topology, i: usize)
    requires
        topo.wf(),
        i < topo.cores@.len(),
    ensures
        spec_assignment(i, POLICY::ROUND_ROBIN_CORE, topo) is Ok,
        topo.cores@[i as int].cpuset@.contains(
            spec_assignment(i, POLICY::ROUND_ROBIN_CORE, topo)->Ok_0.pu,
        ),
{
    assert(topo.cores@[i as int].cpuset@.len() > 0);
    assert(topo.cores@[i as int].cpuset@.contains(topo.cores@[i as int].cpuset@[0]));
}

/// Law: the NUMA policy on a host that reports no NUMA nodes fails — for
/// every thread index, and for the whole build — with the missing-resource
/// error, never anything silent.
pub proof fn lemma_numa_without_nodes_fails(
    pool: BindableThreadPool,
    topo: Topology,
    thread_index: usize,
)
    requires
        pool.bind_policy == POLICY::ROUND_ROBIN_NUMA,
        topo.numa_nodes@.len() == 0,
    ensures
        spec_assignment(thread_index, POLICY::ROUND_ROBIN_NUMA, topo) == Err::<BindingAssignment, BindError>(BindError::NoResource),
        spec_build(pool, topo) == Err::<Seq<BindingAssignment>, BindError>(
            BindError::NoResource,
        ),
{
}

/// Law: the whole computation is pure — identical thread index, policy and
/// topology snapshot always yield the identical assignment and the
/// identical build outcome.  Stability across repeated discoveries on an
/// unchanged host therefore rests only on the OS enumerating in a stable
/// order.
pub proof fn lemma_binding_deterministic(
    pool: BindableThreadPool,
    thread_index: usize,
    t1: Topology,
    t2: Topology,
)
    requires
        t1 == t2,
    ensures
        spec_assignment(thread_index, pool.bind_policy, t1) == spec_assignment(
            thread_index,
            pool.bind_policy,
            t2,
        ),
        spec_build(pool, t1) == spec_build(pool, t2),
{
}

proof fn lemma_kth_core_props(cores: Seq<Core>, node: NumaNode, k: int)
    requires
        kth_core_in_node(cores, node, k) is Some,
    ensures
        0 <= kth_core_in_node(cores, node, k)->0 < cores.len(),
        core_in_node(cores[kth_core_in_node(cores, node, k)->0], node),
    decreases cores.len(),
{
    if cores.len() > 0 {
        if core_in_node(cores[0], node) && k == 0 {
        } else if core_in_node(cores[0], node) {
            lemma_kth_core_props(cores.drop_first(), node, k - 1);
        } else {
            lemma_kth_core_props(cores.drop_first(), node, k);
        }
    }
}

proof fn lemma_kth_core_injective(cores: Seq<Core>, node: NumaNode, k1: int, k2: int)
    requires
        k1 != k2,
        k1 >= 0,
        k2 >= 0,
        kth_core_in_node(cores, node, k1) is Some,
        kth_core_in_node(cores, node, k2) is Some,
    ensures
        kth_core_in_node(cores, node, k1) != kth_core_in_node(cores, node, k2),
    decreases cores.len(),
{
    if cores.len() > 0 {
        if core_in_node(cores[0], node) {
            if k1 == 0 {
                lemma_kth_core_props(cores.drop_first(), node, k2 - 1);
            } else if k2 == 0 {
                lemma_kth_core_props(cores.drop_first(), node, k1 - 1);
            } else {
                lemma_kth_core_injective(cores.drop_first(), node, k1 - 1, k2 - 1);
            }
        } else {
            lemma_kth_core_injective(cores.drop_first(), node, k1, k2);
        }
    }
}

/// Law: a NUMA-policy assignment for thread `i` pins the thread inside its
/// assigned node — node `i mod numNodes` — and the core it took belongs to
/// that node.
pub proof fn lemma_numa_within_assigned_node(topo: Topology, thread_index: usize)
    requires
        topo.wf(),
        topo.numa_nodes@.len() > 0,
        spec_assignment(thread_index, POLICY::ROUND_ROBIN_NUMA, topo) is Ok,
    ensures
        ({
            let n = topo.numa_nodes@.len() as int;
            let node = topo.numa_nodes@[thread_index as int % n];
            node.cpuset@.contains(
                spec_assignment(thread_index, POLICY::ROUND_ROBIN_NUMA, topo)->Ok_0.pu,
            )
        }),
{
    let n = topo.numa_nodes@.len() as int;
    let node = topo.numa_nodes@[thread_index as int % n];
    let k = thread_index as int / n;
    lemma_kth_core_props(topo.cores@, node, k);
    let ci = kth_core_in_node(topo.cores@, node, k)->0;
    assert(topo.cores@[ci].cpuset@.len() > 0);
    assert(topo.cores@[ci].cpuset@.contains(topo.cores@[ci].cpuset@[0]));
}

/// Law: two distinct threads that the NUMA policy sends to the same node
/// take distinct cores of that node: the interleaving never doubles up a
/// core while the build succeeds.
pub proof fn lemma_numa_distinct_cores_within_node(topo: Topology, i: usize, j: usize)
    requires
        topo.wf(),
        topo.numa_nodes@.len() > 0,
        i != j,
        i as int % (topo.numa_nodes@.len() as int) == j as int % (topo.numa_nodes@.len() as int),
        spec_assignment(i, POLICY::ROUND_ROBIN_NUMA, topo) is Ok,
        spec_assignment(j, POLICY::ROUND_ROBIN_NUMA, topo) is Ok,
    ensures
        ({
            let n = topo.numa_nodes@.len() as int;
            let node = topo.numa_nodes@[i as int % n];
            kth_core_in_node(topo.cores@, node, i as int / n) != kth_core_in_node(
                topo.cores@,
                node,
                j as int / n,
            )
        }),
{
    let n = topo.numa_nodes@.len() as int;
    let node = topo.numa_nodes@[i as int % n];
    assert(i as int / n != j as int / n) by {
        if i as int / n == j as int / n {
            assert(i as int == n * (i as int / n) + i as int % n) by (nonlinear_arith)
                requires
                    n > 0,
            ;
            assert(j as int == n * (j as int / n) + j as int % n) by (nonlinear_arith)
                requires
                    n > 0,
            ;
        }
    }
    lemma_kth_core_injective(topo.cores@, node, i as int / n, j as int / n);
}

} // verus!
