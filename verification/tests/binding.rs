use bindable_thread_pool::BindError;
use bindable_thread_pool::BindableThreadPool;
use bindable_thread_pool::Core;
use bindable_thread_pool::CpuSet;
use bindable_thread_pool::GlobalPoolGuard;
use bindable_thread_pool::NumaNode;
use bindable_thread_pool::ProcessingUnit;
use bindable_thread_pool::Topology;
use bindable_thread_pool::POLICY;
use bindable_thread_pool::compute_assignment;
use bindable_thread_pool::cpuset_for_core;

fn cpuset(ids: Vec<usize>) -> CpuSet {
    CpuSet { ids }
}

fn pus(ids: &[usize]) -> Vec<ProcessingUnit> {
    ids.iter().map(|&id| ProcessingUnit { id }).collect()
}

fn cores(sets: &[&[usize]]) -> Vec<Core> {
    sets.iter().map(|s| Core { cpuset: cpuset(s.to_vec()) }).collect()
}

fn nodes(sets: &[&[usize]]) -> Vec<NumaNode> {
    sets.iter().map(|s| NumaNode { cpuset: cpuset(s.to_vec()) }).collect()
}

/// Four processing units, no NUMA information.
fn four_pu_topology() -> Topology {
    Topology::from_parts(nodes(&[]), cores(&[&[0, 1], &[2, 3]]), pus(&[0, 1, 2, 3])).unwrap()
}

/// Two NUMA nodes with two cores each, one hardware thread per PU pair.
fn two_node_topology() -> Topology {
    Topology::from_parts(
        nodes(&[&[0, 1, 2, 3], &[4, 5, 6, 7]]),
        cores(&[&[0, 1], &[2, 3], &[4, 5], &[6, 7]]),
        pus(&[0, 1, 2, 3, 4, 5, 6, 7]),
    )
    .unwrap()
}

#[test]
fn pu_round_robin_assigns_each_pu_once() {
    let topo = four_pu_topology();
    let plan = BindableThreadPool::new(POLICY::ROUND_ROBIN_PU)
        .num_threads(4)
        .build(&topo)
        .unwrap();
    assert_eq!(plan.len(), 4);
    for (i, a) in plan.iter().enumerate() {
        assert_eq!(a.thread_index, i);
        assert_eq!(a.pu, i);
    }
    for i in 0..plan.len() {
        for j in 0..i {
            assert_ne!(plan[i].pu, plan[j].pu);
        }
    }
}

#[test]
fn pu_round_robin_oversubscription_fails() {
    let topo = four_pu_topology();
    let r = BindableThreadPool::new(POLICY::ROUND_ROBIN_PU).num_threads(5).build(&topo);
    assert_eq!(
        r.unwrap_err(),
        BindError::Oversubscription { requested: 5, available: 4 }
    );
}

#[test]
fn core_round_robin_pins_within_core() {
    let topo = four_pu_topology();
    let plan = BindableThreadPool::new(POLICY::ROUND_ROBIN_CORE)
        .num_threads(2)
        .build(&topo)
        .unwrap();
    for (i, a) in plan.iter().enumerate() {
        assert!(topo.cores[i].cpuset.contains(a.pu));
    }
    assert_eq!(plan[0].pu, 0);
    assert_eq!(plan[1].pu, 2);
}

#[test]
fn core_round_robin_oversubscription_fails() {
    let topo = four_pu_topology();
    let r = BindableThreadPool::new(POLICY::ROUND_ROBIN_CORE).num_threads(3).build(&topo);
    assert_eq!(
        r.unwrap_err(),
        BindError::Oversubscription { requested: 3, available: 2 }
    );
}

#[test]
fn numa_round_robin_without_nodes_fails() {
    let topo = four_pu_topology();
    let r = BindableThreadPool::new(POLICY::ROUND_ROBIN_NUMA).num_threads(1).build(&topo);
    assert_eq!(r.unwrap_err(), BindError::NoResource);
    assert_eq!(
        compute_assignment(0, POLICY::ROUND_ROBIN_NUMA, &topo).unwrap_err(),
        BindError::NoResource
    );
}

#[test]
fn numa_round_robin_interleaves_nodes() {
    let topo = two_node_topology();
    let plan = BindableThreadPool::new(POLICY::ROUND_ROBIN_NUMA)
        .num_threads(4)
        .build(&topo)
        .unwrap();
    // Threads alternate over the nodes [0, 1, 0, 1], each taking the next
    // unused core of its node in enumeration order.
    let expected_pus = [0, 4, 2, 6];
    let expected_nodes = [0, 1, 0, 1];
    for (i, a) in plan.iter().enumerate() {
        assert_eq!(a.pu, expected_pus[i]);
        assert!(topo.numa_nodes[expected_nodes[i]].cpuset.contains(a.pu));
    }
    // Each thread's unit lies in a distinct core.
    for i in 0..plan.len() {
        for j in 0..i {
            let same_core = topo
                .cores
                .iter()
                .any(|c| c.cpuset.contains(plan[i].pu) && c.cpuset.contains(plan[j].pu));
            assert!(!same_core);
        }
    }
}

#[test]
fn numa_round_robin_unequal_nodes_fail_fast() {
    // One node owns three cores, the other only one: the fourth thread
    // would need a second core on the small node.
    let topo = Topology::from_parts(
        nodes(&[&[0, 1, 2], &[3]]),
        cores(&[&[0], &[1], &[2], &[3]]),
        pus(&[0, 1, 2, 3]),
    )
    .unwrap();
    let plan = BindableThreadPool::new(POLICY::ROUND_ROBIN_NUMA)
        .num_threads(3)
        .build(&topo)
        .unwrap();
    assert_eq!(plan[0].pu, 0);
    assert_eq!(plan[1].pu, 3);
    assert_eq!(plan[2].pu, 1);
    let r = BindableThreadPool::new(POLICY::ROUND_ROBIN_NUMA).num_threads(4).build(&topo);
    assert_eq!(
        r.unwrap_err(),
        BindError::Oversubscription { requested: 4, available: 1 }
    );
}

#[test]
fn global_install_happens_once() {
    let topo = four_pu_topology();
    let mut guard = GlobalPoolGuard::new();
    let first = BindableThreadPool::new(POLICY::ROUND_ROBIN_PU)
        .num_threads(4)
        .build_global(&topo, &mut guard);
    assert!(first.is_ok());
    assert!(guard.installed);
    let second = BindableThreadPool::new(POLICY::ROUND_ROBIN_PU)
        .num_threads(2)
        .build_global(&topo, &mut guard);
    assert_eq!(second.unwrap_err(), BindError::AlreadyInstalled);
    // The first installation stays in place.
    assert!(guard.installed);
}

#[test]
fn failed_global_build_leaves_guard_free() {
    let topo = four_pu_topology();
    let mut guard = GlobalPoolGuard::new();
    let failed = BindableThreadPool::new(POLICY::ROUND_ROBIN_PU)
        .num_threads(9)
        .build_global(&topo, &mut guard);
    assert!(failed.is_err());
    assert!(!guard.installed);
    let retry = BindableThreadPool::new(POLICY::ROUND_ROBIN_PU)
        .num_threads(4)
        .build_global(&topo, &mut guard);
    assert!(retry.is_ok());
    assert!(guard.installed);
}

#[test]
fn identical_discoveries_plan_identically() {
    let t1 = two_node_topology();
    let t2 = two_node_topology();
    assert_eq!(t1, t2);
    let p1 = BindableThreadPool::new(POLICY::ROUND_ROBIN_NUMA).num_threads(4).build(&t1);
    let p2 = BindableThreadPool::new(POLICY::ROUND_ROBIN_NUMA).num_threads(4).build(&t2);
    assert_eq!(p1.unwrap(), p2.unwrap());
}

#[test]
fn inconsistent_discovery_is_rejected() {
    // A core without any processing unit.
    let r = Topology::from_parts(nodes(&[]), cores(&[&[]]), pus(&[0]));
    assert_eq!(r.unwrap_err(), BindError::TopologyDiscovery);
    // A set out of canonical order.
    let r = Topology::from_parts(nodes(&[]), cores(&[&[2, 1]]), pus(&[1, 2]));
    assert_eq!(r.unwrap_err(), BindError::TopologyDiscovery);
    // Two processing units sharing an identifier.
    let r = Topology::from_parts(nodes(&[]), cores(&[&[0]]), pus(&[0, 0]));
    assert_eq!(r.unwrap_err(), BindError::TopologyDiscovery);
}

#[test]
fn cpuset_for_core_returns_the_cores_set() {
    let topo = four_pu_topology();
    assert_eq!(cpuset_for_core(&topo, 1).unwrap().ids, vec![2, 3]);
    assert_eq!(
        cpuset_for_core(&topo, 2).unwrap_err(),
        BindError::Oversubscription { requested: 3, available: 2 }
    );
}

#[test]
fn singlify_keeps_the_first_unit() {
    let mut s = cpuset(vec![3, 5, 7]);
    s.singlify();
    assert_eq!(s.ids, vec![3]);
    let mut empty = cpuset(vec![]);
    empty.singlify();
    assert!(empty.is_empty());
}

#[test]
fn cpuset_queries() {
    let s = cpuset(vec![1, 4, 6]);
    assert!(s.contains(4));
    assert!(!s.contains(5));
    assert!(s.contains_all(&cpuset(vec![1, 6])));
    assert!(!s.contains_all(&cpuset(vec![1, 2])));
    assert_eq!(s.len(), 3);
}

#[test]
fn cpuset_union_merges_in_order() {
    let s = cpuset(vec![1, 4, 6]).union(&cpuset(vec![0, 4, 9]));
    assert_eq!(s.ids, vec![0, 1, 4, 6, 9]);
    let t = cpuset(vec![]).union(&cpuset(vec![2]));
    assert_eq!(t.ids, vec![2]);
}

#[test]
fn oversubscription_count_saturates() {
    let topo = Topology::from_parts(nodes(&[]), cores(&[&[0]]), pus(&[0])).unwrap();
    let r = compute_assignment(usize::MAX, POLICY::ROUND_ROBIN_PU, &topo);
    assert_eq!(
        r.unwrap_err(),
        BindError::Oversubscription { requested: usize::MAX, available: 1 }
    );
}

#[test]
fn builder_records_policy_and_count() {
    let b = BindableThreadPool::new(POLICY::ROUND_ROBIN_CORE);
    assert_eq!(b.num_threads, 0);
    let b = b.num_threads(7);
    assert_eq!(b.num_threads, 7);
    assert_eq!(b.bind_policy, POLICY::ROUND_ROBIN_CORE);
}
