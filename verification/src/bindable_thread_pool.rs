//! Pool-build planning: validating a thread count against a topology
//! snapshot and computing the whole per-thread binding plan up front.
//!
//! The external parallel-execution engine that spawns the workers, and the
//! affinity syscalls that apply an assignment, live outside this crate in
//! the surrounding application.  The application discovers the topology,
//! asks [`BindableThreadPool::build`] (or
//! [`BindableThreadPool::build_global`]) for a validated plan, and hands
//! each worker's startup callback its entry of the plan.  Construction
//! either yields a plan covering every worker or a typed failure and no
//! plan at all.

use vstd::prelude::*;

use crate::error::BindError;
use crate::policy::compute_assignment;
use crate::policy::spec_assignment;
use crate::policy::BindingAssignment;
use crate::policy::POLICY;
use crate::topology::Topology;

verus! {

/// A builder for a pool of worker threads bound according to a policy.
#[derive(Clone, Copy, Debug, PartialEq, Eq, Structural)]
pub struct BindableThreadPool {
    /// The binding policy, fixed for the whole pool build.
    pub bind_policy: POLICY,
    /// The number of worker threads the pool shall have.
    pub num_threads: usize,
}

/// The explicit once-initialization handle for a process-wide pool: the
/// first successful global build installs, every later attempt fails and
/// leaves the installed pool untouched.
#[derive(Clone, Copy, Debug, PartialEq, Eq, Structural)]
pub struct GlobalPoolGuard {
    /// Whether a process-wide pool has been installed through this guard.
    pub installed: bool,
}

impl GlobalPoolGuard {
    /// A fresh guard: nothing installed yet.
    pub fn new() -> (r: Self)
        ensures
            !r.installed,
    {
        GlobalPoolGuard { installed: false }
    }
}

/// How many resources the policy's granularity offers: processing units
/// for the PU policy, cores for the core and NUMA policies.
pub open spec fn resource_count(policy: POLICY, topo: Topology) -> nat {
    match policy {
        POLICY::ROUND_ROBIN_PU => topo.pus@.len(),
        POLICY::ROUND_ROBIN_CORE => topo.cores@.len(),
        POLICY::ROUND_ROBIN_NUMA => topo.cores@.len(),
    }
}

/// The smallest thread index in `[i, n)` whose assignment fails, if any.
pub open spec fn first_failing_from(i: usize, n: usize, policy: POLICY, topo: Topology) -> Option<
    usize,
>
    decreases n - i,
{
    if i >= n {
        None
    } else if spec_assignment(i, policy, topo) is Err {
        Some(i)
    } else {
        first_failing_from((i + 1) as usize, n, policy, topo)
    }
}

/// What a pool build yields: the full plan when the policy admits every
/// thread, else the failure of the first thread it cannot place — after a
/// fail-fast check that the policy's resource class is present and not
/// oversubscribed as a whole.
pub open spec fn spec_build(pool: BindableThreadPool, topo: Topology) -> Result<
    Seq<BindingAssignment>,
    BindError,
> {
    let n = pool.num_threads;
    let policy = pool.bind_policy;
    if policy == POLICY::ROUND_ROBIN_NUMA && topo.numa_nodes@.len() == 0 {
        Err(BindError::NoResource)
    } else if n > resource_count(policy, topo) {
        Err(
            BindError::Oversubscription {
                requested: n,
                available: resource_count(policy, topo) as usize,
            },
        )
    } else {
        match first_failing_from(0, n, policy, topo) {
            Some(f) => Err(spec_assignment(f, policy, topo)->Err_0),
            None => Ok(
                Seq::new(n as nat, |i: int| spec_assignment(i as usize, policy, topo)->Ok_0),
            ),
        }
    }
}

/// The executable build agrees with [`spec_build`], plan element by plan
/// element.
pub open spec fn build_matches(
    pool: BindableThreadPool,
    topo: Topology,
    r: Result<Vec<BindingAssignment>, BindError>,
) -> bool {
    match (r, spec_build(pool, topo)) {
        (Ok(plan), Ok(s)) => plan@ == s,
        (Err(e), Err(se)) => e == se,
        _ => false,
    }
}

proof fn lemma_first_failing_none(i: usize, n: usize, policy: POLICY, topo: Topology)
    requires
        forall|j: usize| i <= j < n ==> #[trigger] spec_assignment(j, policy, topo) is Ok,
    ensures
        first_failing_from(i, n, policy, topo) is None,
    decreases n - i,
{
    if i < n {
        lemma_first_failing_none((i + 1) as usize, n, policy, topo);
    }
}

proof fn lemma_first_failing_at(i: usize, f: usize, n: usize, policy: POLICY, topo: Topology)
    requires
        i <= f < n,
        forall|j: usize| i <= j < f ==> #[trigger] spec_assignment(j, policy, topo) is Ok,
        spec_assignment(f, policy, topo) is Err,
    ensures
        first_failing_from(i, n, policy, topo) == Some(f),
    decreases f - i,
{
    if i < f {
        lemma_first_failing_at((i + 1) as usize, f, n, policy, topo);
    }
}

impl BindableThreadPool {
    /// A builder for a pool whose threads will be bound under
    /// `bind_policy`; the thread count starts at zero and is set with
    /// [`BindableThreadPool::num_threads`].
    pub fn new(bind_policy: POLICY) -> (r: Self)
        ensures
            r.bind_policy == bind_policy,
            r.num_threads == 0,
    {
        BindableThreadPool { bind_policy, num_threads: 0 }
    }

    /// Set the number of worker threads wanted.  A caller that wants the
    /// engine's default count resolves it to a concrete number first.
    pub fn num_threads(self, num_threads: usize) -> (r: Self)
        ensures
            r.bind_policy == self.bind_policy,
            r.num_threads == num_threads,
    {
        BindableThreadPool { bind_policy: self.bind_policy, num_threads }
    }

    /// Validate the build against the snapshot and compute the whole
    /// binding plan, one assignment per worker thread.
    ///
    /// The build fails fast: a missing resource class or an oversubscribed
    /// policy granularity is reported before any per-thread work, and the
    /// first thread the policy cannot place aborts the build with its
    /// failure.  On success every worker's affinity target is already
    /// narrowed to exactly one processing unit.
    #[verifier::loop_isolation(false)]
    pub fn build(self, topo: &Topology) -> (r: Result<Vec<BindingAssignment>, BindError>)
        requires
            topo.wf(),
        ensures
            build_matches(self, *topo, r),
    {
        let n = self.num_threads;
        if matches!(self.bind_policy, POLICY::ROUND_ROBIN_NUMA) && topo.num_numa_nodes() == 0 {
            return Err(BindError::NoResource);
        }
        let available = match self.bind_policy {
            POLICY::ROUND_ROBIN_PU => topo.num_pus(),
            POLICY::ROUND_ROBIN_CORE => topo.num_cores(),
            POLICY::ROUND_ROBIN_NUMA => topo.num_cores(),
        };
        if n > available {
            return Err(BindError::Oversubscription { requested: n, available });
        }
        let mut plan: Vec<BindingAssignment> = Vec::new();
        let mut i: usize = 0;
        while i < n
            invariant
                i <= n,
                plan@.len() == i,
                forall|j: usize|
                    j < i ==> #[trigger] spec_assignment(j, self.bind_policy, *topo) is Ok
                        && plan@[j as int] == spec_assignment(j, self.bind_policy, *topo)->Ok_0,
            decreases n - i,
        {
            match compute_assignment(i, self.bind_policy, topo) {
                Ok(a) => {
                    plan.push(a);
                },
                Err(e) => {
                    proof {
                        lemma_first_failing_at(0, i, n, self.bind_policy, *topo);
                    }
                    return Err(e);
                },
            }
            i += 1;
        }
        proof {
            lemma_first_failing_none(0, n, self.bind_policy, *topo);
            assert(plan@ =~= Seq::new(
                n as nat,
                |j: int| spec_assignment(j as usize, self.bind_policy, *topo)->Ok_0,
            ));
        }
        Ok(plan)
    }

    /// Like [`BindableThreadPool::build`], but for the one process-wide
    /// pool: the plan is produced only if nothing was installed through
    /// `guard` before, and a successful build marks the guard installed.
    /// A second attempt fails with [`BindError::AlreadyInstalled`] and
    /// leaves both the guard and the installed pool untouched.
    pub fn build_global(self, topo: &Topology, guard: &mut GlobalPoolGuard) -> (r: Result<
        Vec<BindingAssignment>,
        BindError,
    >)
        requires
            topo.wf(),
        ensures
            old(guard).installed ==> r == Err::<Vec<BindingAssignment>, BindError>(
                BindError::AlreadyInstalled,
            ) && *final(guard) == *old(guard),
            !old(guard).installed ==> build_matches(self, *topo, r) && final(guard).installed == (
            r is Ok),
    {
        if guard.installed {
            return Err(BindError::AlreadyInstalled);
        }
        let r = self.build(topo);
        if r.is_ok() {
            guard.installed = true;
        }
        r
    }
}

} // verus!
