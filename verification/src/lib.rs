//! Topology-aware CPU binding for worker-thread pools.
//!
//! The crate models a host's CPU hierarchy (NUMA nodes, cores, processing
//! units), computes a deterministic per-thread binding assignment under one
//! of three round-robin policies, and validates a whole binding plan at
//! pool-build time.  Discovery of the real hardware hierarchy and the actual
//! affinity syscalls are left to the surrounding application; everything the
//! library computes is specified and proved.

pub mod bindable_thread_pool;
pub mod cpuset;
pub mod error;
pub mod fib;
pub mod laws;
pub mod policy;
pub mod topology;

pub use bindable_thread_pool::BindableThreadPool;
pub use bindable_thread_pool::GlobalPoolGuard;
pub use cpuset::CpuSet;
pub use error::BindError;
pub use policy::compute_assignment;
pub use policy::cpuset_for_core;
pub use policy::BindingAssignment;
pub use policy::POLICY;
pub use topology::Core;
pub use topology::NumaNode;
pub use topology::ProcessingUnit;
pub use topology::Topology;
