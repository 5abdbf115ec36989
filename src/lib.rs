//! A minimal container runtime core: container identity, the ordered steps
//! that jail a process in new namespaces under a root mapped to the host
//! user, the exec of the container's command, and the supervisor's decisions
//! on the forked child. The host performs each step and reports back.

pub mod container;
pub mod identity;
pub mod mapping;
pub mod options;
pub mod supervisor;
