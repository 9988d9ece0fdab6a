//! Detects whether the current process runs inside a container or an OS-level
//! jail, and which runtime that is.
//!
//! Each platform has a chain of probes, each of which checks one signal and
//! either names a runtime or abstains. The probes run in a fixed order and
//! the first positive verdict decides. The library holds the decisions: what
//! each probe concludes from what it read, which probe runs next, and what
//! the chain's outcome is. Reading files, kernel variables, the registry or
//! the service manager is left to the caller, which hands the library what
//! it read.
pub mod chain;
pub mod environ;
pub mod probes;
pub mod runtime;

pub use chain::{chain_of, get_container_runtime, in_container, next_probe, Platform, Probe};
pub use environ::{lookup_entry, parse_environ};
pub use probes::{
    cgroup, contains_text, dockerenv_exists, pid_1_environ, service_cexecsvc,
    sysctl_securityjailjailed, winreg_containertype,
};
pub use runtime::ContainerRuntime;
