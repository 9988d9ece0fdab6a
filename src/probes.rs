use vstd::prelude::*;

use crate::environ::{environ_entries, lookup_entry, lookup_last, parse_environ};
use crate::runtime::{model_of, runtime_named, ContainerRuntime, RuntimeModel};

verus! {

/// The marker file that Docker places at the root of a container.
pub const DOCKERENV_PATH: &'static str = "/.dockerenv";

/// The cgroup descriptor of the init process.
pub const CGROUP_PATH: &'static str = "/proc/1/cgroup";

/// The path segment that marks a Docker cgroup.
pub const DOCKER_CGROUP_SEGMENT: &'static str = "/docker/";

/// The environment block of the init process.
pub const INIT_ENVIRON_PATH: &'static str = "/proc/1/environ";

/// The environment key that names the container runtime.
pub const CONTAINER_KEY: &'static str = "container";

/// The kernel control variable that tells whether the process is jailed.
pub const JAILED_SYSCTL: &'static str = "security.jail.jailed";

/// The registry subkey, under the local machine, that holds the container type.
pub const CONTROL_SUBKEY: &'static str = "SYSTEM\\CurrentControlSet\\Control";

/// The registry value that exists inside a Windows container.
pub const CONTAINER_TYPE_VALUE: &'static str = "ContainerType";

/// The service that runs containers on Windows.
pub const CONTAINER_SERVICE: &'static str = "cexecsvc";

/// Whether `needle` occurs in `haystack` as a contiguous run of characters.
pub open spec fn occurs_in(needle: Seq<char>, haystack: Seq<char>) -> bool {
    exists|i: int|
        0 <= i && i + needle.len() <= haystack.len() && #[trigger] haystack.subrange(
            i,
            i + needle.len(),
        ) == needle
}

/// Whether `needle` matches `haystack` at position `at`.
fn matches_at(haystack: &str, hn: usize, needle: &str, nn: usize, at: usize) -> (r: bool)
    requires
        hn == haystack@.len(),
        nn == needle@.len(),
        at + nn <= hn,
    ensures
        r == (haystack@.subrange(at as int, at + nn) == needle@),
{
    let mut j: usize = 0;
    while j < nn
        invariant
            j <= nn,
            hn == haystack@.len(),
            nn == needle@.len(),
            at + nn <= hn,
            forall|k: int| 0 <= k < j ==> haystack@[at + k] == needle@[k],
        decreases nn - j,
    {
        if haystack.get_char(at + j) != needle.get_char(j) {
            proof {
                let sub = haystack@.subrange(at as int, at + nn);
                assert(sub[j as int] != needle@[j as int]);
            }
            return false;
        }
        j = j + 1;
    }
    proof {
        assert(haystack@.subrange(at as int, at + nn) =~= needle@);
    }
    true
}

/// Whether `needle` occurs in `haystack`.
pub fn contains_text(haystack: &str, needle: &str) -> (r: bool)
    ensures
        r == occurs_in(needle@, haystack@),
{
    let hn = haystack.unicode_len();
    let nn = needle.unicode_len();
    if nn > hn {
        return false;
    }
    let last = hn - nn;
    let mut at: usize = 0;
    loop
        invariant
            hn == haystack@.len(),
            nn == needle@.len(),
            last == hn - nn,
            at <= last,
            forall|i: int|
                0 <= i < at ==> #[trigger] haystack@.subrange(i, i + nn) != needle@,
        decreases last - at,
    {
        if matches_at(haystack, hn, needle, nn, at) {
            return true;
        }
        if at == last {
            return false;
        }
        at = at + 1;
    }
}

/// Verdict of the Docker marker probe: the marker file's presence means Docker.
pub fn dockerenv_exists(marker_present: bool) -> (r: Option<ContainerRuntime>)
    ensures
        r == (if marker_present {
            Some(ContainerRuntime::Docker)
        } else {
            None
        }),
{
    if marker_present {
        Some(ContainerRuntime::Docker)
    } else {
        None
    }
}

/// Verdict of the cgroup probe, given the contents of the init process's
/// cgroup descriptor (`None` where it could not be read): Docker where they
/// hold a `/docker/` path segment.
pub fn cgroup(contents: Option<&str>) -> (r: Option<ContainerRuntime>)
    ensures
        r == (match contents {
            Some(c) => if occurs_in(DOCKER_CGROUP_SEGMENT@, c@) {
                Some(ContainerRuntime::Docker)
            } else {
                None
            },
            None => None,
        }),
{
    match contents {
        Some(c) => if contains_text(c, DOCKER_CGROUP_SEGMENT) {
            Some(ContainerRuntime::Docker)
        } else {
            None
        },
        None => None,
    }
}

/// The runtime that an environment block names under its `container` key.
pub open spec fn runtime_in_environ(blob: Seq<char>) -> Option<RuntimeModel> {
    match lookup_last(environ_entries(blob), CONTAINER_KEY@) {
        Some(v) => Some(runtime_named(v)),
        None => None,
    }
}

/// Verdict of the init-process environment probe, given the environment
/// block of the init process (`None` where it could not be read): the runtime
/// named by the `container` entry, an unknown one included.
pub fn pid_1_environ(environ: Option<&str>) -> (r: Option<ContainerRuntime>)
    ensures
        model_of(r) == (match environ {
            Some(blob) => runtime_in_environ(blob@),
            None => None,
        }),
{
    match environ {
        Some(blob) => {
            let entries = parse_environ(blob);
            match lookup_entry(&entries, CONTAINER_KEY) {
                Some(v) => Some(ContainerRuntime::from_name(v.as_str())),
                None => None,
            }
        },
        None => None,
    }
}

/// Verdict of the jail probe, given the integer value of the jail control
/// variable (`None` where it could not be read or is not an integer): a value
/// of one means a jail.
pub fn sysctl_securityjailjailed(jailed: Option<i32>) -> (r: Option<ContainerRuntime>)
    ensures
        r == (if jailed == Some(1i32) {
            Some(ContainerRuntime::Jail)
        } else {
            None
        }),
{
    match jailed {
        Some(1i32) => Some(ContainerRuntime::Jail),
        _ => None,
    }
}

/// Verdict of the registry probe: the container-type value's presence means
/// Docker.
pub fn winreg_containertype(value_present: bool) -> (r: Option<ContainerRuntime>)
    ensures
        r == (if value_present {
            Some(ContainerRuntime::Docker)
        } else {
            None
        }),
{
    if value_present {
        Some(ContainerRuntime::Docker)
    } else {
        None
    }
}

/// Verdict of the container service probe: a registered, queryable container
/// execution service means Docker.
pub fn service_cexecsvc(service_present: bool) -> (r: Option<ContainerRuntime>)
    ensures
        r == (if service_present {
            Some(ContainerRuntime::Docker)
        } else {
            None
        }),
{
    if service_present {
        Some(ContainerRuntime::Docker)
    } else {
        None
    }
}

} // verus!
