use vstd::prelude::*;

verus! {

/// The detected container runtime.
#[derive(Debug, Clone, PartialEq, Eq)]
#[non_exhaustive]
pub enum ContainerRuntime {
    /// Docker container runtime
    Docker,
    /// BSD jail
    Jail,
    /// Linux Containers
    Lxc,
    /// systemd-nspawn
    SystemdNspawn,
    /// A runtime known only by the raw name it reported
    Unknown(String),
}

/// The mathematical value of a `ContainerRuntime`: the same tags, with the
/// name of an unknown runtime as a sequence of characters.
pub enum RuntimeModel {
    Docker,
    Jail,
    Lxc,
    SystemdNspawn,
    Unknown(Seq<char>),
}

impl View for ContainerRuntime {
    type V = RuntimeModel;

    open spec fn view(&self) -> RuntimeModel {
        match self {
            ContainerRuntime::Docker => RuntimeModel::Docker,
            ContainerRuntime::Jail => RuntimeModel::Jail,
            ContainerRuntime::Lxc => RuntimeModel::Lxc,
            ContainerRuntime::SystemdNspawn => RuntimeModel::SystemdNspawn,
            ContainerRuntime::Unknown(name) => RuntimeModel::Unknown(name@),
        }
    }
}

/// The runtime that a name stands for: one of the known names, or else an
/// unknown runtime carrying the name verbatim.
pub open spec fn runtime_named(s: Seq<char>) -> RuntimeModel {
    if s == "docker"@ {
        RuntimeModel::Docker
    } else if s == "jail"@ {
        RuntimeModel::Jail
    } else if s == "lxc"@ {
        RuntimeModel::Lxc
    } else if s == "systemd-nspawn"@ {
        RuntimeModel::SystemdNspawn
    } else {
        RuntimeModel::Unknown(s)
    }
}

/// The display name of a runtime: the known names, or `unknown(<name>)`.
pub open spec fn name_of(r: RuntimeModel) -> Seq<char> {
    match r {
        RuntimeModel::Docker => "docker"@,
        RuntimeModel::Jail => "jail"@,
        RuntimeModel::Lxc => "lxc"@,
        RuntimeModel::SystemdNspawn => "systemd-nspawn"@,
        RuntimeModel::Unknown(name) => "unknown\u{28}"@ + name + "\u{29}"@,
    }
}

/// The model of an optional runtime.
pub open spec fn model_of(r: Option<ContainerRuntime>) -> Option<RuntimeModel> {
    match r {
        Some(rt) => Some(rt@),
        None => None,
    }
}

/// Whether `s` is one of the names of the known runtimes.
pub open spec fn is_known_name(s: Seq<char>) -> bool {
    s == "docker"@ || s == "jail"@ || s == "lxc"@ || s == "systemd-nspawn"@
}

/// Whether `s` and `lit` hold the same characters.
fn same_text(s: &str, lit: &str) -> (r: bool)
    ensures
        r == (s@ == lit@),
{
    let a = s.to_owned();
    let b = lit.to_owned();
    a == b
}

impl ContainerRuntime {
    /// The runtime that `s` names; a name that is not known gives `Unknown`
    /// with `s` verbatim, the empty name included.
    pub fn from_name(s: &str) -> (r: ContainerRuntime)
        ensures
            r@ == runtime_named(s@),
    {
        if same_text(s, "docker") {
            ContainerRuntime::Docker
        } else if same_text(s, "jail") {
            ContainerRuntime::Jail
        } else if same_text(s, "lxc") {
            ContainerRuntime::Lxc
        } else if same_text(s, "systemd-nspawn") {
            ContainerRuntime::SystemdNspawn
        } else {
            ContainerRuntime::Unknown(s.to_owned())
        }
    }

    /// The display name of the runtime: `docker`, `jail`, `lxc`,
    /// `systemd-nspawn`, or `unknown(<name>)`.
    pub fn to_name(&self) -> (r: String)
        ensures
            r@ == name_of(self@),
    {
        match self {
            ContainerRuntime::Docker => "docker".to_owned(),
            ContainerRuntime::Jail => "jail".to_owned(),
            ContainerRuntime::Lxc => "lxc".to_owned(),
            ContainerRuntime::SystemdNspawn => "systemd-nspawn".to_owned(),
            ContainerRuntime::Unknown(name) => {
                let mut r = "unknown\u{28}".to_owned();
                r.append(name.as_str());
                r.append("\u{29}");
                r
            },
        }
    }
}

/// Same as `ContainerRuntime::from_name`, whose contract states the result.
impl<'a> From<&'a str> for ContainerRuntime {
    fn from(s: &'a str) -> ContainerRuntime {
        ContainerRuntime::from_name(s)
    }
}

/// The conversion claims no result of its own in contracts: verified callers
/// use `ContainerRuntime::from_name`.
impl<'a> vstd::std_specs::convert::FromSpecImpl<&'a str> for ContainerRuntime {
    open spec fn obeys_from_spec() -> bool {
        false
    }

    open spec fn from_spec(s: &'a str) -> ContainerRuntime {
        ContainerRuntime::Docker
    }
}

/// Parsing never fails: see `ContainerRuntime::from_name`.
impl std::str::FromStr for ContainerRuntime {
    type Err = ();

    fn from_str(s: &str) -> Result<ContainerRuntime, ()> {
        Ok(ContainerRuntime::from_name(s))
    }
}

/// Every known name comes back unchanged from parsing and then formatting.
pub proof fn lemma_known_name_round_trip(s: Seq<char>)
    requires
        is_known_name(s),
    ensures
        name_of(runtime_named(s)) == s,
        !(runtime_named(s) is Unknown),
{
    reveal_strlit("docker");
    reveal_strlit("jail");
    reveal_strlit("lxc");
    reveal_strlit("systemd-nspawn");
}

/// Any other name, the empty one included, parses to `Unknown` carrying that
/// exact name, which formats back as `unknown(<name>)`.
pub proof fn lemma_other_name_is_unknown(s: Seq<char>)
    requires
        !is_known_name(s),
    ensures
        runtime_named(s) == RuntimeModel::Unknown(s),
        name_of(runtime_named(s)) == "unknown\u{28}"@ + s + "\u{29}"@,
{
}

} // verus!
