use vstd::prelude::*;

use crate::runtime::ContainerRuntime;

verus! {

/// The operating systems that have a detection chain.
#[derive(Debug, Clone, Copy, PartialEq, Eq)]
pub enum Platform {
    Linux,
    FreeBsd,
    Windows,
}

/// One self-contained check for a container signal.
#[derive(Debug, Clone, Copy, PartialEq, Eq)]
pub enum Probe {
    /// Linux: the Docker marker file exists.
    DockerenvMarker,
    /// Linux: the init process's cgroup descriptor names a Docker cgroup.
    Cgroup,
    /// Linux: the init process's environment names a runtime.
    InitEnviron,
    /// FreeBSD: the jail control variable is set.
    JailSysctl,
    /// Windows: the container-type registry value exists.
    ContainerTypeKey,
    /// Windows: the container execution service is registered.
    ContainerService,
}

/// The probes of a platform's chain, in the order in which they run.
pub open spec fn chain_spec(p: Platform) -> Seq<Probe> {
    match p {
        Platform::Linux => seq![Probe::DockerenvMarker, Probe::Cgroup, Probe::InitEnviron],
        Platform::FreeBsd => seq![Probe::JailSysctl],
        Platform::Windows => seq![Probe::ContainerTypeKey, Probe::ContainerService],
    }
}

/// The first positive verdict, if any.
pub open spec fn first_found(verdicts: Seq<Option<ContainerRuntime>>) -> Option<ContainerRuntime>
    decreases verdicts.len(),
{
    if verdicts.len() == 0 {
        None
    } else {
        match verdicts[0] {
            Some(r) => Some(r),
            None => first_found(verdicts.drop_first()),
        }
    }
}

/// Whether a chain whose probes gave `verdicts` detected a container.
pub open spec fn detects_container(verdicts: Seq<Option<ContainerRuntime>>) -> bool {
    !(first_found(verdicts) is None)
}

/// Whether every verdict abstains.
pub open spec fn all_abstain(verdicts: Seq<Option<ContainerRuntime>>) -> bool {
    forall|i: int| 0 <= i < verdicts.len() ==> verdicts[i] is None
}

/// The probe that runs next, once the probes before it have given
/// `verdicts`: none once one of them found a runtime or the chain is done.
pub open spec fn next_probe_spec(p: Platform, verdicts: Seq<Option<ContainerRuntime>>) -> Option<
    Probe,
> {
    if all_abstain(verdicts) && verdicts.len() < chain_spec(p).len() {
        Some(chain_spec(p)[verdicts.len() as int])
    } else {
        None
    }
}

proof fn lemma_first_found_none(verdicts: Seq<Option<ContainerRuntime>>)
    requires
        all_abstain(verdicts),
    ensures
        first_found(verdicts) is None,
    decreases verdicts.len(),
{
    if verdicts.len() > 0 {
        let rest = verdicts.drop_first();
        assert forall|i: int| 0 <= i < rest.len() implies rest[i] is None by {
            assert(verdicts[i + 1] is None);
        }
        lemma_first_found_none(rest);
    }
}

proof fn lemma_first_found_at(verdicts: Seq<Option<ContainerRuntime>>, k: int)
    requires
        0 <= k < verdicts.len(),
        verdicts[k] is Some,
        all_abstain(verdicts.take(k)),
    ensures
        first_found(verdicts) == verdicts[k],
    decreases k,
{
    if k > 0 {
        let rest = verdicts.drop_first();
        assert(verdicts.take(k)[0] is None);
        let rk = rest.take(k - 1);
        assert forall|i: int| 0 <= i < rk.len() implies rk[i] is None by {
            assert(verdicts.take(k)[i + 1] is None);
        }
        lemma_first_found_at(rest, k - 1);
    }
}

/// The probes of the chain of `p`, in the order in which they run.
pub fn chain_of(p: Platform) -> (r: Vec<Probe>)
    ensures
        r@ == chain_spec(p),
{
    let r = match p {
        Platform::Linux => vec![Probe::DockerenvMarker, Probe::Cgroup, Probe::InitEnviron],
        Platform::FreeBsd => vec![Probe::JailSysctl],
        Platform::Windows => vec![Probe::ContainerTypeKey, Probe::ContainerService],
    };
    proof {
        assert(r@ =~= chain_spec(p));
    }
    r
}

/// The probe of the chain of `p` that runs next, once the probes before it
/// have given `verdicts`; `None` once a runtime was found or every probe
/// has abstained, so that no probe runs after a positive verdict.
pub fn next_probe(p: Platform, verdicts: &Vec<Option<ContainerRuntime>>) -> (r: Option<Probe>)
    ensures
        r == next_probe_spec(p, verdicts@),
{
    let chain = chain_of(p);
    let mut i: usize = 0;
    while i < verdicts.len()
        invariant
            i <= verdicts@.len(),
            forall|j: int| 0 <= j < i ==> verdicts@[j] is None,
        decreases verdicts@.len() - i,
    {
        if verdicts[i].is_some() {
            return None;
        }
        i = i + 1;
    }
    if verdicts.len() < chain.len() {
        Some(chain[verdicts.len()])
    } else {
        None
    }
}

/// The outcome of a chain whose probes gave `verdicts`, in order: the first
/// positive verdict, or no evidence where every probe abstained.
pub fn get_container_runtime(verdicts: Vec<Option<ContainerRuntime>>) -> (r: Option<
    ContainerRuntime,
>)
    ensures
        r == first_found(verdicts@),
{
    let ghost all = verdicts@;
    let mut pending = verdicts;
    let mut i: usize = 0;
    while i < pending.len()
        invariant
            pending@ == all,
            verdicts@ == all,
            i <= all.len(),
            all_abstain(all.take(i as int)),
        decreases all.len() - i,
    {
        if pending[i].is_some() {
            proof {
                lemma_first_found_at(all, i as int);
            }
            return pending.swap_remove(i);
        }
        proof {
            assert(all_abstain(all.take(i + 1)));
        }
        i = i + 1;
    }
    proof {
        assert(all.take(all.len() as int) =~= all);
        lemma_first_found_none(all);
    }
    None
}

/// Whether a chain whose probes gave `verdicts` detected a container.
pub fn in_container(verdicts: Vec<Option<ContainerRuntime>>) -> (r: bool)
    ensures
        r == detects_container(verdicts@),
{
    get_container_runtime(verdicts).is_some()
}

/// Whether a container was detected is whether the chain's outcome is not
/// no-evidence.
pub proof fn lemma_in_container_iff_found(verdicts: Seq<Option<ContainerRuntime>>)
    ensures
        detects_container(verdicts) <==> first_found(verdicts) is Some,
{
}

/// A chain whose probes all abstain ends with no probe left to run and
/// outcome no-evidence.
pub proof fn lemma_all_abstain_no_evidence(p: Platform, verdicts: Seq<Option<ContainerRuntime>>)
    requires
        verdicts.len() == chain_spec(p).len(),
        all_abstain(verdicts),
    ensures
        next_probe_spec(p, verdicts) is None,
        first_found(verdicts) is None,
{
    lemma_first_found_none(verdicts);
}

/// Once a probe gives a positive verdict after the ones before it abstained,
/// no later probe runs and that verdict is the outcome; in particular a
/// positive first probe decides the chain alone.
pub proof fn lemma_short_circuit(p: Platform, verdicts: Seq<Option<ContainerRuntime>>)
    requires
        verdicts.len() >= 1,
        verdicts.last() is Some,
        all_abstain(verdicts.drop_last()),
    ensures
        next_probe_spec(p, verdicts) is None,
        first_found(verdicts) == verdicts.last(),
{
    assert(verdicts.take(verdicts.len() - 1) =~= verdicts.drop_last());
    lemma_first_found_at(verdicts, verdicts.len() - 1);
}

/// A chain runs its platform's probes in order: while every verdict so far
/// abstains, the next probe is the one after the last that ran.
pub proof fn lemma_runs_in_order(p: Platform, verdicts: Seq<Option<ContainerRuntime>>)
    requires
        all_abstain(verdicts),
        verdicts.len() < chain_spec(p).len(),
    ensures
        next_probe_spec(p, verdicts) == Some(chain_spec(p)[verdicts.len() as int]),
{
}

} // verus!
