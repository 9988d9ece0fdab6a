use in_container::{
    cgroup, chain_of, contains_text, dockerenv_exists, get_container_runtime, in_container,
    next_probe, pid_1_environ, service_cexecsvc, sysctl_securityjailjailed, winreg_containertype,
    ContainerRuntime, Platform, Probe,
};

fn run_chain(
    platform: Platform,
    mut probe: impl FnMut(Probe) -> Option<ContainerRuntime>,
) -> (Vec<Option<ContainerRuntime>>, Vec<Probe>) {
    let mut verdicts = Vec::new();
    let mut ran = Vec::new();
    while let Some(p) = next_probe(platform, &verdicts) {
        ran.push(p);
        verdicts.push(probe(p));
    }
    (verdicts, ran)
}

struct LinuxSystem {
    marker: bool,
    cgroup: Option<&'static str>,
    environ: Option<&'static str>,
}

fn linux_verdict(sys: &LinuxSystem, p: Probe) -> Option<ContainerRuntime> {
    match p {
        Probe::DockerenvMarker => dockerenv_exists(sys.marker),
        Probe::Cgroup => cgroup(sys.cgroup),
        Probe::InitEnviron => pid_1_environ(sys.environ),
        _ => panic!("not a Linux probe"),
    }
}

fn detect_linux(sys: &LinuxSystem) -> (Option<ContainerRuntime>, bool, Vec<Probe>) {
    let (verdicts, ran) = run_chain(Platform::Linux, |p| linux_verdict(sys, p));
    let outcome = get_container_runtime(verdicts.clone());
    let contained = in_container(verdicts);
    (outcome, contained, ran)
}

#[test]
fn chains_in_order() {
    assert_eq!(
        chain_of(Platform::Linux),
        vec![Probe::DockerenvMarker, Probe::Cgroup, Probe::InitEnviron]
    );
    assert_eq!(chain_of(Platform::FreeBsd), vec![Probe::JailSysctl]);
    assert_eq!(
        chain_of(Platform::Windows),
        vec![Probe::ContainerTypeKey, Probe::ContainerService]
    );
}

#[test]
fn in_container_matches_outcome() {
    let cases: Vec<Vec<Option<ContainerRuntime>>> = vec![
        vec![],
        vec![None],
        vec![None, None, None],
        vec![Some(ContainerRuntime::Lxc)],
        vec![None, Some(ContainerRuntime::Unknown("x".to_owned()))],
    ];
    for verdicts in cases {
        let outcome = get_container_runtime(verdicts.clone());
        assert_eq!(in_container(verdicts), outcome.is_some());
    }
}

#[test]
fn all_abstaining_gives_no_evidence() {
    for platform in [Platform::Linux, Platform::FreeBsd, Platform::Windows] {
        let (verdicts, ran) = run_chain(platform, |_| None);
        assert_eq!(ran, chain_of(platform));
        assert_eq!(get_container_runtime(verdicts.clone()), None);
        assert!(!in_container(verdicts));
    }
}

#[test]
fn first_positive_probe_short_circuits() {
    for platform in [Platform::Linux, Platform::FreeBsd, Platform::Windows] {
        let mut calls = 0;
        let (verdicts, ran) = run_chain(platform, |_| {
            calls += 1;
            Some(ContainerRuntime::SystemdNspawn)
        });
        assert_eq!(calls, 1);
        assert_eq!(ran, vec![chain_of(platform)[0]]);
        assert_eq!(
            get_container_runtime(verdicts),
            Some(ContainerRuntime::SystemdNspawn)
        );
    }
}

#[test]
fn first_positive_verdict_wins() {
    let verdicts = vec![
        None,
        Some(ContainerRuntime::Docker),
        Some(ContainerRuntime::Lxc),
    ];
    assert_eq!(get_container_runtime(verdicts), Some(ContainerRuntime::Docker));
    let verdicts = vec![None, Some(ContainerRuntime::Lxc)];
    assert_eq!(next_probe(Platform::Linux, &verdicts), None);
    assert_eq!(next_probe(Platform::Linux, &vec![None]), Some(Probe::Cgroup));
    assert_eq!(next_probe(Platform::Linux, &vec![None, None, None]), None);
}

#[test]
fn marker_file_decides_regardless_of_rest() {
    let sys = LinuxSystem {
        marker: true,
        cgroup: Some("12:cpu:/\n"),
        environ: Some("container=lxc"),
    };
    let (outcome, contained, ran) = detect_linux(&sys);
    assert_eq!(outcome, Some(ContainerRuntime::Docker));
    assert!(contained);
    assert_eq!(ran, vec![Probe::DockerenvMarker]);
}

#[test]
fn docker_cgroup_without_marker() {
    let sys = LinuxSystem {
        marker: false,
        cgroup: Some("...,/docker/abcdef,..."),
        environ: Some("container=lxc"),
    };
    let (outcome, contained, ran) = detect_linux(&sys);
    assert_eq!(outcome, Some(ContainerRuntime::Docker));
    assert!(contained);
    assert_eq!(ran, vec![Probe::DockerenvMarker, Probe::Cgroup]);
}

#[test]
fn init_environ_without_marker_or_cgroup() {
    let sys = LinuxSystem {
        marker: false,
        cgroup: None,
        environ: Some("container=docker\0PATH=/bin"),
    };
    let (outcome, contained, ran) = detect_linux(&sys);
    assert_eq!(outcome, Some(ContainerRuntime::Docker));
    assert!(contained);
    assert_eq!(ran, chain_of(Platform::Linux));
}

#[test]
fn no_signal_gives_no_evidence() {
    let sys = LinuxSystem {
        marker: false,
        cgroup: None,
        environ: None,
    };
    let (outcome, contained, _) = detect_linux(&sys);
    assert_eq!(outcome, None);
    assert!(!contained);
    let sys = LinuxSystem {
        marker: false,
        cgroup: Some("0::/init.scope\n"),
        environ: Some("PATH=/bin\0HOME=/"),
    };
    let (outcome, contained, _) = detect_linux(&sys);
    assert_eq!(outcome, None);
    assert!(!contained);
}

#[test]
fn cgroup_probe() {
    assert_eq!(cgroup(Some("1:name=systemd:/docker/0123")), Some(ContainerRuntime::Docker));
    assert_eq!(cgroup(Some("1:name=systemd:/dockerd/0123")), None);
    assert_eq!(cgroup(Some("/docker/")), Some(ContainerRuntime::Docker));
    assert_eq!(cgroup(Some("/docker")), None);
    assert_eq!(cgroup(Some("")), None);
    assert_eq!(cgroup(None), None);
}

#[test]
fn text_containment() {
    assert!(contains_text("abc", ""));
    assert!(contains_text("", ""));
    assert!(contains_text("xx/docker/yy", "/docker/"));
    assert!(!contains_text("xx/dock/er/yy", "/docker/"));
    assert!(!contains_text("ab", "abc"));
    assert!(contains_text("\u{e9}/docker/", "/docker/"));
}

#[test]
fn jail_probe() {
    assert_eq!(sysctl_securityjailjailed(Some(1)), Some(ContainerRuntime::Jail));
    assert_eq!(sysctl_securityjailjailed(Some(0)), None);
    assert_eq!(sysctl_securityjailjailed(Some(2)), None);
    assert_eq!(sysctl_securityjailjailed(None), None);
}

#[test]
fn windows_probes() {
    assert_eq!(winreg_containertype(true), Some(ContainerRuntime::Docker));
    assert_eq!(winreg_containertype(false), None);
    assert_eq!(service_cexecsvc(true), Some(ContainerRuntime::Docker));
    assert_eq!(service_cexecsvc(false), None);
    assert_eq!(dockerenv_exists(true), Some(ContainerRuntime::Docker));
    assert_eq!(dockerenv_exists(false), None);
}

#[test]
fn windows_chain_falls_through_to_service() {
    let (verdicts, ran) = run_chain(Platform::Windows, |p| match p {
        Probe::ContainerTypeKey => winreg_containertype(false),
        Probe::ContainerService => service_cexecsvc(true),
        _ => panic!("not a Windows probe"),
    });
    assert_eq!(ran, chain_of(Platform::Windows));
    assert_eq!(get_container_runtime(verdicts), Some(ContainerRuntime::Docker));
}

#[test]
fn freebsd_chain_jailed() {
    let (verdicts, _) = run_chain(Platform::FreeBsd, |_| sysctl_securityjailjailed(Some(1)));
    assert_eq!(get_container_runtime(verdicts), Some(ContainerRuntime::Jail));
}
