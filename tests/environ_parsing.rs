use in_container::{lookup_entry, parse_environ, pid_1_environ, ContainerRuntime};

fn pairs(v: &[(&str, &str)]) -> Vec<(String, String)> {
    v.iter()
        .map(|(k, val)| (k.to_string(), val.to_string()))
        .collect()
}

#[test]
fn environ_blob_with_lxc() {
    let blob = "container=lxc\0PATH=/bin";
    let entries = parse_environ(blob);
    assert_eq!(entries, pairs(&[("container", "lxc"), ("PATH", "/bin")]));
    assert_eq!(lookup_entry(&entries, "container"), Some("lxc".to_owned()));
    assert_eq!(pid_1_environ(Some(blob)), Some(ContainerRuntime::Lxc));
}

#[test]
fn environ_blob_without_container_key() {
    let blob = "PATH=/bin\0HOME=/root\0";
    assert_eq!(lookup_entry(&parse_environ(blob), "container"), None);
    assert_eq!(pid_1_environ(Some(blob)), None);
}

#[test]
fn environ_blob_with_unrecognised_runtime() {
    assert_eq!(
        pid_1_environ(Some("container=weird")),
        Some(ContainerRuntime::Unknown("weird".to_owned()))
    );
    assert_eq!(
        pid_1_environ(Some("container=")),
        Some(ContainerRuntime::Unknown("".to_owned()))
    );
}

#[test]
fn environ_unreadable_abstains() {
    assert_eq!(pid_1_environ(None), None);
}

#[test]
fn environ_segments_without_separator_are_dropped() {
    let entries = parse_environ("junk\0A=1\0\0B=\0=x\0tail");
    assert_eq!(entries, pairs(&[("A", "1"), ("B", ""), ("", "x")]));
    assert_eq!(parse_environ(""), pairs(&[]));
    assert_eq!(parse_environ("\0\0"), pairs(&[]));
}

#[test]
fn environ_value_keeps_later_separators() {
    let entries = parse_environ("OPTS=a=b=c\0container=systemd-nspawn\0");
    assert_eq!(entries, pairs(&[("OPTS", "a=b=c"), ("container", "systemd-nspawn")]));
    assert_eq!(
        pid_1_environ(Some("OPTS=a=b=c\0container=systemd-nspawn\0")),
        Some(ContainerRuntime::SystemdNspawn)
    );
}

#[test]
fn environ_last_duplicate_wins() {
    let blob = "container=lxc\0X=1\0container=docker";
    assert_eq!(lookup_entry(&parse_environ(blob), "container"), Some("docker".to_owned()));
    assert_eq!(pid_1_environ(Some(blob)), Some(ContainerRuntime::Docker));
}

#[test]
fn environ_non_ascii_values() {
    let blob = "NAME=h\u{e9}llo\0container=j\u{e4}il";
    let entries = parse_environ(blob);
    assert_eq!(entries, pairs(&[("NAME", "h\u{e9}llo"), ("container", "j\u{e4}il")]));
    assert_eq!(
        pid_1_environ(Some(blob)),
        Some(ContainerRuntime::Unknown("j\u{e4}il".to_owned()))
    );
}
