use bran::config::parse_config;
use bran::host::Host;

fn check_fail(contents: &str, msg: &str) {
    let config = parse_config(contents);
    assert!(config.is_err(), "parse_config should have failed");
    assert_eq!(config.unwrap_err().message().as_str(), msg);
}

#[test]
fn fails_when_empty() {
    check_fail("", "no configuration found");
}

#[test]
fn fails_when_hosts_missing() {
    let yaml = "hodor: 1";
    check_fail(yaml, "missing \"hosts\" configuration");
}

#[test]
fn fails_when_hosts_invalid() {
    let yaml = "hosts: 1";
    check_fail(yaml, "invalid \"hosts\" configuration");
}

#[test]
fn fails_when_host_name_is_not_string() {
    let yaml = "hosts: {[1, 2]: 3}";
    check_fail(yaml, "\"hosts\" keys must be strings");
}

#[test]
fn fails_when_host_invalid() {
    let yaml = "hosts: {foo: 1}";
    check_fail(yaml, "invalid configuration for host \"foo\"");
}

#[test]
fn fails_when_host_missing_build_dir() {
    let yaml = "hosts: {foo: {user: hodor}}";
    check_fail(yaml, "missing value for \"build_dir\" in host \"foo\"");
}

#[test]
fn fails_when_host_invalid_build_dir() {
    let yaml = "hosts: {foo: {build_dir: 1, user: hodor}}";
    check_fail(yaml, "invalid value for \"build_dir\" in host \"foo\"");
}

#[test]
fn fails_when_build_missing() {
    let yaml = "hosts: {}";
    check_fail(yaml, "missing \"build\" configuration");
}

#[test]
fn fails_when_build_invalid() {
    let yaml = "{hosts: {}, build: {}}";
    check_fail(
        yaml,
        "\"build\" configuration must be a string or an array of strings",
    );
}

#[test]
fn fails_when_build_not_string() {
    let yaml = "{hosts: {}, build: [1, 2, 3]}";
    check_fail(
        yaml,
        "\"build\" configuration must be a string or an array of strings",
    );
}

#[test]
fn parses_build_string() {
    let yaml = "{hosts: {}, build: abc}";
    let config = parse_config(yaml).expect("should parse successfully");
    assert_eq!(config.build, ["abc"]);
}

#[test]
fn parses_successfully() {
    let yaml = "
            hosts:
                win:
                    host: a
                    user: b
                    identity_file: c
                    build_dir: d
            build:
                - x
                - y
                - z";

    let config = parse_config(yaml).expect("should parse successfully");

    assert_eq!(config.hosts.len(), 1);
    let win = &config.hosts[0];
    assert_eq!(win.name, "win");
    assert_eq!(win.host, Some("a".into()));
    assert_eq!(win.user, "b");
    assert_eq!(win.identity_file, Some("c".into()));
    assert_eq!(win.build_dir, "d");

    assert_eq!(config.build, ["x", "y", "z"]);
}

#[test]
fn fails_on_malformed_yaml() {
    let result = parse_config("a: [1");
    assert!(result.is_err(), "a scan error must surface as a configuration error");
    assert!(!result.unwrap_err().message().is_empty());
}

#[test]
fn read_wraps_parse_errors() {
    let result = bran::config::read("hodor: 1");
    assert_eq!(
        result.unwrap_err().message().as_str(),
        "Failed to read bran.yml: missing \"hosts\" configuration"
    );
}

#[test]
fn read_passes_valid_config_through() {
    let config = bran::config::read("{hosts: {}, build: make}").expect("should parse");
    assert_eq!(config.hosts.len(), 0);
    assert_eq!(config.build, ["make"]);
}

#[test]
fn duplicate_host_entries_replace_earlier_ones() {
    let yaml = "
            hosts:
                a: {user: u1, build_dir: d1}
                b: {user: u2, build_dir: d2}
            build: make";
    let config = parse_config(yaml).expect("should parse successfully");
    assert_eq!(config.hosts.len(), 2);
    assert_eq!(config.hosts[0].name, "a");
    assert_eq!(config.hosts[1].name, "b");
}

#[test]
fn git_ssh_command_with_identity_file() {
    let host = Host {
        name: "hodor".into(),
        user: "user".into(),
        build_dir: "build_dir".into(),
        host: None,
        identity_file: Some("id_rsa".into()),
    };

    assert_eq!(host.git_ssh_command(), Some("ssh -i \"id_rsa\"".into()));
}

#[test]
fn git_ssh_command_without_identity_file() {
    let host = Host {
        name: "hodor".into(),
        user: "user".into(),
        build_dir: "build_dir".into(),
        host: None,
        identity_file: None,
    };

    assert_eq!(host.git_ssh_command(), None);
}

#[test]
fn git_ssh_url() {
    let host = Host {
        name: "westeros".into(),
        user: "hodor".into(),
        build_dir: "winterfell".into(),
        host: None,
        identity_file: None,
    };

    assert_eq!(host.git_ssh_url(), "hodor@westeros:winterfell");
}

#[test]
fn ssh_command() {
    let host = Host {
        name: "westeros".into(),
        user: "hodor".into(),
        build_dir: "winterfell".into(),
        host: Some("the-wall".into()),
        identity_file: Some("id_rsa".into()),
    };

    assert_eq!(
        host.ssh_command("echo hello"),
        [
            "-o",
            "PreferredAuthentications=publickey",
            "-i",
            "id_rsa",
            "hodor@the-wall",
            "-C",
            "echo hello"
        ]
    );
}
