use xshuttle::Host;

#[test]
fn test_host_command() {
    let host = Host {
        hostname: "prod-server".into(),
    };
    assert_eq!(host.command(), "ssh prod-server");
}

#[test]
fn test_host_clone() {
    let host = Host {
        hostname: "staging".into(),
    };
    let cloned = host.clone();
    assert_eq!(host.hostname, cloned.hostname);
}
