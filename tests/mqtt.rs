use resymo_agent::mqtt::{default_keep_alive, resolve, Error, Options};

fn options() -> Options {
    Options {
        client_id: None,
        device: None,
        host: "broker".into(),
        port: None,
        disable_tls: false,
        keep_alive: default_keep_alive(),
        username: None,
        password: None,
    }
}

#[test]
fn defaults() {
    let r = resolve(&options(), Some("host1".into())).unwrap();
    assert_eq!(r.client_id, "resymo");
    assert_eq!(r.port, 8883);
    assert!(r.tls);
    assert_eq!(r.device, "host1");
    assert_eq!(r.state_topic("memory"), "host1/state/memory");
    assert_eq!(r.error_topic(), "host1/log/error");
    let mut o = options();
    o.disable_tls = true;
    assert_eq!(resolve(&o, Some("h".into())).unwrap().port, 1883);
    o.port = Some(1234);
    o.client_id = Some("me".into());
    let r = resolve(&o, Some("h".into())).unwrap();
    assert_eq!(r.port, 1234);
    assert_eq!(r.client_id, "me");
    assert_eq!(default_keep_alive(), 5_000_000_000);
}

#[test]
fn device_name_is_encoded() {
    let mut o = options();
    o.device = Some("my device/1".into());
    let r = resolve(&o, Some("ignored".into())).unwrap();
    assert_eq!(r.device, "my%20device%2F1");
}

#[test]
fn no_device_name() {
    assert_eq!(resolve(&options(), None), Err(Error::NoDeviceName));
    assert_eq!(Error::NoDeviceName.message(), "No device name provided, and failed to detect one");
}
