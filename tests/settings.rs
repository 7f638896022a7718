use resymo_agent::http::{Access, Error, Listener, Options, DEFAULT_BIND_PORT};
use resymo_agent::logging::log_filters;

#[test]
fn listens_on_loopback_by_default() {
    let o = Options::default();
    assert_eq!(o.bind_host(), "::1");
    assert_eq!(o.bind_port(), 4242);
    assert_eq!(DEFAULT_BIND_PORT, 4242);
    let o = Options { bind_host: Some("0.0.0.0".into()), bind_port: Some(80), ..Default::default() };
    assert_eq!(o.bind_host(), "0.0.0.0");
    assert_eq!(o.bind_port(), 80);
}

#[test]
fn access_needs_a_token_or_consent() {
    assert_eq!(Options::default().access(), Err(Error::NoToken));
    let open = Options { disable_authentication: true, ..Default::default() };
    assert_eq!(open.access(), Ok(Access::Open));
    let guarded = Options { token: Some("letmein".into()), disable_authentication: true, ..Default::default() };
    let access = guarded.access().unwrap();
    assert!(access.permits("letmein"));
    assert!(!access.permits("other"));
    assert!(!access.permits(""));
    assert!(Access::Open.permits("anything"));
    assert!(Error::NoToken.message().contains("--disable-authentication"));
}

#[test]
fn tls_needs_key_and_certificate() {
    assert_eq!(Options::default().listener(), Ok(Listener::Plain));
    let both = Options { tls_key: Some("k.pem".into()), tls_certificate: Some("c.pem".into()), ..Default::default() };
    assert_eq!(both.listener(), Ok(Listener::Tls { key: "k.pem".into(), certificate: "c.pem".into() }));
    let half = Options { tls_key: Some("k.pem".into()), ..Default::default() };
    assert_eq!(half.listener(), Err(Error::IncompleteTls));
    assert_eq!(Error::IncompleteTls.message(), "Enabling TLS requires both --tls-key and --tls-certificate");
}

#[test]
fn log_filters_by_flags() {
    assert_eq!(log_filters(0, false), "warn,resymo_agent=info");
    assert_eq!(log_filters(1, false), "info,resymo_agent=debug");
    assert_eq!(log_filters(2, false), "debug,resymo_agent=trace");
    assert_eq!(log_filters(7, false), "trace");
    assert_eq!(log_filters(3, true), "error,resymo_agent=warn");
}
