use dziennik::config::{port, DEFAULT_PORT, PREFLIGHT_MAX_AGE, WORKERS};

#[test]
fn the_pool_has_twelve_workers() {
    assert_eq!(WORKERS, 12);
}

#[test]
fn preflight_answers_are_kept_for_an_hour() {
    assert_eq!(PREFLIGHT_MAX_AGE, 3600);
}

#[test]
fn port_defaults_to_3000_when_unset() {
    assert_eq!(DEFAULT_PORT, 3000);
    assert_eq!(port(None), Some(3000));
}

#[test]
fn port_is_read_from_the_setting() {
    assert_eq!(port(Some("8080")), Some(8080));
    assert_eq!(port(Some("+443")), Some(443));
    assert_eq!(port(Some("0")), Some(0));
    assert_eq!(port(Some("65535")), Some(65535));
}

#[test]
fn a_setting_that_is_no_port_is_refused() {
    assert_eq!(port(Some("")), None);
    assert_eq!(port(Some("http")), None);
    assert_eq!(port(Some("65536")), None);
    assert_eq!(port(Some("-3000")), None);
    assert_eq!(port(Some("3000 ")), None);
}
