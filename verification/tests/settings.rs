use txn_feed::config::{listen_address, playground_banner};

#[test]
fn listen_address_defaults_to_the_local_host() {
    assert_eq!(listen_address(None), "localhost:8000");
}

#[test]
fn listen_address_is_the_configured_one() {
    assert_eq!(listen_address(Some("0.0.0.0:9090".to_string())), "0.0.0.0:9090");
    assert_eq!(listen_address(Some(String::new())), "");
}

#[test]
fn banner_names_the_address() {
    assert_eq!(playground_banner("localhost:8000"), "Playground: http://localhost:8000");
    assert_eq!(playground_banner(""), "Playground: http://");
}
