use session_based_authentication::startup::{listen_address, ApplicationBaseUrl};

#[test]
fn the_listen_address_joins_host_and_port() {
    assert_eq!(listen_address("127.0.0.1", 8000), "127.0.0.1:8000");
    assert_eq!(listen_address("localhost", 0), "localhost:0");
    assert_eq!(listen_address("0.0.0.0", 65535), "0.0.0.0:65535");
    assert_eq!(listen_address("h", 9), "h:9");
    assert_eq!(listen_address("h", 10), "h:10");
}

#[test]
fn the_base_url_is_kept() {
    let url = ApplicationBaseUrl("http://localhost".to_string());
    assert_eq!(url.0, "http://localhost");
}
