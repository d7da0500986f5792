use shorturl::endpoint::{expand_endpoint, short_endpoint};

#[test]
fn short_endpoint_over_plain_transport() {
    let url = short_endpoint("localhost", "8080", false);
    assert_eq!(url.as_str(), "http://localhost:8080/short");
}

#[test]
fn short_endpoint_over_secure_transport() {
    let url = short_endpoint("example.org", "443", true);
    assert_eq!(url.as_str(), "https://example.org:443/short");
}

#[test]
fn expand_endpoint_over_plain_transport() {
    let url = expand_endpoint("127.0.0.1", "3000", false);
    assert_eq!(url.as_str(), "http://127.0.0.1:3000/expand");
}

#[test]
fn expand_endpoint_over_secure_transport() {
    let url = expand_endpoint("shortener.test", "8443", true);
    assert_eq!(url.as_str(), "https://shortener.test:8443/expand");
}
