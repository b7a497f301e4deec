use relay_core::endpoint::{Endpoint, EndpointError};

#[test]
fn relay_address_parses() {
    let endpoint = Endpoint::parse("ws://127.0.0.1:8080/ws").unwrap();
    assert_eq!(endpoint.as_str(), "ws://127.0.0.1:8080/ws");
    assert_eq!(endpoint.normalized(), "ws://127.0.0.1:8080/ws");
}

#[test]
fn endpoint_keeps_the_given_text_beside_the_parsed_one() {
    let endpoint = Endpoint::parse("HTTP://Example.COM:80/a/../b").unwrap();
    assert_eq!(endpoint.as_str(), "HTTP://Example.COM:80/a/../b");
    assert_eq!(endpoint.normalized(), "http://example.com/b");
}

#[test]
fn text_without_a_scheme_is_no_endpoint() {
    assert_eq!(
        Endpoint::parse("127.0.0.1:8080/ws"),
        Err(EndpointError::NotAUrl(url::ParseError::RelativeUrlWithoutBase))
    );
    assert_eq!(
        Endpoint::parse(""),
        Err(EndpointError::NotAUrl(url::ParseError::RelativeUrlWithoutBase))
    );
}

#[test]
fn address_with_a_bad_port_is_no_endpoint() {
    assert_eq!(
        Endpoint::parse("ws://127.0.0.1:99999/ws"),
        Err(EndpointError::NotAUrl(url::ParseError::InvalidPort))
    );
}

#[test]
fn address_without_a_host_is_no_endpoint() {
    assert_eq!(Endpoint::parse("ws://"), Err(EndpointError::NotAUrl(url::ParseError::EmptyHost)));
}

#[test]
fn endpoint_is_built_from_what_the_parser_made() {
    let endpoint = Endpoint::from_parsed("WS://Relay/", Ok(String::from("ws://relay/"))).unwrap();
    assert_eq!(endpoint.as_str(), "WS://Relay/");
    assert_eq!(endpoint.normalized(), "ws://relay/");
    assert_eq!(
        Endpoint::from_parsed("nonsense", Err(url::ParseError::IdnaError)),
        Err(EndpointError::NotAUrl(url::ParseError::IdnaError))
    );
}
