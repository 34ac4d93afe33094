use pkarr_resolver::dispatch::{begin, route, Action, EndpointResolutionError, ResolveError, Resolution};
use pkarr_resolver::key::{host_of, is_public_key_name};
use pkarr_resolver::{Endpoint, IpAddress, PublicKey, SocketAddress};

const KEY: &str = "o4dksfbqk85ogzdb5osziw6befigbuxmuxkuxq8434q89uj56uyy";
const KEY_BYTES: [u8; 32] = [
    134, 134, 171, 20, 46, 81, 247, 3, 92, 97, 220, 45, 122, 211, 193, 65, 106, 96, 205, 235, 155,
    213, 55, 184, 250, 206, 156, 127, 205, 59, 244, 192,
];
// z-base-32 text of 32 bytes that do not decompress to a curve point.
const NOT_A_POINT: &str = "yeyyyyyyyyyyyyyyyyyyyyyyyyyyyyyyyyyyyyyyyyyyyyyyyyyy";

fn v4(a: u8, b: u8, c: u8, d: u8) -> IpAddress {
    IpAddress::V4([a, b, c, d])
}

fn start_identifier() -> Resolution {
    let (state, action) = begin(KEY, 443);
    assert!(matches!(action, Action::ResolveEndpoint { .. }));
    state
}

fn finished(action: Action) -> Result<Vec<SocketAddress>, ResolveError> {
    match action {
        Action::Finish { result } => result,
        other => panic!("expected the end of the resolution, got {:?}", other),
    }
}

#[test]
fn identifier_goes_to_endpoint_service() {
    let (state, action) = begin(KEY, 443);
    assert!(matches!(state, Resolution::AwaitingEndpoints));
    match action {
        Action::ResolveEndpoint { identifier } => assert_eq!(identifier, KEY),
        other => panic!("unexpected action {:?}", other),
    }
}

#[test]
fn identifier_with_port_is_classified_on_its_host() {
    let name = format!("{}:8080", KEY);
    let (state, action) = begin(&name, 443);
    assert!(matches!(state, Resolution::AwaitingEndpoints));
    match action {
        Action::ResolveEndpoint { identifier } => assert_eq!(identifier, KEY),
        other => panic!("unexpected action {:?}", other),
    }
}

#[test]
fn hostname_goes_to_system_resolver_unchanged() {
    let (state, action) = begin("example.com", 443);
    assert!(matches!(state, Resolution::AwaitingSystem));
    match action {
        Action::LookupHost { host, port } => {
            assert_eq!(host, "example.com");
            assert_eq!(port, 443);
        }
        other => panic!("unexpected action {:?}", other),
    }
    let addrs = vec![SocketAddress::new(v4(93, 184, 216, 34), 443)];
    let (state, action) = state.on_host(Ok(addrs.clone()));
    assert!(matches!(state, Resolution::Done));
    assert_eq!(finished(action), Ok(addrs));
}

#[test]
fn text_that_is_not_a_curve_point_is_a_hostname() {
    let (state, action) = begin(NOT_A_POINT, 80);
    assert!(matches!(state, Resolution::AwaitingSystem));
    match action {
        Action::LookupHost { host, port } => {
            assert_eq!(host, NOT_A_POINT);
            assert_eq!(port, 80);
        }
        other => panic!("unexpected action {:?}", other),
    }
}

#[test]
fn short_key_text_is_a_hostname() {
    let short = &KEY[..51];
    assert!(!is_public_key_name(short));
    let (_, action) = begin(short, 443);
    assert!(matches!(action, Action::LookupHost { .. }));
}

#[test]
fn text_outside_the_alphabet_is_a_hostname() {
    // 'l' and 'v' are not z-base-32 digits.
    let bad = KEY.replacen('o', "l", 1);
    assert!(!is_public_key_name(&bad));
    assert!(!is_public_key_name("example.com"));
    assert!(!is_public_key_name(""));
}

#[test]
fn ip_endpoint_resolves_to_its_socket_address() {
    let state = start_identifier();
    let endpoints = vec![Endpoint::at_ip(v4(203, 0, 113, 5), 4433)];
    let (state, action) = state.on_endpoints(Ok(endpoints));
    assert!(matches!(state, Resolution::Done));
    assert_eq!(
        finished(action),
        Ok(vec![SocketAddress::new(v4(203, 0, 113, 5), 4433)])
    );
}

#[test]
fn domain_endpoint_is_looked_up_at_its_own_port() {
    let state = start_identifier();
    let endpoints = vec![Endpoint::at_domain("relay.example.org", 8443)];
    let (state, action) = state.on_endpoints(Ok(endpoints));
    match action {
        Action::LookupHost { host, port } => {
            assert_eq!(host, "relay.example.org");
            assert_eq!(port, 8443);
        }
        other => panic!("unexpected action {:?}", other),
    }
    let found = vec![SocketAddress::new(v4(198, 51, 100, 7), 8443)];
    let (state, action) = state.on_host(Ok(found.clone()));
    assert!(matches!(state, Resolution::Done));
    assert_eq!(finished(action), Ok(found));
}

#[test]
fn endpoint_order_is_kept() {
    let state = start_identifier();
    let v6 = IpAddress::V6([0x2001, 0xdb8, 0, 0, 0, 0, 0, 1]);
    let endpoints = vec![
        Endpoint::at_ip(v4(10, 0, 0, 1), 1000),
        Endpoint::at_domain("a.example", 2000),
        Endpoint::at_ip(v6, 3000),
        Endpoint::at_domain("b.example", 4000),
    ];
    let (state, action) = state.on_endpoints(Ok(endpoints));
    assert!(matches!(action, Action::LookupHost { ref host, port: 2000 } if host == "a.example"));
    let a1 = SocketAddress::new(v4(192, 0, 2, 1), 2000);
    let a2 = SocketAddress::new(v4(192, 0, 2, 2), 2000);
    let (state, action) = state.on_host(Ok(vec![a1, a2]));
    assert!(matches!(action, Action::LookupHost { ref host, port: 4000 } if host == "b.example"));
    let (state, action) = state.on_host(Ok(vec![]));
    assert!(matches!(state, Resolution::Done));
    assert_eq!(
        finished(action),
        Ok(vec![
            SocketAddress::new(v4(10, 0, 0, 1), 1000),
            a1,
            a2,
            SocketAddress::new(v6, 3000),
        ])
    );
}

#[test]
fn no_endpoints_is_an_endpoint_resolution_error() {
    let state = start_identifier();
    let (state, action) = state.on_endpoints(Ok(vec![]));
    assert!(matches!(state, Resolution::Done));
    assert_eq!(
        finished(action),
        Err(ResolveError::EndpointResolution(EndpointResolutionError::NotFound))
    );
}

#[test]
fn endpoint_service_failure_is_surfaced() {
    let state = start_identifier();
    let failure = EndpointResolutionError::Lookup("timed out".to_string());
    let (_, action) = state.on_endpoints(Err(failure.clone()));
    assert_eq!(finished(action), Err(ResolveError::EndpointResolution(failure)));
}

#[test]
fn system_resolver_failure_is_surfaced() {
    let (state, _) = begin("example.com", 443);
    let (_, action) = state.on_host(Err("no such host".to_string()));
    assert_eq!(
        finished(action),
        Err(ResolveError::HostResolution("no such host".to_string()))
    );
}

#[test]
fn endpoint_domain_failure_is_surfaced() {
    let state = start_identifier();
    let endpoints = vec![
        Endpoint::at_domain("gone.example", 443),
        Endpoint::at_ip(v4(10, 0, 0, 2), 443),
    ];
    let (state, _) = state.on_endpoints(Ok(endpoints));
    let (state, action) = state.on_host(Err("no such host".to_string()));
    assert!(matches!(state, Resolution::Done));
    assert_eq!(
        finished(action),
        Err(ResolveError::HostResolution("no such host".to_string()))
    );
}

#[test]
fn resolving_twice_gives_the_same_addresses() {
    let endpoints = vec![
        Endpoint::at_ip(v4(203, 0, 113, 5), 4433),
        Endpoint::at_ip(v4(203, 0, 113, 6), 4434),
    ];
    let (_, first) = start_identifier().on_endpoints(Ok(endpoints.clone()));
    let (_, second) = start_identifier().on_endpoints(Ok(endpoints));
    assert_eq!(finished(first), finished(second));
}

#[test]
fn route_follows_the_classification_it_is_given() {
    let (state, action) = route("example.com:80", 443, true);
    assert!(matches!(state, Resolution::AwaitingEndpoints));
    assert!(matches!(action, Action::ResolveEndpoint { ref identifier } if identifier == "example.com"));
    let (state, action) = route("example.com:80", 443, false);
    assert!(matches!(state, Resolution::AwaitingSystem));
    assert!(matches!(action, Action::LookupHost { ref host, port: 443 } if host == "example.com:80"));
}

#[test]
fn host_of_strips_a_trailing_port() {
    assert_eq!(host_of("example.com:443"), "example.com");
    assert_eq!(host_of("example.com"), "example.com");
    assert_eq!(host_of("example.com:"), "example.com:");
    assert_eq!(host_of("example.com:4a3"), "example.com:4a3");
    assert_eq!(host_of(":443"), "");
    assert_eq!(host_of(""), "");
}

#[test]
fn public_key_parses_to_its_bytes() {
    let key = PublicKey::try_parse(KEY).expect("a valid identifier");
    assert_eq!(key.as_str(), KEY);
    assert_eq!(key.to_bytes(), KEY_BYTES.to_vec());
    assert!(is_public_key_name(KEY));
}

#[test]
fn invalid_public_keys_do_not_parse() {
    assert!(PublicKey::try_parse(NOT_A_POINT).is_none());
    assert!(PublicKey::try_parse(&KEY[..51]).is_none());
    assert!(PublicKey::try_parse("example.com").is_none());
    assert!(PublicKey::try_parse("").is_none());
}
