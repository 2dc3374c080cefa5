use lab_inventory::remote::{
    normalize_base_url, validate_tls_pin_value, verify_tls_pin, PeerCertificate,
};
use lab_inventory::errors::FederationDatabaseError;
use lab_inventory::security::{
    after_node_lookup, after_nonce_recorded, after_trust_lookup, begin_inbound, begin_inbound_now,
    replayed_nonce_error, check_inbound_headers, check_inbound_signature, check_remote_node, check_trust, required_header,
    signed_headers, signed_headers_at, verify_signature, FederationSettings,
    OutboundFederationIdentity, RemoteNodeRow, HEADER_NONCE,
};

fn settings() -> FederationSettings {
    FederationSettings {
        enabled: true,
        require_https: true,
        allow_insecure_private_network: false,
        allowed_remote_hosts: vec![],
        request_ttl_seconds: 300,
        public_base_url: "https://lab-a.example".to_string(),
    }
}

fn node(secret: &str) -> RemoteNodeRow {
    RemoteNodeRow {
        remote_node_id: 0x1111_2222_3333_4444_5555_6666_7777_8888,
        base_url: "https://lab-b.example".to_string(),
        shared_secret: secret.to_string(),
        tls_certificate_sha256: None,
        status: "active".to_string(),
        key_version: 3,
    }
}

fn identity() -> OutboundFederationIdentity {
    OutboundFederationIdentity {
        local_node_id: 0x1111_2222_3333_4444_5555_6666_7777_8888,
        local_laboratory_id: 0xaaaa_bbbb_cccc_dddd_eeee_ffff_0000_1111,
        user_id: 0x0123_4567_89ab_cdef_0123_4567_89ab_cdef,
        username: "alice".to_string(),
        user_type: "user".to_string(),
    }
}

fn arrived(headers: Vec<(String, String)>) -> Vec<(String, Option<String>)> {
    headers.into_iter().map(|(k, v)| (k, Some(v))).collect()
}

#[test]
fn signed_request_is_accepted_by_its_receiver() {
    let sender_side = node("s3cret");
    let headers = signed_headers_at(
        "POST",
        "/api/v1/federation/inbound/laboratories/x/borrow-requests",
        b"{}",
        &sender_side,
        &identity(),
        1_700_000_000,
        "nonce-1".to_string(),
    );
    assert_eq!(headers.len(), 9);
    assert_eq!(headers[0].1, "11112222-3333-4444-5555-666677778888");
    assert_eq!(headers[1].1, "3");
    assert_eq!(headers[2].1, "1700000000");
    let claims = check_inbound_headers(&settings(), &arrived(headers), 1_700_000_100).unwrap();
    assert_eq!(claims.remote_node_id, identity().local_node_id);
    assert_eq!(claims.remote_username, "alice");
    let receiver_side = check_remote_node(&claims, Some(node("s3cret"))).unwrap();
    assert!(check_inbound_signature(
        &receiver_side,
        &claims,
        "POST",
        "/api/v1/federation/inbound/laboratories/x/borrow-requests",
        b"{}",
    )
    .is_ok());
}

#[test]
fn tampered_request_fails_its_signature() {
    let headers = signed_headers_at("GET", "/a", b"", &node("s3cret"), &identity(), 100, "n".to_string());
    let claims = check_inbound_headers(&settings(), &arrived(headers), 100).unwrap();
    let err = check_inbound_signature(&node("s3cret"), &claims, "GET", "/b", b"").unwrap_err();
    assert_eq!(err.status_code(), 401);
    assert_eq!(err.message(), "Federation signature mismatch");
    let err = check_inbound_signature(&node("other"), &claims, "GET", "/a", b"").unwrap_err();
    assert_eq!(err.message(), "Federation signature mismatch");
}

#[test]
fn fresh_signed_headers_carry_a_nonce() {
    let headers = signed_headers("GET", "/a", b"", &node("s"), &identity()).unwrap();
    assert_eq!(headers[3].0, HEADER_NONCE);
    assert_eq!(headers[3].1.len(), 32);
}

#[test]
fn inbound_headers_are_checked_in_order() {
    let disabled = FederationSettings { enabled: false, ..settings() };
    let err = check_inbound_headers(&disabled, &vec![], 0).unwrap_err();
    assert_eq!((err.status_code(), err.message().as_str()), (403, "Federation is disabled"));
    let err = check_inbound_headers(&settings(), &vec![], 0).unwrap_err();
    assert_eq!(
        (err.status_code(), err.message().as_str()),
        (401, "Missing federation header: x-federation-node-id")
    );
    let mut headers = arrived(signed_headers_at("GET", "/a", b"", &node("s"), &identity(), 100, "n".to_string()));
    headers[1].1 = Some("three".to_string());
    let err = check_inbound_headers(&settings(), &headers, 100).unwrap_err();
    assert_eq!(err.message(), "Invalid federation header: x-federation-key-version");
    let headers = arrived(signed_headers_at("GET", "/a", b"", &node("s"), &identity(), 100, "n".to_string()));
    let err = check_inbound_headers(&settings(), &headers, 100 + 301).unwrap_err();
    assert_eq!(err.message(), "Federation request timestamp is outside the allowed window");
    assert!(check_inbound_headers(&settings(), &headers, 100 - 300).is_ok());
    let guest = OutboundFederationIdentity { user_type: "guest".to_string(), ..identity() };
    let headers = arrived(signed_headers_at("GET", "/a", b"", &node("s"), &guest, 100, "n".to_string()));
    let err = check_inbound_headers(&settings(), &headers, 100).unwrap_err();
    assert_eq!((err.status_code(), err.message().as_str()), (403, "Remote user type is not allowed for federation"));
    let blank = OutboundFederationIdentity { username: "  ".to_string(), ..identity() };
    let headers = arrived(signed_headers_at("GET", "/a", b"", &node("s"), &blank, 100, "n".to_string()));
    let err = check_inbound_headers(&settings(), &headers, 100).unwrap_err();
    assert_eq!(err.message(), "Remote username is required");
}

#[test]
fn header_lookup_takes_the_first_value() {
    let headers = vec![
        ("a".to_string(), Some("1".to_string())),
        ("a".to_string(), Some("2".to_string())),
        ("b".to_string(), None),
    ];
    assert_eq!(required_header(&headers, "a").unwrap(), "1");
    assert_eq!(required_header(&headers, "b").unwrap_err().message(), "Invalid federation header: b");
    assert_eq!(required_header(&headers, "c").unwrap_err().message(), "Missing federation header: c");
}

#[test]
fn signatures_compare_decoded_bytes() {
    assert!(verify_signature("AAEC", "AAEC").is_ok());
    assert_eq!(verify_signature("AAEC", "AAED").unwrap_err().message(), "Federation signature mismatch");
    assert_eq!(verify_signature("AAEC", "AAECAw==").unwrap_err().message(), "Federation signature mismatch");
    assert_eq!(verify_signature("%%", "AAEC").unwrap_err().message(), "Invalid federation signature");
}

#[test]
fn remote_nodes_and_trusts() {
    let headers = arrived(signed_headers_at("GET", "/a", b"", &node("s"), &identity(), 100, "n".to_string()));
    let claims = check_inbound_headers(&settings(), &headers, 100).unwrap();
    let err = check_remote_node(&claims, None).unwrap_err();
    assert_eq!((err.status_code(), err.message().as_str()), (401, "Federation signature mismatch"));
    let revoked = RemoteNodeRow { status: "revoked".to_string(), ..node("s") };
    assert_eq!(
        check_remote_node(&claims, Some(revoked)).unwrap_err().message(),
        "Federation node is not active or key version is invalid"
    );
    let rotated = RemoteNodeRow { key_version: 4, ..node("s") };
    assert!(check_remote_node(&claims, Some(rotated)).is_err());
    assert!(check_trust(true).is_ok());
    let err = check_trust(false).unwrap_err();
    assert_eq!((err.status_code(), err.message().as_str()), (403, "No active federation trust between these laboratories"));
}

#[test]
fn base_urls_are_normalized() {
    let s = settings();
    assert_eq!(normalize_base_url("https://Lab-B.example/", &s).unwrap(), "https://lab-b.example");
    assert_eq!(normalize_base_url("https://lab-b.example:8443/?x=1#f", &s).unwrap(), "https://lab-b.example:8443");
    assert_eq!(normalize_base_url("not a url", &s).unwrap_err(), "Invalid remote base URL");
    assert_eq!(normalize_base_url("https://lab-b.example/api", &s).unwrap_err(), "Remote base URL cannot include a path");
    assert_eq!(normalize_base_url("ftp://lab-b.example", &s).unwrap_err(), "Federation URL must use http or https");
    assert_eq!(
        normalize_base_url("http://lab-b.example", &s).unwrap_err(),
        "HTTP federation URLs are not allowed by this configuration"
    );
    assert_eq!(normalize_base_url("https://u:p@lab-b.example", &s).unwrap_err(), "Federation URL cannot contain credentials");
    assert_eq!(normalize_base_url("https://localhost", &s).unwrap_err(), "Localhost federation URLs are not allowed");
    assert_eq!(
        normalize_base_url("https://169.254.169.254", &s).unwrap_err(),
        "Metadata service IPs are not allowed as federation targets"
    );
    assert_eq!(
        normalize_base_url("https://10.0.0.5", &s).unwrap_err(),
        "Private or special-use federation target IPs require explicit allowance"
    );
    assert_eq!(normalize_base_url("https://8.8.8.8", &s).unwrap(), "https://8.8.8.8");
}

#[test]
fn allowlists_and_private_networks() {
    let allow = FederationSettings {
        allowed_remote_hosts: vec!["LAB-B.example:8443".to_string(), "10.0.0.5".to_string()],
        ..settings()
    };
    assert_eq!(normalize_base_url("https://lab-b.example:8443", &allow).unwrap(), "https://lab-b.example:8443");
    assert_eq!(
        normalize_base_url("https://lab-c.example", &allow).unwrap_err(),
        "Remote host is not in federation allowed_remote_hosts"
    );
    assert_eq!(normalize_base_url("https://10.0.0.5", &allow).unwrap(), "https://10.0.0.5");
    let private = FederationSettings {
        require_https: false,
        allow_insecure_private_network: true,
        ..settings()
    };
    assert_eq!(normalize_base_url("http://localhost:8080", &private).unwrap(), "http://localhost:8080");
    assert_eq!(normalize_base_url("http://192.168.1.2", &private).unwrap(), "http://192.168.1.2");
    let https_only_private = FederationSettings { allow_insecure_private_network: true, ..settings() };
    assert_eq!(
        normalize_base_url("http://192.168.1.2", &https_only_private).unwrap_err(),
        "HTTP federation URLs are not allowed by this configuration"
    );
}

#[test]
fn tls_pins() {
    let pin = "03d66dd08835c1ca3f128cceacd1f31ac94163096b20f445ae84285bc0832d72";
    assert!(validate_tls_pin_value(None).is_ok());
    assert!(validate_tls_pin_value(Some(pin)).is_ok());
    assert_eq!(
        validate_tls_pin_value(Some("abc")).unwrap_err(),
        "TLS certificate SHA-256 pin must be 64 hex characters"
    );
    let bad = format!("{}g", &pin[..63]);
    assert!(validate_tls_pin_value(Some(&bad)).is_err());
    let der = PeerCertificate::Der(b"certificate".to_vec());
    assert!(verify_tls_pin(&der, Some(pin)).is_ok());
    assert!(verify_tls_pin(&der, Some(&pin.to_ascii_uppercase())).is_ok());
    assert!(verify_tls_pin(&PeerCertificate::InfoUnavailable, None).is_ok());
    assert_eq!(
        verify_tls_pin(&der, Some(&"0".repeat(64))).unwrap_err(),
        "Remote TLS certificate pin does not match"
    );
    assert_eq!(
        verify_tls_pin(&PeerCertificate::InfoUnavailable, Some(pin)).unwrap_err(),
        "TLS peer certificate information is unavailable"
    );
    assert_eq!(
        verify_tls_pin(&PeerCertificate::CertificateUnavailable, Some(pin)).unwrap_err(),
        "TLS peer certificate is unavailable"
    );
}

#[test]
fn signatures_cover_the_method_in_uppercase() {
    let headers = signed_headers_at("get", "/a", b"", &node("s"), &identity(), 100, "n".to_string());
    let claims = check_inbound_headers(&settings(), &arrived(headers), 100).unwrap();
    assert!(check_inbound_signature(&node("s"), &claims, "GET", "/a", b"").is_ok());
    assert!(check_inbound_signature(&node("s"), &claims, "POST", "/a", b"").is_err());
}

#[test]
fn fresh_signed_headers_carry_the_current_time() {
    let headers = signed_headers("GET", "/a", b"", &node("s"), &identity()).unwrap();
    let stamped: i64 = headers[2].1.parse().unwrap();
    let now = std::time::SystemTime::now()
        .duration_since(std::time::UNIX_EPOCH)
        .unwrap()
        .as_secs() as i64;
    assert!((now - stamped).abs() <= 5);
}

#[test]
fn headers_signed_now_pass_the_check_made_now() {
    let headers = arrived(signed_headers("GET", "/a", b"", &node("s"), &identity()).unwrap());
    assert!(lab_inventory::security::check_inbound_headers_now(&settings(), &headers).is_ok());
    let stale = arrived(signed_headers_at("GET", "/a", b"", &node("s"), &identity(), 1_000, "n".to_string()));
    let err = lab_inventory::security::check_inbound_headers_now(&settings(), &stale).unwrap_err();
    assert_eq!(err.message(), "Federation request timestamp is outside the allowed window");
}

#[test]
fn unknown_nodes_are_answered_like_bad_signatures() {
    let headers = arrived(signed_headers_at("GET", "/a", b"", &node("s"), &identity(), 100, "n".to_string()));
    let claims = check_inbound_headers(&settings(), &headers, 100).unwrap();
    let unknown = check_remote_node(&claims, None).unwrap_err();
    let known = check_inbound_signature(&node("other"), &claims, "GET", "/a", b"").unwrap_err();
    assert_eq!((unknown.status_code(), unknown.message()), (known.status_code(), known.message()));

    let mut garbled = headers.clone();
    garbled[4].1 = Some("%%".to_string());
    let claims = check_inbound_headers(&settings(), &garbled, 100).unwrap();
    let unknown = check_remote_node(&claims, None).unwrap_err();
    let known = check_inbound_signature(&node("s"), &claims, "GET", "/a", b"").unwrap_err();
    assert_eq!((unknown.status_code(), unknown.message().as_str()), (401, "Invalid federation signature"));
    assert_eq!(unknown.message(), known.message());
}

const TARGET: u128 = 0x9999_0000_9999_0000_9999_0000_9999_0000;

#[test]
fn inbound_requests_pass_each_step_in_order() {
    let headers = arrived(signed_headers_at("POST", "/b", b"{}", &node("s"), &identity(), 100, "n-1".to_string()));
    let awaiting_node = begin_inbound(&settings(), &headers, 100, TARGET).unwrap();
    assert_eq!(awaiting_node.remote_node_id(), identity().local_node_id);
    let awaiting_trust = after_node_lookup(awaiting_node, Ok(Some(node("s")))).unwrap();
    assert_eq!(
        awaiting_trust.trust_to_look_up(),
        (TARGET, identity().local_node_id, identity().local_laboratory_id)
    );
    let awaiting_nonce = after_trust_lookup(awaiting_trust, Ok(true), "POST", "/b", b"{}").unwrap();
    assert_eq!(awaiting_nonce.remote_node_id(), identity().local_node_id);
    assert_eq!(awaiting_nonce.nonce(), "n-1");
    assert_eq!(awaiting_nonce.nonce_lifetime_seconds(), 301);
    let context = after_nonce_recorded(awaiting_nonce, Ok(())).unwrap();
    assert_eq!(context.remote_laboratory_id, identity().local_laboratory_id);
    assert_eq!(context.remote_user_id, identity().user_id);
    assert_eq!(context.remote_username, "alice");
    assert_eq!(context.remote_user_type, "user");
    assert_eq!(context.remote_node.shared_secret, "s");
}

#[test]
fn inbound_steps_stop_at_the_first_failure() {
    let headers = arrived(signed_headers_at("POST", "/b", b"{}", &node("s"), &identity(), 100, "n-1".to_string()));
    let disabled = FederationSettings { enabled: false, ..settings() };
    assert_eq!(begin_inbound(&disabled, &headers, 100, TARGET).unwrap_err().message(), "Federation is disabled");

    let state = begin_inbound(&settings(), &headers, 100, TARGET).unwrap();
    let err = after_node_lookup(state, Err("connection reset".to_string())).unwrap_err();
    assert_eq!((err.status_code(), err.message().as_str()), (500, "connection reset"));

    let state = begin_inbound(&settings(), &headers, 100, TARGET).unwrap();
    let err = after_node_lookup(state, Ok(None)).unwrap_err();
    assert_eq!((err.status_code(), err.message().as_str()), (401, "Federation signature mismatch"));

    let state = begin_inbound(&settings(), &headers, 100, TARGET).unwrap();
    let state = after_node_lookup(state, Ok(Some(node("s")))).unwrap();
    let err = after_trust_lookup(state, Ok(false), "POST", "/b", b"{}").unwrap_err();
    assert_eq!((err.status_code(), err.message().as_str()), (403, "No active federation trust between these laboratories"));

    let state = begin_inbound(&settings(), &headers, 100, TARGET).unwrap();
    let state = after_node_lookup(state, Ok(Some(node("s")))).unwrap();
    let err = after_trust_lookup(state, Ok(true), "POST", "/b", b"{\"x\":1}").unwrap_err();
    assert_eq!((err.status_code(), err.message().as_str()), (401, "Federation signature mismatch"));

    let state = begin_inbound(&settings(), &headers, 100, TARGET).unwrap();
    let state = after_node_lookup(state, Ok(Some(node("s")))).unwrap();
    let state = after_trust_lookup(state, Ok(true), "POST", "/b", b"{}").unwrap();
    let replay = replayed_nonce_error(FederationDatabaseError::Conflict("Federation record already exists".to_string()));
    let err = after_nonce_recorded(state, Err(replay)).unwrap_err();
    assert_eq!((err.status_code(), err.message().as_str()), (401, "Federation request nonce has already been used"));
}

#[test]
fn replayed_nonces_keep_other_failures() {
    let kept = replayed_nonce_error(FederationDatabaseError::Unexpected("disk full".to_string()));
    assert_eq!((kept.status_code(), kept.message().as_str()), (500, "disk full"));
}

#[test]
fn inbound_checks_begin_at_the_present_time() {
    let headers = arrived(signed_headers("GET", "/a", b"", &node("s"), &identity()).unwrap());
    assert!(begin_inbound_now(&settings(), &headers, TARGET).is_ok());
}

#[test]
fn the_same_request_is_refused_once_its_nonce_could_be_forgotten() {
    let headers = arrived(signed_headers_at("POST", "/b", b"{}", &node("s"), &identity(), 100, "n-1".to_string()));
    assert!(begin_inbound(&settings(), &headers, 101, TARGET).is_ok());
    let err = begin_inbound(&settings(), &headers, 101 + 300, TARGET).unwrap_err();
    assert_eq!(
        (err.status_code(), err.message().as_str()),
        (401, "Federation request timestamp is outside the allowed window")
    );
}

#[test]
fn nonces_of_requests_stamped_ahead_outlive_their_stamp() {
    let headers = arrived(signed_headers_at("POST", "/b", b"{}", &node("s"), &identity(), 1_300, "n-2".to_string()));
    let state = begin_inbound(&settings(), &headers, 1_000, TARGET).unwrap();
    let state = after_node_lookup(state, Ok(Some(node("s")))).unwrap();
    let state = after_trust_lookup(state, Ok(true), "POST", "/b", b"{}").unwrap();
    assert_eq!(state.nonce_lifetime_seconds(), 601);
    assert!(begin_inbound(&settings(), &headers, 1_600, TARGET).is_ok());
    assert!(begin_inbound(&settings(), &headers, 1_601, TARGET).is_err());
}
