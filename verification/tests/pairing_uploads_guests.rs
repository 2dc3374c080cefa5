use lab_inventory::borrowing::{
    borrow_conflict, borrow_request_note, check_borrow_purpose, check_borrowable, check_remote_enabled,
    remote_endpoint, remote_error_message, uuid_field,
};
use lab_inventory::errors::{
    AssignAttachmentError, CreateInventoryItemsError, DeleteInventoryItemError, FederationDatabaseError,
    FederationSecurityError, InventoryItemDatabaseError, SplitInventoryItemError,
};
use lab_inventory::federation::{
    check_accept_pairing, check_create_trust, check_found, check_pairing_code_found, check_pairing_laboratory,
    check_pairing_status, check_target_guest, federation_access, map_federation_database_error,
    new_shared_secret, pairing_accept_url, requester_base_url, shadow_guest_is_left_over,
    shadow_guest_username, stored_tls_pin, MANAGE_FEDERATION_FORBIDDEN, READ_FEDERATION_FORBIDDEN,
};
use lab_inventory::guests::{
    after_code_attempt, check_laboratory_locked, check_registration_code_found,
    check_registration_code_permission, registration_code_expires_at, registration_code_expires_now, registration_gate, CodeAttempt,
    RegistrationGate, REGISTRATION_CODE_GENERATION_ATTEMPTS,
};
use lab_inventory::crypto::sha256_hex;
use lab_inventory::security::FederationSettings;
use lab_inventory::uploads::{
    accept_chunk, begin_field, check_consumable, consume_upload, check_deletable, finish_field, finish_upload,
    upload_file_name, UploadStatus,
};

fn settings() -> FederationSettings {
    FederationSettings {
        enabled: true,
        require_https: true,
        allow_insecure_private_network: false,
        allowed_remote_hosts: vec![],
        request_ttl_seconds: 300,
        public_base_url: "https://lab-a.example".to_string(),
    }
}

#[test]
fn federation_access_is_worded_consistently() {
    assert_eq!(federation_access(false, true, MANAGE_FEDERATION_FORBIDDEN).unwrap_err(), "Federation is disabled");
    assert_eq!(
        federation_access(true, false, MANAGE_FEDERATION_FORBIDDEN).unwrap_err(),
        "Only this laboratory's administrator can manage federation"
    );
    assert_eq!(
        federation_access(true, false, READ_FEDERATION_FORBIDDEN).unwrap_err(),
        "Only this laboratory's administrators and users can view federation"
    );
    assert!(federation_access(true, true, READ_FEDERATION_FORBIDDEN).is_ok());
}

#[test]
fn federation_statements_are_classified() {
    let e = map_federation_database_error(Some("23505"), "x".into());
    assert_eq!((e.status_code(), e.message().as_str()), (409, "Federation record already exists"));
    assert_eq!(map_federation_database_error(Some("23503"), "x".into()).message(), "Invalid referenced record");
    assert_eq!(map_federation_database_error(Some("23514"), "x".into()).message(), "Invalid federation data");
    let e = map_federation_database_error(None, "lost connection".into());
    assert_eq!((e.status_code(), e.message().as_str()), (500, "lost connection"));
}

#[test]
fn shadow_guests_are_named_after_node_and_user() {
    let name = shadow_guest_username(0x67e55044_10b1_426f_9247_bb680e5fe0c8, 0x0123abcd_0000_0000_0000_000000000000);
    assert_eq!(name, "fed_67e55044_0123abcd");
    assert!(shadow_guest_is_left_over(1, 2));
    assert!(!shadow_guest_is_left_over(2, 2));
}

#[test]
fn guest_links_point_at_guests_of_the_laboratory() {
    let e = check_target_guest(None, 1).unwrap_err();
    assert_eq!((e.status_code(), e.message().as_str()), (400, "Target guest user not found"));
    assert_eq!(
        check_target_guest(Some(("user".to_string(), Some(1))), 1).unwrap_err().message(),
        "Target user must be a guest in this laboratory"
    );
    assert!(check_target_guest(Some(("guest".to_string(), Some(2))), 1).is_err());
    assert!(check_target_guest(Some(("guest".to_string(), None)), 1).is_err());
    assert!(check_target_guest(Some(("guest".to_string(), Some(1))), 1).is_ok());
    assert_eq!(check_found(false, "Federation guest link").unwrap_err(), "Federation guest link not found");
    assert!(check_found(true, "Federation trust").is_ok());
}

#[test]
fn trust_requests() {
    let s = settings();
    assert_eq!(check_create_trust(&s, true, None, "https://Lab-B.example/").unwrap(), "https://lab-b.example");
    let e = check_create_trust(&FederationSettings { enabled: false, ..settings() }, true, None, "x").unwrap_err();
    assert_eq!((e.status_code(), e.message().as_str()), (403, "Federation is disabled"));
    let e = check_create_trust(&s, false, None, "https://lab-b.example").unwrap_err();
    assert_eq!(e.message(), MANAGE_FEDERATION_FORBIDDEN);
    let e = check_create_trust(&s, true, Some("xyz"), "https://lab-b.example").unwrap_err();
    assert_eq!((e.status_code(), e.message().as_str()), (400, "TLS certificate SHA-256 pin must be 64 hex characters"));
    let e = check_create_trust(&s, true, None, "https://lab-b.example/path").unwrap_err();
    assert_eq!(e.message(), "Remote base URL cannot include a path");
    assert_eq!(pairing_accept_url("https://b.example"), "https://b.example/api/v1/federation/inbound/pairing/accept");
    assert_eq!(requester_base_url("http", "10.1.1.1:8080", &s), "https://lab-a.example");
    let local = FederationSettings { public_base_url: "http://localhost:3000".to_string(), ..settings() };
    assert_eq!(requester_base_url("http", "10.1.1.1:8080", &local), "http://10.1.1.1:8080");
    let (secret, hash) = new_shared_secret().unwrap();
    assert_eq!(secret.len(), 43);
    assert_eq!(hash, sha256_hex(secret.as_bytes()));
}

#[test]
fn pairing_answers() {
    assert!(check_pairing_status(201, "").is_ok());
    let e = check_pairing_status(409, "taken").unwrap_err();
    assert_eq!((e.status_code(), e.message().as_str()), (502, "Remote pairing failed with status 409: taken"));
    assert!(check_pairing_laboratory(3, 3).is_ok());
    assert_eq!(
        check_pairing_laboratory(3, 4).unwrap_err().message(),
        "Remote pairing response laboratory does not match request"
    );
    assert_eq!(stored_tls_pin(Some("a".into()), Some("b".into())), Some("a".to_string()));
    assert_eq!(stored_tls_pin(None, Some("b".into())), Some("b".to_string()));
    assert!(check_pairing_code_found(true).is_ok());
    assert_eq!(check_pairing_code_found(false).unwrap_err().message(), "Pairing code is invalid or has expired");
}

#[test]
fn accepting_pairings() {
    let s = settings();
    assert_eq!(check_accept_pairing(&s, "https://lab-b.example", "secret").unwrap(), "https://lab-b.example");
    assert_eq!(check_accept_pairing(&s, "https://lab-b.example", "  ").unwrap_err().message(), "shared_secret is required");
    assert_eq!(check_accept_pairing(&s, "http://lab-b.example", "s").unwrap_err().status_code(), 400);
    let off = FederationSettings { enabled: false, ..settings() };
    assert_eq!(check_accept_pairing(&off, "https://lab-b.example", "s").unwrap_err().status_code(), 403);
}

#[test]
fn multipart_uploads_carry_one_nonempty_file() {
    assert!(begin_field(false, Some("file")).is_ok());
    assert_eq!(begin_field(false, Some("other")).unwrap_err().message(), "Only multipart field `file` is supported");
    assert_eq!(begin_field(false, None).unwrap_err().message(), "Only multipart field `file` is supported");
    assert_eq!(begin_field(true, Some("file")).unwrap_err().message(), "Only one file can be uploaded at a time");
    assert_eq!(upload_file_name(Some("  report.pdf ")), "report.pdf");
    assert_eq!(upload_file_name(Some("   ")), "file");
    assert_eq!(upload_file_name(None), "file");
    assert_eq!(accept_chunk(10, 5, 15).unwrap(), 15);
    let e = accept_chunk(10, 6, 15).unwrap_err();
    assert_eq!((e.status_code(), e.message().as_str()), (400, "File upload exceeds configured size limit"));
    assert!(accept_chunk(u64::MAX, 1, u64::MAX).is_err());
    assert_eq!(finish_field(0).unwrap_err().message(), "File uploads cannot be empty");
    assert!(finish_field(1).is_ok());
    assert_eq!(finish_upload(false).unwrap_err().message(), "Multipart field `file` is required");
    assert!(finish_upload(true).is_ok());
}

#[test]
fn uploads_are_spent_once_before_they_expire() {
    let e = check_consumable(None, 0).unwrap_err();
    assert_eq!((e.status_code(), e.message().as_str()), (404, "File upload not found"));
    let e = check_consumable(Some(UploadStatus { consumed: true, expires_at_nanos: 100 }), 0).unwrap_err();
    assert_eq!((e.status_code(), e.message().as_str()), (409, "File upload has already been consumed"));
    let e = check_consumable(Some(UploadStatus { consumed: false, expires_at_nanos: 100 }), 101).unwrap_err();
    assert_eq!((e.status_code(), e.message().as_str()), (400, "File upload has expired"));
    assert!(check_consumable(Some(UploadStatus { consumed: false, expires_at_nanos: 100 }), 100).is_ok());
    assert_eq!(check_deletable(None).unwrap_err().status_code(), 404);
    assert_eq!(check_deletable(Some(true)).unwrap_err().message(), "File upload has already been assigned to an attachment");
    assert!(check_deletable(Some(false)).is_ok());
}

#[test]
fn registration_codes_and_gate() {
    assert!(check_laboratory_locked(true).is_ok());
    assert_eq!(check_laboratory_locked(false).unwrap_err().message(), "Invalid laboratory");
    assert!(matches!(after_code_attempt(1, true), Ok(CodeAttempt::Keep)));
    assert!(matches!(after_code_attempt(31, false), Ok(CodeAttempt::TryAnother)));
    let e = after_code_attempt(REGISTRATION_CODE_GENERATION_ATTEMPTS, false).unwrap_err();
    assert_eq!((e.status_code(), e.message().as_str()), (500, "Failed to allocate a unique guest registration code"));
    assert_eq!(check_registration_code_found(false).unwrap_err().message(), "Registration code is invalid or expired");
    assert!(matches!(registration_gate(true, true, Some((true, 0))), RegistrationGate::Pass));
    assert!(matches!(
        registration_gate(true, true, Some((false, 42))),
        RegistrationGate::TooManyRequests { ref retry_after, ref error } if retry_after == "42" && error == "Too many registration attempts"
    ));
    assert!(matches!(registration_gate(false, true, None), RegistrationGate::Unavailable { ref error } if error == "Guest registration is temporarily unavailable"));
    assert!(matches!(registration_gate(true, true, None), RegistrationGate::Unavailable { .. }));
}

#[test]
fn remote_borrowing() {
    assert_eq!(remote_endpoint("https://b.example/api/v1", "/api/v1/federation/inventory-items"), "https://b.example/api/v1/federation/inventory-items");
    assert_eq!(remote_endpoint("https://b.example/api/v1/api/v1", "/x"), "https://b.example/x");
    assert_eq!(remote_endpoint("https://b.example", "/x"), "https://b.example/x");
    assert_eq!(check_remote_enabled(false).unwrap_err(), "Remote laboratory is disabled");
    assert_eq!(check_borrow_purpose(" ").unwrap_err(), "purpose is required");
    assert!(check_borrow_purpose("teaching").is_ok());
    assert_eq!(check_borrowable(false, "quantity", "available").unwrap_err(), "inventory item is not borrowable");
    assert_eq!(check_borrowable(true, "serialized", "borrowed").unwrap_err(), "inventory item is not available");
    assert!(check_borrowable(true, "quantity", "borrowed").is_ok());
    assert_eq!(remote_error_message(Some("no stock")), "no stock");
    assert_eq!(remote_error_message(None), "Remote request failed");
    assert_eq!(uuid_field(None, "unit_id").unwrap_err(), "Remote response missing unit_id");
    assert_eq!(uuid_field(Some("x"), "unit_id").unwrap_err(), "Remote response has invalid unit_id");
    assert_eq!(uuid_field(Some("00000000-0000-0000-0000-00000000000a"), "unit_id").unwrap(), 10);
    assert_eq!(borrow_conflict(Some("23505")), Some("Borrow request already exists".to_string()));
    assert_eq!(borrow_conflict(Some("23503")), None);
    assert_eq!(borrow_request_note(Some("  please ")), Some("please".to_string()));
    assert_eq!(borrow_request_note(Some(" ")), None);
}

#[test]
fn errors_keep_or_translate_status() {
    let e = SplitInventoryItemError::from(InventoryItemDatabaseError::NotFound("gone".into()));
    assert_eq!((e.status_code(), e.message().as_str()), (404, "gone"));
    let e = DeleteInventoryItemError::from(InventoryItemDatabaseError::Validation("still referenced".into()));
    assert_eq!((e.status_code(), e.message().as_str()), (409, "still referenced"));
    let e = CreateInventoryItemsError::from(AssignAttachmentError::NotFound("no upload".into()));
    assert_eq!((e.status_code(), e.message().as_str()), (400, "no upload"));
    let e = FederationSecurityError::from(FederationDatabaseError::Conflict("nonce used".into()));
    assert_eq!((e.status_code(), e.message().as_str()), (401, "nonce used"));
    let e = FederationSecurityError::from(FederationDatabaseError::Validation("bad".into()));
    assert_eq!(e.status_code(), 500);
}

#[test]
fn pairing_codes_are_stored_hashed() {
    let (code, hash) = lab_inventory::federation::new_pairing_code().unwrap();
    assert_eq!(code.len(), 32);
    assert_eq!(hash, sha256_hex(code.as_bytes()));
    assert_eq!(lab_inventory::federation::PAIRING_CODE_TTL_MINUTES, 15);
}

#[test]
fn uploads_are_judged_by_the_clock() {
    let e = lab_inventory::uploads::check_consumable_now(Some(UploadStatus { consumed: false, expires_at_nanos: 0 })).unwrap_err();
    assert_eq!(e.message(), "File upload has expired");
    let far = 4_000_000_000i128 * 1_000_000_000;
    assert!(lab_inventory::uploads::check_consumable_now(Some(UploadStatus { consumed: false, expires_at_nanos: far })).is_ok());
}

#[test]
fn a_consumed_upload_cannot_be_consumed_again() {
    let marked = consume_upload(Some(UploadStatus { consumed: false, expires_at_nanos: 100 }), 50).unwrap();
    assert!(marked.consumed);
    assert_eq!(marked.expires_at_nanos, 100);
    let e = consume_upload(Some(marked), 60).unwrap_err();
    assert_eq!((e.status_code(), e.message().as_str()), (409, "File upload has already been consumed"));
    let e = consume_upload(None, 0).unwrap_err();
    assert_eq!((e.status_code(), e.message().as_str()), (404, "File upload not found"));
}

#[test]
fn registration_codes_expire_after_ten_minutes() {
    assert_eq!(registration_code_expires_at(1_700_000_000, 500), 1_700_000_600_000_000_500);
    let now = std::time::SystemTime::now()
        .duration_since(std::time::UNIX_EPOCH)
        .unwrap()
        .as_nanos() as i128;
    let expires = registration_code_expires_now();
    assert!(expires >= now + 600_000_000_000 && expires <= now + 605_000_000_000);
}

#[test]
fn registration_codes_need_permission() {
    assert!(check_registration_code_permission(true).is_ok());
    let e = check_registration_code_permission(false).unwrap_err();
    assert_eq!(
        (e.status_code(), e.message().as_str()),
        (403, "You don't have permission to create a guest registration code.")
    );
}
