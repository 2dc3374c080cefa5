//! Who may act on federation state, and the decisions of pairing two
//! deployments: what a trust request must carry, what the partner's answer
//! must say, and the local identity a remote user acts under.
//!
//! Each operation alternates between lookups (the database, the partner's
//! server) and decisions. The decisions are the functions here, each taking
//! what the previous lookup found.
use crate::crypto::{generate_token, hex_lower, sha256_hex, sha256_of, base64_url_safe_of};
use crate::errors::{AcceptPairingError, CreateTrustError, FederationDatabaseError};
use crate::ids::{format_uuid, uuid_text};
use crate::numeric::{format_i64, int_text};
use crate::remote::{normalize_base_url, spec_normalize_base_url, spec_valid_tls_pin, validate_tls_pin_value};
use crate::security::{FEDERATION_DISABLED, FederationSettings, SettingsView};
use crate::text::{contains, contains_text, is_blank, str_eq, trim};
use vstd::prelude::*;

verus! {

/// How a refusal to manage federation is worded, whichever route refuses.
pub const MANAGE_FEDERATION_FORBIDDEN: &'static str = "Only this laboratory's administrator can manage federation";

/// How a refusal to view federation is worded, whichever route refuses.
pub const READ_FEDERATION_FORBIDDEN: &'static str = "Only this laboratory's administrators and users can view federation";

pub open spec fn spec_federation_access(enabled: bool, permitted: bool, refusal: Seq<char>) -> Result<(), Seq<char>> {
    if !enabled {
        Err(FEDERATION_DISABLED@)
    } else if !permitted {
        Err(refusal)
    } else {
        Ok(())
    }
}

pub open spec fn message_outcome(r: Result<(), String>) -> Result<(), Seq<char>> {
    match r {
        Ok(()) => Ok(()),
        Err(e) => Err(e@),
    }
}

/// Whether a federation route may go on: federation must be switched on, and
/// the caller must hold the permission the route asks for. The error is the
/// message the route's `Forbidden` answer carries. Where federation is off,
/// whether the caller is permitted does not matter (and need not be looked
/// up).
pub fn federation_access(enabled: bool, permitted: bool, refusal: &str) -> (r: Result<(), String>)
    ensures
        message_outcome(r) == spec_federation_access(enabled, permitted, refusal@),
{
    if !enabled {
        return Err(String::from_str(FEDERATION_DISABLED));
    }
    if !permitted {
        return Err(String::from_str(refusal));
    }
    Ok(())
}

pub open spec fn spec_map_federation_database_error(code: Option<Seq<char>>, detail: Seq<char>) -> (u16, Seq<char>) {
    if code == Some("23505"@) {
        (409, "Federation record already exists"@)
    } else if code == Some("23503"@) {
        (400, "Invalid referenced record"@)
    } else if code == Some("23514"@) {
        (400, "Invalid federation data"@)
    } else {
        (500, detail)
    }
}

fn code_is(code: Option<&str>, expected: &str) -> (r: bool)
    ensures
        r == (match code {
            Some(c) => c@ == expected@,
            None => false,
        }),
{
    match code {
        Some(c) => str_eq(c, expected),
        None => false,
    }
}

/// How a federation statement the database rejected is reported: a unique
/// violation is a conflict, a foreign-key or check violation invalid input,
/// anything else unexpected, carrying `detail`.
pub fn map_federation_database_error(code: Option<&str>, detail: String) -> (e: FederationDatabaseError)
    ensures
        (e.spec_status_code(), e.spec_message()) == spec_map_federation_database_error(
            match code {
                Some(c) => Some(c@),
                None => None,
            },
            detail@,
        ),
{
    if code_is(code, "23505") {
        return FederationDatabaseError::Conflict(String::from_str("Federation record already exists"));
    }
    if code_is(code, "23503") {
        return FederationDatabaseError::Validation(String::from_str("Invalid referenced record"));
    }
    if code_is(code, "23514") {
        return FederationDatabaseError::Validation(String::from_str("Invalid federation data"));
    }
    FederationDatabaseError::Unexpected(detail)
}

// ---------------------------------------------------------------------------
// guests standing in for remote users
// ---------------------------------------------------------------------------

/// The user name of the local account created for a remote user: the first
/// eight characters of the remote node's id and of the remote user's id.
pub open spec fn spec_shadow_guest_username(remote_node_id: u128, remote_user_id: u128) -> Seq<char> {
    "fed_"@ + uuid_text(remote_node_id).subrange(0, 8) + "_"@ + uuid_text(remote_user_id).subrange(0, 8)
}

pub fn shadow_guest_username(remote_node_id: u128, remote_user_id: u128) -> (name: String)
    ensures
        name@ == spec_shadow_guest_username(remote_node_id, remote_user_id),
{
    let node = format_uuid(remote_node_id);
    let user = format_uuid(remote_user_id);
    let mut name = String::from_str("fed_");
    name.append(node.as_str().substring_char(0, 8));
    name.append("_");
    name.append(user.as_str().substring_char(0, 8));
    name
}

pub open spec fn spec_check_target_guest(
    found: Option<(Seq<char>, Option<u128>)>,
    laboratory_id: u128,
) -> Result<(), (u16, Seq<char>)> {
    match found {
        None => Err((400, "Target guest user not found"@)),
        Some((user_type, user_laboratory_id)) => if user_type != "guest"@ || user_laboratory_id
            != Some(laboratory_id) {
            Err((400, "Target user must be a guest in this laboratory"@))
        } else {
            Ok(())
        },
    }
}

pub open spec fn db_outcome(r: Result<(), FederationDatabaseError>) -> Result<(), (u16, Seq<char>)> {
    match r {
        Ok(()) => Ok(()),
        Err(e) => Err((e.spec_status_code(), e.spec_message())),
    }
}

/// A guest link may only be pointed at a guest account of the same
/// laboratory. `found` is the account's user type and laboratory, where the
/// account exists.
pub fn check_target_guest(found: Option<(String, Option<u128>)>, laboratory_id: u128) -> (r: Result<(), FederationDatabaseError>)
    ensures
        db_outcome(r) == spec_check_target_guest(
            match found {
                Some((t, l)) => Some((t@, l)),
                None => None,
            },
            laboratory_id,
        ),
{
    match found {
        None => Err(FederationDatabaseError::Validation(String::from_str("Target guest user not found"))),
        Some((user_type, user_laboratory_id)) => {
            let same_laboratory = match user_laboratory_id {
                Some(l) => l == laboratory_id,
                None => false,
            };
            if !str_eq(user_type.as_str(), "guest") || !same_laboratory {
                Err(FederationDatabaseError::Validation(String::from_str("Target user must be a guest in this laboratory")))
            } else {
                Ok(())
            }
        },
    }
}

// ---------------------------------------------------------------------------
// pairing
// ---------------------------------------------------------------------------

/// The address a partner should call back on: the configured public base
/// URL, except where that points at this machine (local development), where
/// the scheme and host the request arrived on are used instead.
pub open spec fn spec_requester_base_url(scheme: Seq<char>, host: Seq<char>, public_base_url: Seq<char>) -> Seq<char> {
    if contains_text(public_base_url, "127.0.0.1"@) || contains_text(public_base_url, "localhost"@) {
        scheme + "://"@ + host
    } else {
        public_base_url
    }
}

pub fn requester_base_url(request_scheme: &str, request_host: &str, settings: &FederationSettings) -> (url: String)
    ensures
        url@ == spec_requester_base_url(request_scheme@, request_host@, settings@.public_base_url),
{
    let public = settings.public_base_url.as_str();
    if contains(public, "127.0.0.1") || contains(public, "localhost") {
        let mut url = String::from_str(request_scheme);
        url.append("://");
        url.append(request_host);
        url
    } else {
        String::from_str(public)
    }
}

/// Where a partner accepts a pairing.
pub fn pairing_accept_url(remote_base_url: &str) -> (url: String)
    ensures
        url@ == remote_base_url@ + "/api/v1/federation/inbound/pairing/accept"@,
{
    let mut url = String::from_str(remote_base_url);
    url.append("/api/v1/federation/inbound/pairing/accept");
    url
}

pub open spec fn spec_check_create_trust(
    settings: SettingsView,
    permitted: bool,
    tls_pin: Option<Seq<char>>,
    remote_base_url: Seq<char>,
) -> Result<Seq<char>, (u16, Seq<char>)> {
    match spec_federation_access(settings.enabled, permitted, MANAGE_FEDERATION_FORBIDDEN@) {
        Err(m) => Err((403, m)),
        Ok(()) => if tls_pin matches Some(p) && !spec_valid_tls_pin(p) {
            Err((400, "TLS certificate SHA-256 pin must be 64 hex characters"@))
        } else {
            match spec_normalize_base_url(remote_base_url, settings) {
                Err(m) => Err((400, m)),
                Ok(u) => Ok(u),
            }
        },
    }
}

pub open spec fn trust_outcome<T: View>(r: Result<T, CreateTrustError>) -> Result<T::V, (u16, Seq<char>)> {
    match r {
        Ok(v) => Ok(v@),
        Err(e) => Err((e.spec_status_code(), e.spec_message())),
    }
}

/// Whether a trust may be requested, and the partner's base URL in the form
/// it is stored in: federation on, the caller allowed to manage it, a
/// certificate pin (where one is given) well formed, and the partner's URL
/// one this server may contact.
pub fn check_create_trust(
    settings: &FederationSettings,
    permitted: bool,
    tls_pin: Option<&str>,
    remote_base_url: &str,
) -> (r: Result<String, CreateTrustError>)
    ensures
        trust_outcome(r) == spec_check_create_trust(
            settings@,
            permitted,
            match tls_pin {
                Some(p) => Some(p@),
                None => None,
            },
            remote_base_url@,
        ),
{
    match federation_access(settings.enabled, permitted, MANAGE_FEDERATION_FORBIDDEN) {
        Ok(()) => {},
        Err(m) => {
            return Err(CreateTrustError::Forbidden(m));
        },
    }
    match validate_tls_pin_value(tls_pin) {
        Ok(()) => {},
        Err(m) => {
            return Err(CreateTrustError::ValidationError(m));
        },
    }
    match normalize_base_url(remote_base_url, settings) {
        Ok(u) => Ok(u),
        Err(m) => Err(CreateTrustError::ValidationError(m)),
    }
}

/// The shared secret a new trust is created with: 32 random bytes as
/// URL-safe Base64, with its SHA-256 as lowercase hex, the form it is
/// stored in; `None` when the operating system cannot supply random bytes.
pub fn new_shared_secret() -> (r: Option<(String, String)>)
    ensures
        r matches Some(pair) ==> {
            &&& exists|bytes: Seq<u8>| bytes.len() == 32 && pair.0@ == base64_url_safe_of(bytes)
            &&& pair.1@ == hex_lower(sha256_of(vstd::utf8::encode_utf8(pair.0@)))
        },
{
    match generate_token(32) {
        Some(secret) => {
            let hash = sha256_hex(secret.as_str().as_bytes());
            Some((secret, hash))
        },
        None => None,
    }
}

pub open spec fn spec_check_pairing_status(status: u16, body: Seq<char>) -> Result<(), (u16, Seq<char>)> {
    if 200 <= status && status <= 299 {
        Ok(())
    } else {
        Err((502, "Remote pairing failed with status "@ + int_text(status as int) + ": "@ + body))
    }
}

/// The partner's answer to a pairing must be a success; otherwise its status
/// and body are reported as a bad gateway.
pub fn check_pairing_status(status: u16, body: &str) -> (r: Result<(), CreateTrustError>)
    ensures
        match spec_check_pairing_status(status, body@) {
            Ok(()) => r is Ok,
            Err(e) => r matches Err(x) && (x.spec_status_code(), x.spec_message()) == e,
        },
{
    if 200 <= status && status <= 299 {
        return Ok(());
    }
    let mut message = String::from_str("Remote pairing failed with status ");
    let digits = format_i64(status as i64);
    message.append(digits.as_str());
    message.append(": ");
    message.append(body);
    Err(CreateTrustError::BadGateway(message))
}

/// The partner must have paired the laboratory the request named.
pub fn check_pairing_laboratory(accepted_laboratory_id: u128, requested_laboratory_id: u128) -> (r: Result<(), CreateTrustError>)
    ensures
        accepted_laboratory_id == requested_laboratory_id ==> r is Ok,
        accepted_laboratory_id != requested_laboratory_id ==> (r matches Err(e) && e.spec_status_code() == 502
            && e.spec_message() == "Remote pairing response laboratory does not match request"@),
{
    if accepted_laboratory_id != requested_laboratory_id {
        return Err(CreateTrustError::BadGateway(String::from_str("Remote pairing response laboratory does not match request")));
    }
    Ok(())
}

/// The certificate pin stored with the partner: the one its answer names,
/// else the one the request gave.
pub fn stored_tls_pin(accepted: Option<String>, requested: Option<String>) -> (r: Option<String>)
    ensures
        r == (match accepted {
            Some(p) => Some(p),
            None => requested,
        }),
{
    match accepted {
        Some(p) => Some(p),
        None => requested,
    }
}

pub open spec fn spec_check_accept_pairing(
    settings: SettingsView,
    requester_base_url: Seq<char>,
    shared_secret: Seq<char>,
) -> Result<Seq<char>, (u16, Seq<char>)> {
    if !settings.enabled {
        Err((403, FEDERATION_DISABLED@))
    } else {
        match spec_normalize_base_url(requester_base_url, settings) {
            Err(m) => Err((400, m)),
            Ok(u) => if trim(shared_secret).len() == 0 {
                Err((400, "shared_secret is required"@))
            } else {
                Ok(u)
            },
        }
    }
}

pub open spec fn accept_outcome<T: View>(r: Result<T, AcceptPairingError>) -> Result<T::V, (u16, Seq<char>)> {
    match r {
        Ok(v) => Ok(v@),
        Err(e) => Err((e.spec_status_code(), e.spec_message())),
    }
}

/// Whether a partner's pairing may be accepted, and the partner's base URL
/// in the form it is stored in: federation on, the partner's URL one this
/// server may contact, and a shared secret that is not blank.
pub fn check_accept_pairing(settings: &FederationSettings, requester_base_url: &str, shared_secret: &str) -> (r: Result<String, AcceptPairingError>)
    ensures
        accept_outcome(r) == spec_check_accept_pairing(settings@, requester_base_url@, shared_secret@),
{
    if !settings.enabled {
        return Err(AcceptPairingError::Forbidden(String::from_str(FEDERATION_DISABLED)));
    }
    let url = match normalize_base_url(requester_base_url, settings) {
        Ok(u) => u,
        Err(m) => {
            return Err(AcceptPairingError::ValidationError(m));
        },
    };
    if is_blank(shared_secret) {
        return Err(AcceptPairingError::ValidationError(String::from_str("shared_secret is required")));
    }
    Ok(url)
}

/// A pairing code that is unknown, already spent or expired gets one answer.
pub fn check_pairing_code_found(found: bool) -> (r: Result<(), AcceptPairingError>)
    ensures
        found ==> r is Ok,
        !found ==> (r matches Err(e) && e.spec_status_code() == 400 && e.spec_message()
            == "Pairing code is invalid or has expired"@),
{
    if found {
        Ok(())
    } else {
        Err(AcceptPairingError::ValidationError(String::from_str("Pairing code is invalid or has expired")))
    }
}

/// A pairing code as the deployment records it, by the hash of the code.
pub struct PairingCodeRecord {
    pub local_laboratory_id: u128,
    /// The second the code expires.
    pub expires_at: int,
    pub consumed: bool,
}

/// Claiming a pairing code at `now`, in the one statement that does it: a
/// code that is known, not yet spent and not expired is marked spent and
/// gives the laboratory it pairs with; any other is not found and changes
/// nothing.
pub open spec fn spec_consume_pairing_code(
    codes: Map<Seq<char>, PairingCodeRecord>,
    code_hash: Seq<char>,
    now: int,
) -> (Map<Seq<char>, PairingCodeRecord>, Option<u128>) {
    if codes.dom().contains(code_hash) && !codes[code_hash].consumed && codes[code_hash].expires_at > now {
        (
            codes.insert(
                code_hash,
                PairingCodeRecord {
                    local_laboratory_id: codes[code_hash].local_laboratory_id,
                    expires_at: codes[code_hash].expires_at,
                    consumed: true,
                },
            ),
            Some(codes[code_hash].local_laboratory_id),
        )
    } else {
        (codes, None)
    }
}

/// A pairing code pairs once: after a claim of it succeeded, every later
/// claim of the same code, whenever it comes, finds nothing, and is answered
/// as an invalid or expired code. Two requests presenting the same code are
/// claimed one after the other, so they never both succeed.
pub proof fn pairing_codes_are_spent_once(
    codes: Map<Seq<char>, PairingCodeRecord>,
    code_hash: Seq<char>,
    first_now: int,
    later_now: int,
)
    requires
        spec_consume_pairing_code(codes, code_hash, first_now).1 is Some,
    ensures
        spec_consume_pairing_code(spec_consume_pairing_code(codes, code_hash, first_now).0, code_hash, later_now).1
            is None,
{
}

/// The key a guest link is found by: the local laboratory, and the remote
/// node, laboratory and user it stands for.
pub type GuestLinkKey = (u128, u128, u128, u128);

/// A guest link as the deployment records it.
pub struct GuestLinkRecord {
    pub link_id: u128,
    pub local_guest_user_id: u128,
    pub remote_username: Seq<char>,
    pub remote_user_type: Seq<char>,
}

/// Touching a guest link: where one exists for `key` its remote name and
/// type are brought up to date and its identity (link and guest account)
/// is returned.
pub open spec fn spec_touch_guest_link(
    links: Map<GuestLinkKey, GuestLinkRecord>,
    key: GuestLinkKey,
    remote_username: Seq<char>,
    remote_user_type: Seq<char>,
) -> (Map<GuestLinkKey, GuestLinkRecord>, Option<(u128, u128)>) {
    if links.dom().contains(key) {
        (
            links.insert(
                key,
                GuestLinkRecord {
                    link_id: links[key].link_id,
                    local_guest_user_id: links[key].local_guest_user_id,
                    remote_username,
                    remote_user_type,
                },
            ),
            Some((links[key].link_id, links[key].local_guest_user_id)),
        )
    } else {
        (links, None)
    }
}

/// Inserting a guest link for a freshly created guest account: where a link
/// for `key` exists already (a concurrent request made it first), it keeps
/// its identity and only its remote name and type are brought up to date.
pub open spec fn spec_insert_guest_link(
    links: Map<GuestLinkKey, GuestLinkRecord>,
    key: GuestLinkKey,
    remote_username: Seq<char>,
    remote_user_type: Seq<char>,
    new_link_id: u128,
    new_guest_user_id: u128,
) -> (Map<GuestLinkKey, GuestLinkRecord>, (u128, u128)) {
    match spec_touch_guest_link(links, key, remote_username, remote_user_type) {
        (touched, Some(identity)) => (touched, identity),
        (_, None) => (
            links.insert(
                key,
                GuestLinkRecord {
                    link_id: new_link_id,
                    local_guest_user_id: new_guest_user_id,
                    remote_username,
                    remote_user_type,
                },
            ),
            (new_link_id, new_guest_user_id),
        ),
    }
}

/// Finding or making the local identity of a remote user: the link as it is
/// touched where there is one; else a shadow guest is created with
/// `new_guest_user_id` and a link inserted for it. The last part is whether
/// a shadow guest was created; one that a concurrent request made left over
/// is deleted again (`shadow_guest_is_left_over`).
pub open spec fn spec_upsert_guest_link(
    links: Map<GuestLinkKey, GuestLinkRecord>,
    key: GuestLinkKey,
    remote_username: Seq<char>,
    remote_user_type: Seq<char>,
    new_link_id: u128,
    new_guest_user_id: u128,
) -> (Map<GuestLinkKey, GuestLinkRecord>, (u128, u128), bool) {
    match spec_touch_guest_link(links, key, remote_username, remote_user_type) {
        (touched, Some(identity)) => (touched, identity, false),
        (_, None) => {
            let (inserted, identity) = spec_insert_guest_link(
                links,
                key,
                remote_username,
                remote_user_type,
                new_link_id,
                new_guest_user_id,
            );
            (inserted, identity, true)
        },
    }
}

/// A remote user gets one local identity: a second request for the same
/// remote user, whatever name and type it now carries, gets the identity
/// the first one got, creates no shadow guest, and leaves the link with the
/// second request's name and type.
pub proof fn guest_links_are_made_once(
    links: Map<GuestLinkKey, GuestLinkRecord>,
    key: GuestLinkKey,
    first_username: Seq<char>,
    first_user_type: Seq<char>,
    first_link_id: u128,
    first_guest_user_id: u128,
    second_username: Seq<char>,
    second_user_type: Seq<char>,
    second_link_id: u128,
    second_guest_user_id: u128,
)
    ensures
        ({
            let first = spec_upsert_guest_link(
                links,
                key,
                first_username,
                first_user_type,
                first_link_id,
                first_guest_user_id,
            );
            let second = spec_upsert_guest_link(
                first.0,
                key,
                second_username,
                second_user_type,
                second_link_id,
                second_guest_user_id,
            );
            &&& second.1 == first.1
            &&& !second.2
            &&& second.0.dom().contains(key)
            &&& second.0[key].remote_username == second_username
            &&& second.0[key].remote_user_type == second_user_type
            &&& (second.0[key].link_id, second.0[key].local_guest_user_id) == first.1
        }),
{
}

/// After a shadow guest was created for a remote user and the link
/// inserted, whether that new guest is left over: a concurrent request may
/// have linked the user first, and its guest is the one that counts.
pub fn shadow_guest_is_left_over(linked_guest_user_id: u128, created_guest_user_id: u128) -> (r: bool)
    ensures
        r == (linked_guest_user_id != created_guest_user_id),
{
    linked_guest_user_id != created_guest_user_id
}

/// A guest link or trust a route names must exist in the laboratory; the
/// error is the message of the route's `NotFound` answer.
pub fn check_found(found: bool, what: &str) -> (r: Result<(), String>)
    ensures
        found ==> r is Ok,
        !found ==> (r matches Err(e) && e@ == what@ + " not found"@),
{
    if !found {
        let mut m = String::from_str(what);
        m.append(" not found");
        return Err(m);
    }
    Ok(())
}

/// A pairing code handed to a partner's administrator: 24 random bytes as
/// URL-safe Base64, with its SHA-256 as lowercase hex, the only form that is
/// stored; `None` when the operating system cannot supply random bytes.
pub fn new_pairing_code() -> (r: Option<(String, String)>)
    ensures
        r matches Some(pair) ==> {
            &&& exists|bytes: Seq<u8>| bytes.len() == 24 && pair.0@ == base64_url_safe_of(bytes)
            &&& pair.1@ == hex_lower(sha256_of(vstd::utf8::encode_utf8(pair.0@)))
        },
{
    match generate_token(24) {
        Some(code) => {
            let hash = sha256_hex(code.as_str().as_bytes());
            Some((code, hash))
        },
        None => None,
    }
}

/// How long a pairing code stays valid, in minutes.
pub const PAIRING_CODE_TTL_MINUTES: i64 = 15;

/// Federation routes act only while federation is on and for whom they
/// permit; while it is off every one answers that it is disabled.
pub proof fn federation_access_needs_it_on_and_permitted(enabled: bool, permitted: bool, refusal: Seq<char>)
    ensures
        spec_federation_access(enabled, permitted, refusal) is Ok <==> (enabled && permitted),
        !enabled ==> spec_federation_access(enabled, permitted, refusal) == Err::<(), Seq<char>>(
            FEDERATION_DISABLED@,
        ),
        enabled && !permitted ==> spec_federation_access(enabled, permitted, refusal) == Err::<
            (),
            Seq<char>,
        >(refusal),
{
}

/// A guest link is pointed only at a guest of the same laboratory.
pub proof fn guest_links_point_at_guests_of_the_laboratory(
    found: Option<(Seq<char>, Option<u128>)>,
    laboratory_id: u128,
)
    ensures
        spec_check_target_guest(found, laboratory_id) is Ok <==> (found is Some && found->Some_0.0
            == "guest"@ && found->Some_0.1 == Some(laboratory_id)),
{
}

/// A trust is created only while federation is on, by an administrator,
/// with a well-formed pin where one is given, and towards the partner's
/// normalised address; pairing is accepted only while federation is on,
/// with a secret that is not blank, from the requester's normalised
/// address; and the partner's answer counts only with a 2xx status.
pub proof fn pairing_needs_federation_on_and_a_usable_address(
    settings: SettingsView,
    permitted: bool,
    tls_pin: Option<Seq<char>>,
    remote_base_url: Seq<char>,
    shared_secret: Seq<char>,
    status: u16,
    body: Seq<char>,
)
    ensures
        spec_check_create_trust(settings, permitted, tls_pin, remote_base_url) matches Ok(u) ==> {
            &&& settings.enabled
            &&& permitted
            &&& tls_pin matches Some(p) ==> spec_valid_tls_pin(p)
            &&& spec_normalize_base_url(remote_base_url, settings) == Ok::<Seq<char>, Seq<char>>(u)
        },
        !settings.enabled ==> spec_check_create_trust(settings, permitted, tls_pin, remote_base_url)
            == Err::<Seq<char>, (u16, Seq<char>)>((403, FEDERATION_DISABLED@)),
        settings.enabled && permitted && (tls_pin is None || spec_valid_tls_pin(tls_pin->Some_0))
            && spec_normalize_base_url(remote_base_url, settings) is Ok ==> spec_check_create_trust(
            settings,
            permitted,
            tls_pin,
            remote_base_url,
        ) is Ok,
        spec_check_accept_pairing(settings, remote_base_url, shared_secret) matches Ok(u) ==> {
            &&& settings.enabled
            &&& trim(shared_secret).len() > 0
            &&& spec_normalize_base_url(remote_base_url, settings) == Ok::<Seq<char>, Seq<char>>(u)
        },
        settings.enabled && trim(shared_secret).len() > 0 && spec_normalize_base_url(
            remote_base_url,
            settings,
        ) is Ok ==> spec_check_accept_pairing(settings, remote_base_url, shared_secret) is Ok,
        spec_check_pairing_status(status, body) is Ok <==> (200 <= status && status <= 299),
        spec_check_pairing_status(status, body) matches Err(e) ==> e.0 == 502,
{
}

/// The local account of a remote user is named `fed_`, the first eight hex
/// digits of the remote node's id, `_`, and the first eight of the remote
/// user's id.
pub proof fn shadow_guest_names_come_from_the_remote_ids(remote_node_id: u128, remote_user_id: u128)
    ensures
        ({
            let name = spec_shadow_guest_username(remote_node_id, remote_user_id);
            &&& name.len() == 21
            &&& name.subrange(0, 4) == "fed_"@
            &&& name[12] == '_'
            &&& forall|i: int| 0 <= i < 8 ==> name[4 + i] == crate::ids::uuid_hex_digit(remote_node_id, i)
            &&& forall|i: int| 0 <= i < 8 ==> name[13 + i] == crate::ids::uuid_hex_digit(remote_user_id, i)
        }),
{
    reveal_strlit("fed_");
    reveal_strlit("_");
    let name = spec_shadow_guest_username(remote_node_id, remote_user_id);
    assert(name.subrange(0, 4) =~= "fed_"@);
}

/// A rejected federation statement is a conflict where a record exists
/// already, invalid input on a foreign-key or check violation, and this
/// server's failure otherwise, carrying the database's detail.
pub proof fn rejected_federation_statements_are_answered_by_their_code(code: Option<Seq<char>>, detail: Seq<char>)
    ensures
        code == Some("23505"@) ==> spec_map_federation_database_error(code, detail) == (409u16, "Federation record already exists"@),
        code == Some("23503"@) || code == Some("23514"@) ==> spec_map_federation_database_error(code, detail).0 == 400,
        code != Some("23505"@) && code != Some("23503"@) && code != Some("23514"@) ==> spec_map_federation_database_error(
            code,
            detail,
        ) == (500u16, detail),
{
    reveal_strlit("23505");
    reveal_strlit("23503");
    reveal_strlit("23514");
    assert("23505"@[4] != "23503"@[4]);
    assert("23505"@[3] != "23514"@[3]);
    assert("23503"@[3] != "23514"@[3]);
}

/// The address a pairing request names as its sender: the configured
/// public base URL, except where that points at this machine (`127.0.0.1`
/// or `localhost`), when it is the scheme and host the request came in on.
pub proof fn pairing_names_a_reachable_sender(scheme: Seq<char>, host: Seq<char>, public_base_url: Seq<char>)
    ensures
        !contains_text(public_base_url, "127.0.0.1"@) && !contains_text(public_base_url, "localhost"@)
            ==> spec_requester_base_url(scheme, host, public_base_url) == public_base_url,
        contains_text(public_base_url, "127.0.0.1"@) || contains_text(public_base_url, "localhost"@)
            ==> spec_requester_base_url(scheme, host, public_base_url) == scheme + seq![':', '/', '/'] + host,
{
    reveal_strlit("://");
}

} // verus!
