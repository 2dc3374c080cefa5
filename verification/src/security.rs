//! The federation request signature: how an outbound request is signed, and
//! how an inbound one is proved genuine before anything is read from it.
//!
//! Verifying an inbound request alternates between checks and lookups in the
//! database (the remote node, the trust between the two laboratories, the
//! nonce). The checks are the functions here, each taking what the previous
//! lookup found; whoever serves the request performs the lookups in between.
//! `begin_inbound`, `after_node_lookup`, `after_trust_lookup` and
//! `after_nonce_recorded` take a request through them in that order: the
//! state each step hands on can be made by that step alone.
use crate::crypto::{
    base64_standard_decoded, base64_standard_of, decode_base64, generate_token, hex_lower,
    hmac_sha256_base64, hmac_sha256_of, sha256_hex, sha256_of, base64_url_safe_of,
};
use crate::errors::{FederationDatabaseError, FederationSecurityError};
use crate::ids::{format_uuid, parse_uuid, uuid_from_text, uuid_text};
use crate::numeric::{format_i64, i32_from_text, i64_from_text, int_text, parse_i32, parse_i64};
use crate::text::{str_eq, trim, trim_to_string};
use vstd::prelude::*;
use vstd::std_specs::convert::FromSpec;

verus! {

/// How this deployment takes part in federation.
#[derive(Debug)]
pub struct FederationSettings {
    pub enabled: bool,
    pub require_https: bool,
    pub allow_insecure_private_network: bool,
    pub allowed_remote_hosts: Vec<String>,
    pub request_ttl_seconds: i64,
    pub public_base_url: String,
}

pub struct SettingsView {
    pub enabled: bool,
    pub require_https: bool,
    pub allow_insecure_private_network: bool,
    pub allowed_remote_hosts: Seq<Seq<char>>,
    pub request_ttl_seconds: i64,
    pub public_base_url: Seq<char>,
}

impl View for FederationSettings {
    type V = SettingsView;

    open spec fn view(&self) -> SettingsView {
        SettingsView {
            enabled: self.enabled,
            require_https: self.require_https,
            allow_insecure_private_network: self.allow_insecure_private_network,
            allowed_remote_hosts: self.allowed_remote_hosts@.map_values(|h: String| h@),
            request_ttl_seconds: self.request_ttl_seconds,
            public_base_url: self.public_base_url@,
        }
    }
}

/// A partner deployment this one has paired with.
#[derive(Debug)]
pub struct RemoteNodeRow {
    pub remote_node_id: u128,
    pub base_url: String,
    pub shared_secret: String,
    pub tls_certificate_sha256: Option<String>,
    pub status: String,
    pub key_version: i32,
}

/// Who an outbound request is made on behalf of.
#[derive(Debug)]
pub struct OutboundFederationIdentity {
    pub local_node_id: u128,
    pub local_laboratory_id: u128,
    pub user_id: u128,
    pub username: String,
    pub user_type: String,
}

/// What a proved inbound request says about its sender.
#[derive(Debug)]
pub struct InboundFederationContext {
    pub remote_node: RemoteNodeRow,
    pub remote_laboratory_id: u128,
    pub remote_user_id: u128,
    pub remote_username: String,
    pub remote_user_type: String,
}

/// What the headers of an inbound request claim, before the claims are
/// checked against the database and the signature.
#[derive(Debug)]
pub struct InboundClaims {
    pub remote_node_id: u128,
    pub key_version: i32,
    pub timestamp: i64,
    pub nonce: String,
    pub signature: String,
    pub remote_laboratory_id: u128,
    pub remote_user_id: u128,
    pub remote_username: String,
    pub remote_user_type: String,
}

pub struct ClaimsView {
    pub remote_node_id: u128,
    pub key_version: i32,
    pub timestamp: i64,
    pub nonce: Seq<char>,
    pub signature: Seq<char>,
    pub remote_laboratory_id: u128,
    pub remote_user_id: u128,
    pub remote_username: Seq<char>,
    pub remote_user_type: Seq<char>,
}

impl View for InboundClaims {
    type V = ClaimsView;

    open spec fn view(&self) -> ClaimsView {
        ClaimsView {
            remote_node_id: self.remote_node_id,
            key_version: self.key_version,
            timestamp: self.timestamp,
            nonce: self.nonce@,
            signature: self.signature@,
            remote_laboratory_id: self.remote_laboratory_id,
            remote_user_id: self.remote_user_id,
            remote_username: self.remote_username@,
            remote_user_type: self.remote_user_type@,
        }
    }
}

/// What every federation route answers with while federation is switched
/// off.
pub const FEDERATION_DISABLED: &'static str = "Federation is disabled";

pub const HEADER_NODE_ID: &'static str = "x-federation-node-id";

pub const HEADER_KEY_VERSION: &'static str = "x-federation-key-version";

pub const HEADER_TIMESTAMP: &'static str = "x-federation-timestamp";

pub const HEADER_NONCE: &'static str = "x-federation-nonce";

pub const HEADER_SIGNATURE: &'static str = "x-federation-signature";

pub const HEADER_REMOTE_LABORATORY_ID: &'static str = "x-federation-remote-laboratory-id";

pub const HEADER_REMOTE_USER_ID: &'static str = "x-federation-remote-user-id";

pub const HEADER_REMOTE_USERNAME: &'static str = "x-federation-remote-username";

pub const HEADER_REMOTE_USER_TYPE: &'static str = "x-federation-remote-user-type";

/// An error by its status and message, which together name its variant.
pub open spec fn failure(e: FederationSecurityError) -> (u16, Seq<char>) {
    (e.spec_status_code(), e.spec_message())
}

pub open spec fn unauthorized(message: Seq<char>) -> (u16, Seq<char>) {
    (401, message)
}

pub open spec fn forbidden(message: Seq<char>) -> (u16, Seq<char>) {
    (403, message)
}

/// The headers of a request as pairs of name and value; a value is `None`
/// where it is not visible ASCII text (`HeaderValue::to_str` fails).
pub open spec fn headers_view(headers: Seq<(String, Option<String>)>) -> Seq<(Seq<char>, Option<Seq<char>>)> {
    headers.map_values(|h: (String, Option<String>)| (h.0@, match h.1 {
        Some(v) => Some(v@),
        None => None,
    }))
}

/// The first value given for `name`, as `HeaderMap::get` returns it.
pub open spec fn header_lookup(headers: Seq<(Seq<char>, Option<Seq<char>>)>, name: Seq<char>) -> Option<Option<Seq<char>>>
    decreases headers.len(),
{
    if headers.len() == 0 {
        None
    } else if headers[0].0 == name {
        Some(headers[0].1)
    } else {
        header_lookup(headers.drop_first(), name)
    }
}

pub open spec fn missing_header(name: Seq<char>) -> (u16, Seq<char>) {
    unauthorized("Missing federation header: "@ + name)
}

pub open spec fn invalid_header(name: Seq<char>) -> (u16, Seq<char>) {
    unauthorized("Invalid federation header: "@ + name)
}

/// A header that must be present and readable.
pub open spec fn spec_required_header(headers: Seq<(Seq<char>, Option<Seq<char>>)>, name: Seq<char>) -> Result<Seq<char>, (u16, Seq<char>)> {
    match header_lookup(headers, name) {
        None => Err(missing_header(name)),
        Some(None) => Err(invalid_header(name)),
        Some(Some(value)) => Ok(value),
    }
}

pub open spec fn spec_uuid_header(headers: Seq<(Seq<char>, Option<Seq<char>>)>, name: Seq<char>) -> Result<u128, (u16, Seq<char>)> {
    match spec_required_header(headers, name) {
        Err(e) => Err(e),
        Ok(value) => match uuid_from_text(value) {
            Some(id) => Ok(id),
            None => Err(invalid_header(name)),
        },
    }
}

pub open spec fn spec_i32_header(headers: Seq<(Seq<char>, Option<Seq<char>>)>, name: Seq<char>) -> Result<i32, (u16, Seq<char>)> {
    match spec_required_header(headers, name) {
        Err(e) => Err(e),
        Ok(value) => match i32_from_text(value) {
            Some(v) => Ok(v),
            None => Err(invalid_header(name)),
        },
    }
}

pub open spec fn spec_i64_header(headers: Seq<(Seq<char>, Option<Seq<char>>)>, name: Seq<char>) -> Result<i64, (u16, Seq<char>)> {
    match spec_required_header(headers, name) {
        Err(e) => Err(e),
        Ok(value) => match i64_from_text(value) {
            Some(v) => Ok(v),
            None => Err(invalid_header(name)),
        },
    }
}

fn header_failure(prefix: &str, name: &str) -> (e: FederationSecurityError)
    ensures
        failure(e) == unauthorized(prefix@ + name@),
{
    let mut message = String::from_str(prefix);
    message.append(name);
    FederationSecurityError::Unauthorized(message)
}

fn missing_header_error(name: &str) -> (e: FederationSecurityError)
    ensures
        failure(e) == missing_header(name@),
{
    header_failure("Missing federation header: ", name)
}

fn invalid_header_error(name: &str) -> (e: FederationSecurityError)
    ensures
        failure(e) == invalid_header(name@),
{
    header_failure("Invalid federation header: ", name)
}

/// The value of a header that must be present and readable.
pub fn required_header(headers: &Vec<(String, Option<String>)>, name: &str) -> (r: Result<String, FederationSecurityError>)
    ensures
        match spec_required_header(headers_view(headers@), name@) {
            Ok(v) => r matches Ok(s) && s@ == v,
            Err(f) => r matches Err(e) && failure(e) == f,
        },
{
    let ghost hv = headers_view(headers@);
    let mut i: usize = 0;
    assert(hv.subrange(0, hv.len() as int) =~= hv);
    while i < headers.len()
        invariant
            hv == headers_view(headers@),
            hv.len() == headers@.len(),
            0 <= i <= headers.len(),
            header_lookup(hv, name@) == header_lookup(hv.subrange(i as int, hv.len() as int), name@),
        decreases headers.len() - i,
    {
        let ghost rest = hv.subrange(i as int, hv.len() as int);
        assert(rest[0] == hv[i as int]);
        if str_eq(headers[i].0.as_str(), name) {
            return match &headers[i].1 {
                Some(value) => Ok(value.clone()),
                None => Err(invalid_header_error(name)),
            };
        }
        assert(rest.drop_first() =~= hv.subrange(i + 1, hv.len() as int));
        i = i + 1;
    }
    assert(hv.subrange(i as int, hv.len() as int) =~= Seq::<(Seq<char>, Option<Seq<char>>)>::empty());
    Err(missing_header_error(name))
}


/// A `Result` by its value's view, or by the status and message of its error.
pub open spec fn outcome<T: View>(r: Result<T, FederationSecurityError>) -> Result<T::V, (u16, Seq<char>)> {
    match r {
        Ok(v) => Ok(v@),
        Err(e) => Err(failure(e)),
    }
}

fn uuid_header(headers: &Vec<(String, Option<String>)>, name: &str) -> (r: Result<u128, FederationSecurityError>)
    ensures
        match spec_uuid_header(headers_view(headers@), name@) {
            Ok(v) => r == Ok::<u128, FederationSecurityError>(v),
            Err(f) => r matches Err(e) && failure(e) == f,
        },
{
    let value = required_header(headers, name)?;
    match parse_uuid(value.as_str()) {
        Some(id) => Ok(id),
        None => Err(invalid_header_error(name)),
    }
}

fn i32_header(headers: &Vec<(String, Option<String>)>, name: &str) -> (r: Result<i32, FederationSecurityError>)
    ensures
        match spec_i32_header(headers_view(headers@), name@) {
            Ok(v) => r == Ok::<i32, FederationSecurityError>(v),
            Err(f) => r matches Err(e) && failure(e) == f,
        },
{
    let value = required_header(headers, name)?;
    match parse_i32(value.as_str()) {
        Some(v) => Ok(v),
        None => Err(invalid_header_error(name)),
    }
}

fn i64_header(headers: &Vec<(String, Option<String>)>, name: &str) -> (r: Result<i64, FederationSecurityError>)
    ensures
        match spec_i64_header(headers_view(headers@), name@) {
            Ok(v) => r == Ok::<i64, FederationSecurityError>(v),
            Err(f) => r matches Err(e) && failure(e) == f,
        },
{
    let value = required_header(headers, name)?;
    match parse_i64(value.as_str()) {
        Some(v) => Ok(v),
        None => Err(invalid_header_error(name)),
    }
}

pub open spec fn abs_diff(a: int, b: int) -> int {
    if a >= b {
        a - b
    } else {
        b - a
    }
}

/// The claims an inbound request's headers make, checked in the order the
/// protocol checks them: every header is present and well-formed, the remote
/// user is of a type allowed to federate and has a name, and the request was
/// signed within `ttl` seconds of `now`.
pub open spec fn spec_check_inbound_headers(
    enabled: bool,
    ttl: i64,
    headers: Seq<(Seq<char>, Option<Seq<char>>)>,
    now: i64,
) -> Result<ClaimsView, (u16, Seq<char>)> {
    if !enabled {
        Err(forbidden(FEDERATION_DISABLED@))
    } else {
        match spec_uuid_header(headers, HEADER_NODE_ID@) {
            Err(e) => Err(e),
            Ok(node) => match spec_i32_header(headers, HEADER_KEY_VERSION@) {
                Err(e) => Err(e),
                Ok(key_version) => match spec_i64_header(headers, HEADER_TIMESTAMP@) {
                    Err(e) => Err(e),
                    Ok(timestamp) => match spec_required_header(headers, HEADER_NONCE@) {
                        Err(e) => Err(e),
                        Ok(nonce) => match spec_required_header(headers, HEADER_SIGNATURE@) {
                            Err(e) => Err(e),
                            Ok(signature) => match spec_uuid_header(
                                headers,
                                HEADER_REMOTE_LABORATORY_ID@,
                            ) {
                                Err(e) => Err(e),
                                Ok(laboratory) => match spec_uuid_header(
                                    headers,
                                    HEADER_REMOTE_USER_ID@,
                                ) {
                                    Err(e) => Err(e),
                                    Ok(user) => match spec_required_header(
                                        headers,
                                        HEADER_REMOTE_USERNAME@,
                                    ) {
                                        Err(e) => Err(e),
                                        Ok(raw_username) => match spec_required_header(
                                            headers,
                                            HEADER_REMOTE_USER_TYPE@,
                                        ) {
                                            Err(e) => Err(e),
                                            Ok(raw_user_type) => {
                                                let username = trim(raw_username);
                                                let user_type = trim(raw_user_type);
                                                if !(user_type == "lab_admin"@ || user_type
                                                    == "user"@) {
                                                    Err(
                                                        forbidden(
                                                            "Remote user type is not allowed for federation"@,
                                                        ),
                                                    )
                                                } else if username.len() == 0 {
                                                    Err(
                                                        unauthorized(
                                                            "Remote username is required"@,
                                                        ),
                                                    )
                                                } else if abs_diff(now as int, timestamp as int)
                                                    > ttl {
                                                    Err(
                                                        unauthorized(
                                                            "Federation request timestamp is outside the allowed window"@,
                                                        ),
                                                    )
                                                } else {
                                                    Ok(
                                                        ClaimsView {
                                                            remote_node_id: node,
                                                            key_version,
                                                            timestamp,
                                                            nonce,
                                                            signature,
                                                            remote_laboratory_id: laboratory,
                                                            remote_user_id: user,
                                                            remote_username: username,
                                                            remote_user_type: user_type,
                                                        },
                                                    )
                                                }
                                            },
                                        },
                                    },
                                },
                            },
                        },
                    },
                },
            },
        }
    }
}

/// The first checks of an inbound request, made on its headers alone before
/// anything is looked up.
pub fn check_inbound_headers(
    settings: &FederationSettings,
    headers: &Vec<(String, Option<String>)>,
    now: i64,
) -> (r: Result<InboundClaims, FederationSecurityError>)
    ensures
        outcome(r) == spec_check_inbound_headers(
            settings.enabled,
            settings.request_ttl_seconds,
            headers_view(headers@),
            now,
        ),
{
    if !settings.enabled {
        return Err(FederationSecurityError::Forbidden(String::from_str(FEDERATION_DISABLED)));
    }
    let remote_node_id = uuid_header(headers, HEADER_NODE_ID)?;
    let key_version = i32_header(headers, HEADER_KEY_VERSION)?;
    let timestamp = i64_header(headers, HEADER_TIMESTAMP)?;
    let nonce = required_header(headers, HEADER_NONCE)?;
    let signature = required_header(headers, HEADER_SIGNATURE)?;
    let remote_laboratory_id = uuid_header(headers, HEADER_REMOTE_LABORATORY_ID)?;
    let remote_user_id = uuid_header(headers, HEADER_REMOTE_USER_ID)?;
    let raw_username = required_header(headers, HEADER_REMOTE_USERNAME)?;
    let raw_user_type = required_header(headers, HEADER_REMOTE_USER_TYPE)?;
    let remote_username = trim_to_string(raw_username.as_str());
    let remote_user_type = trim_to_string(raw_user_type.as_str());
    if !(str_eq(remote_user_type.as_str(), "lab_admin") || str_eq(
        remote_user_type.as_str(),
        "user",
    )) {
        return Err(
            FederationSecurityError::Forbidden(
                String::from_str("Remote user type is not allowed for federation"),
            ),
        );
    }
    if remote_username.unicode_len() == 0 {
        return Err(
            FederationSecurityError::Unauthorized(String::from_str("Remote username is required")),
        );
    }
    let difference: i128 = now as i128 - timestamp as i128;
    let distance: i128 = if difference >= 0 {
        difference
    } else {
        -difference
    };
    if distance > settings.request_ttl_seconds as i128 {
        return Err(
            FederationSecurityError::Unauthorized(
                String::from_str("Federation request timestamp is outside the allowed window"),
            ),
        );
    }
    Ok(
        InboundClaims {
            remote_node_id,
            key_version,
            timestamp,
            nonce,
            signature,
            remote_laboratory_id,
            remote_user_id,
            remote_username,
            remote_user_type,
        },
    )
}


/// The `to_uppercase` of a text.
pub uninterp spec fn uppercase_of(text: Seq<char>) -> Seq<char>;

/// `str::to_uppercase`: the contract says the result is the named uppercase
/// form of the text (full Unicode case mapping, which may change its length).
#[verifier::external_body]
fn to_uppercase(text: &str) -> (upper: String)
    ensures
        upper@ == uppercase_of(text@),
{
    text.to_uppercase()
}

pub open spec fn newline() -> Seq<char> {
    seq!['\n']
}

/// The text that is signed: a version tag and then every field that the
/// signature binds, one per line.
pub open spec fn canonical_message(
    method: Seq<char>,
    path_and_query: Seq<char>,
    body_hash: Seq<char>,
    node_id: u128,
    laboratory_id: u128,
    user_id: u128,
    user_type: Seq<char>,
    timestamp: Seq<char>,
    nonce: Seq<char>,
    key_version: i32,
) -> Seq<char> {
    seq!['v', '1'] + newline() + uppercase_of(method) + newline() + path_and_query + newline()
        + body_hash + newline() + uuid_text(node_id) + newline() + uuid_text(laboratory_id)
        + newline() + uuid_text(user_id) + newline() + user_type + newline() + timestamp
        + newline() + nonce + newline() + int_text(key_version as int)
}

/// The signature of a canonical message: its HMAC-SHA256 under the shared
/// secret, in standard Base64.
pub open spec fn spec_signature(
    shared_secret: Seq<char>,
    method: Seq<char>,
    path_and_query: Seq<char>,
    body_hash: Seq<char>,
    node_id: u128,
    laboratory_id: u128,
    user_id: u128,
    user_type: Seq<char>,
    timestamp: Seq<char>,
    nonce: Seq<char>,
    key_version: i32,
) -> Seq<char> {
    base64_standard_of(
        hmac_sha256_of(
            vstd::utf8::encode_utf8(shared_secret),
            vstd::utf8::encode_utf8(
                canonical_message(
                    method,
                    path_and_query,
                    body_hash,
                    node_id,
                    laboratory_id,
                    user_id,
                    user_type,
                    timestamp,
                    nonce,
                    key_version,
                ),
            ),
        ),
    )
}

fn append_line(message: &mut String, line: &str)
    ensures
        final(message)@ == old(message)@ + newline() + line@,
{
    crate::text::push_char(message, '\n');
    message.append(line);
}

pub fn sign_canonical(
    shared_secret: &str,
    method: &str,
    path_and_query: &str,
    body_hash: &str,
    node_id: u128,
    laboratory_id: u128,
    user_id: u128,
    user_type: &str,
    timestamp: &str,
    nonce: &str,
    key_version: i32,
) -> (signature: String)
    ensures
        signature@ == spec_signature(
            shared_secret@,
            method@,
            path_and_query@,
            body_hash@,
            node_id,
            laboratory_id,
            user_id,
            user_type@,
            timestamp@,
            nonce@,
            key_version,
        ),
        base64_standard_decoded(signature@) is Some,
{
    let mut canonical = String::new();
    crate::text::push_char(&mut canonical, 'v');
    crate::text::push_char(&mut canonical, '1');
    append_line(&mut canonical, to_uppercase(method).as_str());
    append_line(&mut canonical, path_and_query);
    append_line(&mut canonical, body_hash);
    append_line(&mut canonical, format_uuid(node_id).as_str());
    append_line(&mut canonical, format_uuid(laboratory_id).as_str());
    append_line(&mut canonical, format_uuid(user_id).as_str());
    append_line(&mut canonical, user_type);
    append_line(&mut canonical, timestamp);
    append_line(&mut canonical, nonce);
    append_line(&mut canonical, format_i64(key_version as i64).as_str());
    assert(canonical@ =~= canonical_message(
        method@,
        path_and_query@,
        body_hash@,
        node_id,
        laboratory_id,
        user_id,
        user_type@,
        timestamp@,
        nonce@,
        key_version,
    ));
    hmac_sha256_base64(shared_secret, canonical.as_str())
}

pub open spec fn invalid_signature() -> (u16, Seq<char>) {
    unauthorized("Invalid federation signature"@)
}

pub open spec fn signature_mismatch() -> (u16, Seq<char>) {
    unauthorized("Federation signature mismatch"@)
}

/// A provided signature is accepted exactly when it and the expected one are
/// valid Base64 of the same bytes.
pub open spec fn spec_verify_signature(provided: Seq<char>, expected: Seq<char>) -> Result<(), (u16, Seq<char>)> {
    match base64_standard_decoded(provided) {
        None => Err(invalid_signature()),
        Some(p) => match base64_standard_decoded(expected) {
            None => Err(invalid_signature()),
            Some(q) => if p == q {
                Ok(())
            } else {
                Err(signature_mismatch())
            },
        },
    }
}

proof fn lemma_or_xor_zero(acc: u8, x: u8, y: u8)
    ensures
        (acc | (x ^ y)) == 0 <==> (acc == 0 && x == y),
{
    assert((acc | (x ^ y)) == 0 <==> (acc == 0 && x == y)) by (bit_vector);
}

/// Compares two signatures in time that depends only on their length.
pub fn verify_signature(provided: &str, expected: &str) -> (r: Result<(), FederationSecurityError>)
    ensures
        match spec_verify_signature(provided@, expected@) {
            Ok(()) => r is Ok,
            Err(f) => r matches Err(e) && failure(e) == f,
        },
{
    let provided = match decode_base64(provided) {
        Some(bytes) => bytes,
        None => {
            return Err(
                FederationSecurityError::Unauthorized(String::from_str("Invalid federation signature")),
            );
        },
    };
    let expected = match decode_base64(expected) {
        Some(bytes) => bytes,
        None => {
            return Err(
                FederationSecurityError::Unauthorized(String::from_str("Invalid federation signature")),
            );
        },
    };
    let mut same = false;
    if provided.len() == expected.len() {
        let mut acc: u8 = 0;
        let n = provided.len();
        for i in 0..n
            invariant
                n == provided@.len(),
                n == expected@.len(),
                acc == 0 <==> forall|j: int| 0 <= j < i ==> provided@[j] == expected@[j],
        {
            proof {
                lemma_or_xor_zero(acc, provided@[i as int], expected@[i as int]);
            }
            acc = acc | (provided[i] ^ expected[i]);
        }
        same = acc == 0;
    }
    if same {
        assert(provided@ =~= expected@);
        Ok(())
    } else {
        assert(provided@.len() == expected@.len() ==> exists|j: int|
            0 <= j < provided@.len() && provided@[j] != expected@[j]);
        Err(FederationSecurityError::Unauthorized(String::from_str("Federation signature mismatch")))
    }
}


pub struct RemoteNodeView {
    pub remote_node_id: u128,
    pub base_url: Seq<char>,
    pub shared_secret: Seq<char>,
    pub tls_certificate_sha256: Option<Seq<char>>,
    pub status: Seq<char>,
    pub key_version: i32,
}

impl View for RemoteNodeRow {
    type V = RemoteNodeView;

    open spec fn view(&self) -> RemoteNodeView {
        RemoteNodeView {
            remote_node_id: self.remote_node_id,
            base_url: self.base_url@,
            shared_secret: self.shared_secret@,
            tls_certificate_sha256: match self.tls_certificate_sha256 {
                Some(pin) => Some(pin@),
                None => None,
            },
            status: self.status@,
            key_version: self.key_version,
        }
    }
}

/// What an unknown node is answered: exactly what a known node gets when the
/// same signature fails to verify. A signature that is not Base64 is invalid;
/// any other cannot match, since no secret is shared with an unknown node.
pub open spec fn spec_unknown_node_answer(signature: Seq<char>) -> (u16, Seq<char>) {
    match base64_standard_decoded(signature) {
        None => invalid_signature(),
        Some(_) => signature_mismatch(),
    }
}

/// The node that signed the request must be known, active, and signing with
/// its current key. An unknown node is answered like a known one whose
/// signature fails to verify, so probing cannot tell the two apart.
pub open spec fn spec_check_remote_node(claims: ClaimsView, node: Option<RemoteNodeView>) -> Result<RemoteNodeView, (u16, Seq<char>)> {
    match node {
        None => Err(spec_unknown_node_answer(claims.signature)),
        Some(node) => if node.status != "active"@ || node.key_version != claims.key_version {
            Err(unauthorized("Federation node is not active or key version is invalid"@))
        } else {
            Ok(node)
        },
    }
}

/// The second check of an inbound request, on the node its headers name.
pub fn check_remote_node(claims: &InboundClaims, node: Option<RemoteNodeRow>) -> (r: Result<RemoteNodeRow, FederationSecurityError>)
    ensures
        outcome(r) == spec_check_remote_node(claims@, match node {
            Some(n) => Some(n@),
            None => None,
        }),
{
    match node {
        None => {
            let message = match decode_base64(claims.signature.as_str()) {
                None => String::from_str("Invalid federation signature"),
                Some(_) => String::from_str("Federation signature mismatch"),
            };
            Err(FederationSecurityError::Unauthorized(message))
        },
        Some(node) => {
            if !str_eq(node.status.as_str(), "active") || node.key_version != claims.key_version {
                Err(
                    FederationSecurityError::Unauthorized(
                        String::from_str("Federation node is not active or key version is invalid"),
                    ),
                )
            } else {
                Ok(node)
            }
        },
    }
}

pub open spec fn no_trust() -> (u16, Seq<char>) {
    forbidden("No active federation trust between these laboratories"@)
}

/// The third check: the two laboratories must trust each other.
pub fn check_trust(trust_exists: bool) -> (r: Result<(), FederationSecurityError>)
    ensures
        trust_exists ==> r is Ok,
        !trust_exists ==> (r matches Err(e) && failure(e) == no_trust()),
{
    if trust_exists {
        Ok(())
    } else {
        Err(
            FederationSecurityError::Forbidden(
                String::from_str("No active federation trust between these laboratories"),
            ),
        )
    }
}

/// The signature the sender should have made over this request, under the
/// secret this deployment shares with it.
pub open spec fn spec_expected_signature(
    shared_secret: Seq<char>,
    claims: ClaimsView,
    method: Seq<char>,
    path_and_query: Seq<char>,
    body: Seq<u8>,
) -> Seq<char> {
    spec_signature(
        shared_secret,
        method,
        path_and_query,
        hex_lower(sha256_of(body)),
        claims.remote_node_id,
        claims.remote_laboratory_id,
        claims.remote_user_id,
        claims.remote_user_type,
        int_text(claims.timestamp as int),
        claims.nonce,
        claims.key_version,
    )
}

/// The last check before the nonce is spent: the signature covers the method,
/// the path and query, the hash of the exact body bytes, and every claim.
pub fn check_inbound_signature(
    node: &RemoteNodeRow,
    claims: &InboundClaims,
    method: &str,
    path_and_query: &str,
    body: &[u8],
) -> (r: Result<(), FederationSecurityError>)
    ensures
        match spec_verify_signature(
            claims.signature@,
            spec_expected_signature(node.shared_secret@, claims@, method@, path_and_query@, body@),
        ) {
            Ok(()) => r is Ok,
            Err(f) => r matches Err(e) && failure(e) == f,
        },
        r matches Err(e) ==> failure(e) == spec_unknown_node_answer(claims.signature@),
{
    let body_hash = sha256_hex(body);
    let timestamp = format_i64(claims.timestamp);
    let expected = sign_canonical(
        node.shared_secret.as_str(),
        method,
        path_and_query,
        body_hash.as_str(),
        claims.remote_node_id,
        claims.remote_laboratory_id,
        claims.remote_user_id,
        claims.remote_user_type.as_str(),
        timestamp.as_str(),
        claims.nonce.as_str(),
        claims.key_version,
    );
    verify_signature(claims.signature.as_str(), expected.as_str())
}

/// What a proved request says about its sender.
pub fn inbound_context(node: RemoteNodeRow, claims: InboundClaims) -> (context: InboundFederationContext)
    ensures
        context.remote_node == node,
        context.remote_laboratory_id == claims.remote_laboratory_id,
        context.remote_user_id == claims.remote_user_id,
        context.remote_username == claims.remote_username,
        context.remote_user_type == claims.remote_user_type,
{
    InboundFederationContext {
        remote_node: node,
        remote_laboratory_id: claims.remote_laboratory_id,
        remote_user_id: claims.remote_user_id,
        remote_username: claims.remote_username,
        remote_user_type: claims.remote_user_type,
    }
}

pub struct IdentityView {
    pub local_node_id: u128,
    pub local_laboratory_id: u128,
    pub user_id: u128,
    pub username: Seq<char>,
    pub user_type: Seq<char>,
}

impl View for OutboundFederationIdentity {
    type V = IdentityView;

    open spec fn view(&self) -> IdentityView {
        IdentityView {
            local_node_id: self.local_node_id,
            local_laboratory_id: self.local_laboratory_id,
            user_id: self.user_id,
            username: self.username@,
            user_type: self.user_type@,
        }
    }
}

/// The headers a signed outbound request carries, in the order they are sent.
pub open spec fn spec_signed_headers(
    method: Seq<char>,
    path_and_query: Seq<char>,
    body: Seq<u8>,
    remote_node: RemoteNodeView,
    identity: IdentityView,
    timestamp: i64,
    nonce: Seq<char>,
) -> Seq<(Seq<char>, Seq<char>)> {
    seq![
        (HEADER_NODE_ID@, uuid_text(identity.local_node_id)),
        (HEADER_KEY_VERSION@, int_text(remote_node.key_version as int)),
        (HEADER_TIMESTAMP@, int_text(timestamp as int)),
        (HEADER_NONCE@, nonce),
        (
            HEADER_SIGNATURE@,
            spec_signature(
                remote_node.shared_secret,
                method,
                path_and_query,
                hex_lower(sha256_of(body)),
                identity.local_node_id,
                identity.local_laboratory_id,
                identity.user_id,
                identity.user_type,
                int_text(timestamp as int),
                nonce,
                remote_node.key_version,
            ),
        ),
        (HEADER_REMOTE_LABORATORY_ID@, uuid_text(identity.local_laboratory_id)),
        (HEADER_REMOTE_USER_ID@, uuid_text(identity.user_id)),
        (HEADER_REMOTE_USERNAME@, identity.username),
        (HEADER_REMOTE_USER_TYPE@, identity.user_type),
    ]
}

pub open spec fn pairs_view(pairs: Seq<(String, String)>) -> Seq<(Seq<char>, Seq<char>)> {
    pairs.map_values(|p: (String, String)| (p.0@, p.1@))
}

/// What holds of the headers `signed_headers_at` produces: they are
/// `spec_signed_headers`, and every id, number and signature in them reads
/// back as what was written.
pub open spec fn produced_signed_headers(
    headers: Seq<(Seq<char>, Seq<char>)>,
    method: Seq<char>,
    path_and_query: Seq<char>,
    body: Seq<u8>,
    remote_node: RemoteNodeView,
    identity: IdentityView,
    timestamp: i64,
    nonce: Seq<char>,
) -> bool {
    &&& headers == spec_signed_headers(
        method,
        path_and_query,
        body,
        remote_node,
        identity,
        timestamp,
        nonce,
    )
    &&& uuid_from_text(headers[0].1) == Some(identity.local_node_id)
    &&& base64_standard_decoded(headers[4].1) is Some
    &&& uuid_from_text(headers[5].1) == Some(identity.local_laboratory_id)
    &&& uuid_from_text(headers[6].1) == Some(identity.user_id)
}

fn header_pair(name: &str, value: String) -> (pair: (String, String))
    ensures
        pair.0@ == name@,
        pair.1 == value,
{
    (String::from_str(name), value)
}

/// The headers that sign an outbound request made at `timestamp` with
/// `nonce`.
pub fn signed_headers_at(
    method: &str,
    path_and_query: &str,
    body: &[u8],
    remote_node: &RemoteNodeRow,
    identity: &OutboundFederationIdentity,
    timestamp: i64,
    nonce: String,
) -> (headers: Vec<(String, String)>)
    ensures
        produced_signed_headers(
            pairs_view(headers@),
            method@,
            path_and_query@,
            body@,
            remote_node@,
            identity@,
            timestamp,
            nonce@,
        ),
{
    let timestamp_text = format_i64(timestamp);
    let body_hash = sha256_hex(body);
    let signature = sign_canonical(
        remote_node.shared_secret.as_str(),
        method,
        path_and_query,
        body_hash.as_str(),
        identity.local_node_id,
        identity.local_laboratory_id,
        identity.user_id,
        identity.user_type.as_str(),
        timestamp_text.as_str(),
        nonce.as_str(),
        remote_node.key_version,
    );
    let mut headers: Vec<(String, String)> = Vec::new();
    headers.push(header_pair(HEADER_NODE_ID, format_uuid(identity.local_node_id)));
    headers.push(header_pair(HEADER_KEY_VERSION, format_i64(remote_node.key_version as i64)));
    headers.push(header_pair(HEADER_TIMESTAMP, timestamp_text));
    headers.push(header_pair(HEADER_NONCE, nonce));
    headers.push(header_pair(HEADER_SIGNATURE, signature));
    headers.push(header_pair(HEADER_REMOTE_LABORATORY_ID, format_uuid(identity.local_laboratory_id)));
    headers.push(header_pair(HEADER_REMOTE_USER_ID, format_uuid(identity.user_id)));
    headers.push(header_pair(HEADER_REMOTE_USERNAME, identity.username.clone()));
    headers.push(header_pair(HEADER_REMOTE_USER_TYPE, identity.user_type.clone()));
    assert(pairs_view(headers@) =~= spec_signed_headers(
        method@,
        path_and_query@,
        body@,
        remote_node@,
        identity@,
        timestamp,
        nonce@,
    ));
    headers
}

/// The seconds since the Unix epoch now.
#[verifier::external_body]
fn unix_timestamp_now() -> i64 {
    chrono::Utc::now().timestamp()
}

/// The first checks of an inbound request arriving now: as
/// `check_inbound_headers`, at the present time by the system clock.
pub fn check_inbound_headers_now(
    settings: &FederationSettings,
    headers: &Vec<(String, Option<String>)>,
) -> (r: Result<InboundClaims, FederationSecurityError>)
    ensures
        exists|now: i64|
            outcome(r) == spec_check_inbound_headers(
                settings.enabled,
                settings.request_ttl_seconds,
                headers_view(headers@),
                now,
            ),
{
    let now = unix_timestamp_now();
    check_inbound_headers(settings, headers, now)
}

/// The headers that sign an outbound request made now, with a fresh nonce of
/// 24 random bytes; `None` when the operating system cannot supply them.
pub fn signed_headers(
    method: &str,
    path_and_query: &str,
    body: &[u8],
    remote_node: &RemoteNodeRow,
    identity: &OutboundFederationIdentity,
) -> (headers: Option<Vec<(String, String)>>)
    ensures
        headers is Some ==> exists|timestamp: i64, nonce_bytes: Seq<u8>|
            nonce_bytes.len() == 24 && produced_signed_headers(
                pairs_view(headers->Some_0@),
                method@,
                path_and_query@,
                body@,
                remote_node@,
                identity@,
                timestamp,
                base64_url_safe_of(nonce_bytes),
            ),
{
    let timestamp = unix_timestamp_now();
    match generate_token(24) {
        Some(nonce) => {
            let ghost bytes = choose|bytes: Seq<u8>|
                bytes.len() == 24 && nonce@ == base64_url_safe_of(bytes);
            let headers = signed_headers_at(
                method,
                path_and_query,
                body,
                remote_node,
                identity,
                timestamp,
                nonce,
            );
            let signed = Some(headers);
            assert(produced_signed_headers(
                pairs_view(signed->Some_0@),
                method@,
                path_and_query@,
                body@,
                remote_node@,
                identity@,
                timestamp,
                base64_url_safe_of(bytes),
            ));
            signed
        },
        None => None,
    }
}


/// How many seconds from `checked_at` a request's nonce is remembered: until
/// a second after its stamp leaves the window, so that no copy of the
/// request can pass the header checks once the nonce is forgotten. A stamp
/// ahead of the check keeps the nonce for longer by as much.
pub open spec fn nonce_lifetime(timestamp: i64, checked_at: i64, ttl: i64) -> int {
    ttl + (if timestamp > checked_at {
        timestamp - checked_at
    } else {
        0int
    }) + 1
}

/// What the checks of an inbound request have established so far: the
/// claims its headers make, the node that sent it once that is known, and
/// the request's context.
pub struct InboundProgress {
    pub claims: ClaimsView,
    pub node: Option<RemoteNodeView>,
    pub target_laboratory_id: u128,
    pub request_ttl_seconds: i64,
    /// The second the headers were checked in.
    pub checked_at: i64,
}

/// An inbound request whose headers passed their checks, waiting for the node
/// they name to be looked up.
#[derive(Debug)]
pub struct AwaitingNode {
    claims: InboundClaims,
    target_laboratory_id: u128,
    request_ttl_seconds: i64,
    checked_at: i64,
}

/// An inbound request from a known, active node, waiting for the trust
/// between the two laboratories to be looked up.
#[derive(Debug)]
pub struct AwaitingTrust {
    claims: InboundClaims,
    node: RemoteNodeRow,
    target_laboratory_id: u128,
    request_ttl_seconds: i64,
    checked_at: i64,
}

/// An inbound request whose signature verified, waiting for its nonce to be
/// recorded. Only `after_trust_lookup` makes one, so no nonce is spent for a
/// request that has not proved its signature.
#[derive(Debug)]
pub struct AwaitingNonce {
    claims: InboundClaims,
    node: RemoteNodeRow,
    target_laboratory_id: u128,
    request_ttl_seconds: i64,
    checked_at: i64,
}

impl View for AwaitingNode {
    type V = InboundProgress;

    closed spec fn view(&self) -> InboundProgress {
        InboundProgress {
            claims: self.claims@,
            node: None,
            target_laboratory_id: self.target_laboratory_id,
            request_ttl_seconds: self.request_ttl_seconds,
            checked_at: self.checked_at,
        }
    }
}

impl View for AwaitingTrust {
    type V = InboundProgress;

    closed spec fn view(&self) -> InboundProgress {
        InboundProgress {
            claims: self.claims@,
            node: Some(self.node@),
            target_laboratory_id: self.target_laboratory_id,
            request_ttl_seconds: self.request_ttl_seconds,
            checked_at: self.checked_at,
        }
    }
}

impl View for AwaitingNonce {
    type V = InboundProgress;

    closed spec fn view(&self) -> InboundProgress {
        InboundProgress {
            claims: self.claims@,
            node: Some(self.node@),
            target_laboratory_id: self.target_laboratory_id,
            request_ttl_seconds: self.request_ttl_seconds,
            checked_at: self.checked_at,
        }
    }
}

impl AwaitingNode {
    /// The node to look up: the one the headers name.
    pub fn remote_node_id(&self) -> (id: u128)
        ensures
            id == self@.claims.remote_node_id,
    {
        self.claims.remote_node_id
    }
}

impl AwaitingTrust {
    /// The trust to look up: this laboratory's, with the laboratory the
    /// headers name at the node they name.
    pub fn trust_to_look_up(&self) -> (key: (u128, u128, u128))
        ensures
            key == (
                self@.target_laboratory_id,
                self@.claims.remote_node_id,
                self@.claims.remote_laboratory_id,
            ),
    {
        (self.target_laboratory_id, self.claims.remote_node_id, self.claims.remote_laboratory_id)
    }
}

impl AwaitingNonce {
    /// The node whose nonce is recorded.
    pub fn remote_node_id(&self) -> (id: u128)
        ensures
            id == self@.claims.remote_node_id,
    {
        self.claims.remote_node_id
    }

    /// The nonce to record.
    pub fn nonce(&self) -> (nonce: &str)
        ensures
            nonce@ == self@.claims.nonce,
    {
        self.claims.nonce.as_str()
    }

    /// How many seconds from the check the nonce is remembered: for as long
    /// as the request's stamp is within the window, and a second more.
    pub fn nonce_lifetime_seconds(&self) -> (lifetime: i128)
        ensures
            lifetime == nonce_lifetime(
                self@.claims.timestamp,
                self@.checked_at,
                self@.request_ttl_seconds,
            ),
    {
        let ahead: i128 = if self.claims.timestamp > self.checked_at {
            self.claims.timestamp as i128 - self.checked_at as i128
        } else {
            0
        };
        self.request_ttl_seconds as i128 + ahead + 1
    }
}

/// The first step of verifying an inbound request for `target_laboratory_id`:
/// the checks on its headers alone.
pub open spec fn spec_begin_inbound(
    settings: SettingsView,
    headers: Seq<(Seq<char>, Option<Seq<char>>)>,
    now: i64,
    target_laboratory_id: u128,
) -> Result<InboundProgress, (u16, Seq<char>)> {
    match spec_check_inbound_headers(settings.enabled, settings.request_ttl_seconds, headers, now) {
        Ok(claims) => Ok(
            InboundProgress {
                claims,
                node: None,
                target_laboratory_id,
                request_ttl_seconds: settings.request_ttl_seconds,
                checked_at: now,
            },
        ),
        Err(f) => Err(f),
    }
}

pub fn begin_inbound(
    settings: &FederationSettings,
    headers: &Vec<(String, Option<String>)>,
    now: i64,
    target_laboratory_id: u128,
) -> (r: Result<AwaitingNode, FederationSecurityError>)
    ensures
        outcome(r) == spec_begin_inbound(settings@, headers_view(headers@), now, target_laboratory_id),
{
    match check_inbound_headers(settings, headers, now) {
        Ok(claims) => Ok(
            AwaitingNode {
                claims,
                target_laboratory_id,
                request_ttl_seconds: settings.request_ttl_seconds,
                checked_at: now,
            },
        ),
        Err(e) => Err(e),
    }
}

/// `begin_inbound` at the present time by the system clock.
pub fn begin_inbound_now(
    settings: &FederationSettings,
    headers: &Vec<(String, Option<String>)>,
    target_laboratory_id: u128,
) -> (r: Result<AwaitingNode, FederationSecurityError>)
    ensures
        exists|now: i64|
            outcome(r) == spec_begin_inbound(settings@, headers_view(headers@), now, target_laboratory_id),
{
    let now = unix_timestamp_now();
    begin_inbound(settings, headers, now, target_laboratory_id)
}

/// A lookup's result by its view; a failed lookup by its message.
pub open spec fn node_lookup_view(found: Result<Option<RemoteNodeRow>, String>) -> Result<Option<RemoteNodeView>, Seq<char>> {
    match found {
        Ok(Some(node)) => Ok(Some(node@)),
        Ok(None) => Ok(None),
        Err(m) => Err(m@),
    }
}

/// What an unexpected failure of a lookup is answered.
pub open spec fn lookup_failed(message: Seq<char>) -> (u16, Seq<char>) {
    (500, message)
}

/// The second step: the node the headers name, as the lookup found it.
pub open spec fn spec_after_node_lookup(
    state: InboundProgress,
    found: Result<Option<RemoteNodeView>, Seq<char>>,
) -> Result<InboundProgress, (u16, Seq<char>)> {
    match found {
        Err(m) => Err(lookup_failed(m)),
        Ok(node) => match spec_check_remote_node(state.claims, node) {
            Ok(n) => Ok(
                InboundProgress {
                    claims: state.claims,
                    node: Some(n),
                    target_laboratory_id: state.target_laboratory_id,
                    request_ttl_seconds: state.request_ttl_seconds,
                    checked_at: state.checked_at,
                },
            ),
            Err(f) => Err(f),
        },
    }
}

pub fn after_node_lookup(state: AwaitingNode, found: Result<Option<RemoteNodeRow>, String>) -> (r: Result<AwaitingTrust, FederationSecurityError>)
    ensures
        outcome(r) == spec_after_node_lookup(state@, node_lookup_view(found)),
{
    match found {
        Err(m) => Err(FederationSecurityError::Unexpected(m)),
        Ok(node) => match check_remote_node(&state.claims, node) {
            Ok(node) => Ok(
                AwaitingTrust {
                    claims: state.claims,
                    node,
                    target_laboratory_id: state.target_laboratory_id,
                    request_ttl_seconds: state.request_ttl_seconds,
                    checked_at: state.checked_at,
                },
            ),
            Err(e) => Err(e),
        },
    }
}

pub open spec fn trust_lookup_view(found: Result<bool, String>) -> Result<bool, Seq<char>> {
    match found {
        Ok(b) => Ok(b),
        Err(m) => Err(m@),
    }
}

/// The third step: the trust between the laboratories, as the lookup found
/// it, and then the signature over the request as it arrived.
pub open spec fn spec_after_trust_lookup(
    state: InboundProgress,
    trust_found: Result<bool, Seq<char>>,
    method: Seq<char>,
    path_and_query: Seq<char>,
    body: Seq<u8>,
) -> Result<InboundProgress, (u16, Seq<char>)> {
    match trust_found {
        Err(m) => Err(lookup_failed(m)),
        Ok(false) => Err(no_trust()),
        Ok(true) => match spec_verify_signature(
            state.claims.signature,
            spec_expected_signature(
                state.node->Some_0.shared_secret,
                state.claims,
                method,
                path_and_query,
                body,
            ),
        ) {
            Ok(()) => Ok(state),
            Err(f) => Err(f),
        },
    }
}

pub fn after_trust_lookup(
    state: AwaitingTrust,
    trust_found: Result<bool, String>,
    method: &str,
    path_and_query: &str,
    body: &[u8],
) -> (r: Result<AwaitingNonce, FederationSecurityError>)
    ensures
        outcome(r) == spec_after_trust_lookup(
            state@,
            trust_lookup_view(trust_found),
            method@,
            path_and_query@,
            body@,
        ),
{
    match trust_found {
        Err(m) => Err(FederationSecurityError::Unexpected(m)),
        Ok(found) => match check_trust(found) {
            Err(e) => Err(e),
            Ok(()) => match check_inbound_signature(&state.node, &state.claims, method, path_and_query, body) {
                Err(e) => Err(e),
                Ok(()) => Ok(
                    AwaitingNonce {
                        claims: state.claims,
                        node: state.node,
                        target_laboratory_id: state.target_laboratory_id,
                        request_ttl_seconds: state.request_ttl_seconds,
                        checked_at: state.checked_at,
                    },
                ),
            },
        },
    }
}

/// How recording a nonce that was already recorded is reported: the
/// conflict names the replay; every other failure is kept.
pub fn replayed_nonce_error(e: FederationDatabaseError) -> (r: FederationDatabaseError)
    ensures
        e is Conflict ==> r is Conflict && r.spec_message()
            == "Federation request nonce has already been used"@,
        !(e is Conflict) ==> r == e,
{
    match e {
        FederationDatabaseError::Conflict(_) => FederationDatabaseError::Conflict(
            String::from_str("Federation request nonce has already been used"),
        ),
        other => other,
    }
}

/// The last step: once the nonce is recorded the request is proved, and what
/// it says about its sender is trusted; a failure to record it is answered as
/// `FederationSecurityError::from` maps it.
pub fn after_nonce_recorded(state: AwaitingNonce, recorded: Result<(), FederationDatabaseError>) -> (r: Result<InboundFederationContext, FederationSecurityError>)
    ensures
        match recorded {
            Ok(()) => r matches Ok(context) && {
                &&& Some(context.remote_node@) == state@.node
                &&& context.remote_laboratory_id == state@.claims.remote_laboratory_id
                &&& context.remote_user_id == state@.claims.remote_user_id
                &&& context.remote_username@ == state@.claims.remote_username
                &&& context.remote_user_type@ == state@.claims.remote_user_type
            },
            Err(d) => r matches Err(e) && e == <FederationSecurityError as FromSpec<
                FederationDatabaseError,
            >>::from_spec(d),
        },
{
    match recorded {
        Err(d) => Err(FederationSecurityError::from(d)),
        Ok(()) => Ok(inbound_context(state.node, state.claims)),
    }
}

/// What recording a nonce twice, while the first is still remembered, is
/// answered.
pub open spec fn replayed_nonce() -> (u16, Seq<char>) {
    unauthorized("Federation request nonce has already been used"@)
}

/// The conflict `replayed_nonce_error` reports is answered as a replay.
pub proof fn replayed_nonces_are_answered_as_replays(e: FederationDatabaseError)
    requires
        e is Conflict,
        e.spec_message() == "Federation request nonce has already been used"@,
    ensures
        failure(<FederationSecurityError as FromSpec<FederationDatabaseError>>::from_spec(e)) == replayed_nonce(),
{
}

/// The nonces a deployment remembers after `held` once those forgotten by
/// `now` are gone: a nonce is forgotten at the second it expires.
pub open spec fn live_nonces(held: Map<(u128, Seq<char>), int>, now: i64) -> Map<(u128, Seq<char>), int> {
    Map::new(
        |key: (u128, Seq<char>)| held.dom().contains(key) && held[key] > now,
        |key: (u128, Seq<char>)| held[key],
    )
}

/// Recording the nonce of a proved request at `now`, against the nonces
/// `held` by remote node and nonce with the second each expires: the
/// expired ones are forgotten first; a nonce still remembered is a replay;
/// otherwise it is remembered for `lifetime` seconds.
pub open spec fn spec_remember_nonce(
    held: Map<(u128, Seq<char>), int>,
    remote_node_id: u128,
    nonce: Seq<char>,
    lifetime: int,
    now: i64,
) -> Result<Map<(u128, Seq<char>), int>, (u16, Seq<char>)> {
    let live = live_nonces(held, now);
    if live.dom().contains((remote_node_id, nonce)) {
        Err(replayed_nonce())
    } else {
        Ok(live.insert((remote_node_id, nonce), now + lifetime))
    }
}

/// Recording a nonce remembers it until `lifetime` seconds from `now`, and
/// keeps every other nonce that has not expired as it was.
pub proof fn recorded_nonces_are_kept_until_they_expire(
    held: Map<(u128, Seq<char>), int>,
    remote_node_id: u128,
    nonce: Seq<char>,
    lifetime: int,
    now: i64,
    other: (u128, Seq<char>),
)
    requires
        spec_remember_nonce(held, remote_node_id, nonce, lifetime, now) is Ok,
    ensures
        ({
            let after = spec_remember_nonce(held, remote_node_id, nonce, lifetime, now)->Ok_0;
            &&& after.dom().contains((remote_node_id, nonce))
            &&& after[(remote_node_id, nonce)] == now + lifetime
            &&& held.dom().contains(other) && held[other] > now ==> after.dom().contains(other)
                && after[other] == held[other]
        }),
{
}

/// The same signed request is not accepted twice. Once a request has passed
/// the header checks at `first_now` and its nonce has been recorded for
/// `nonce_lifetime` seconds (what `AwaitingNonce::nonce_lifetime_seconds`
/// gives), the same request made again at any other second is refused:
/// while the nonce is remembered because recording it again is a replay,
/// and after that by the header checks, since its stamp has then left the
/// window. `held` is what the deployment remembers at the second call; as
/// `recorded_nonces_are_kept_until_they_expire` shows, from the first
/// recording on it holds the nonce until at least the second it expires.
pub proof fn signed_requests_are_not_accepted_twice(
    settings: SettingsView,
    headers: Seq<(Seq<char>, Option<Seq<char>>)>,
    target_laboratory_id: u128,
    first_now: i64,
    later_now: i64,
    held: Map<(u128, Seq<char>), int>,
)
    requires
        spec_begin_inbound(settings, headers, first_now, target_laboratory_id) is Ok,
        ({
            let claims = spec_begin_inbound(settings, headers, first_now, target_laboratory_id)->Ok_0.claims;
            let key = (claims.remote_node_id, claims.nonce);
            let expires = first_now + nonce_lifetime(claims.timestamp, first_now, settings.request_ttl_seconds);
            &&& held.dom().contains(key) ==> held[key] >= expires
            &&& later_now < expires ==> held.dom().contains(key)
        }),
    ensures
        ({
            let claims = spec_begin_inbound(settings, headers, first_now, target_laboratory_id)->Ok_0.claims;
            ||| spec_begin_inbound(settings, headers, later_now, target_laboratory_id) is Err
            ||| spec_remember_nonce(
                held,
                claims.remote_node_id,
                claims.nonce,
                nonce_lifetime(claims.timestamp, later_now, settings.request_ttl_seconds),
                later_now,
            ) == Err::<Map<(u128, Seq<char>), int>, (u16, Seq<char>)>(replayed_nonce())
        }),
{
    let claims = spec_begin_inbound(settings, headers, first_now, target_laboratory_id)->Ok_0.claims;
    let key = (claims.remote_node_id, claims.nonce);
    let expires = first_now + nonce_lifetime(claims.timestamp, first_now, settings.request_ttl_seconds);
    if later_now < expires {
        assert(live_nonces(held, later_now).dom().contains(key));
    } else {
        assert(abs_diff(later_now as int, claims.timestamp as int) > settings.request_ttl_seconds);
    }
}

/// A nonce is spent only for a request that proved its signature: a request
/// reaches the nonce step only from an active trust and a signature that
/// verified under the secret of the node it names, and that step leaves the
/// node and the claims as they were.
pub proof fn nonces_are_spent_only_for_signed_requests(
    state: InboundProgress,
    trust_found: Result<bool, Seq<char>>,
    method: Seq<char>,
    path_and_query: Seq<char>,
    body: Seq<u8>,
)
    requires
        spec_after_trust_lookup(state, trust_found, method, path_and_query, body) is Ok,
    ensures
        trust_found == Ok::<bool, Seq<char>>(true),
        spec_verify_signature(
            state.claims.signature,
            spec_expected_signature(state.node->Some_0.shared_secret, state.claims, method, path_and_query, body),
        ) is Ok,
        spec_after_trust_lookup(state, trust_found, method, path_and_query, body)->Ok_0 == state,
{
}

/// Probing cannot tell an unknown node from a known one that fails to sign:
/// when the node a request names is unknown, the request is answered exactly
/// as it would be were that node known, active and trusted and the signature
/// failed to verify under its secret.
pub proof fn unknown_nodes_are_answered_like_bad_signatures(
    state: InboundProgress,
    node: RemoteNodeView,
    method: Seq<char>,
    path_and_query: Seq<char>,
    body: Seq<u8>,
)
    requires
        node.status == "active"@,
        node.key_version == state.claims.key_version,
    ensures
        spec_after_node_lookup(state, Ok(None)) is Err,
        ({
            let known = spec_after_node_lookup(state, Ok(Some(node)))->Ok_0;
            let checked = spec_after_trust_lookup(known, Ok(true), method, path_and_query, body);
            &&& spec_after_node_lookup(state, Ok(Some(node))) is Ok
            &&& checked is Err ==> checked == spec_after_node_lookup(state, Ok(None))
        }),
{
    let claims = state.claims;
    crate::crypto::lemma_base64_standard_round_trip(
        hmac_sha256_of(
            vstd::utf8::encode_utf8(node.shared_secret),
            vstd::utf8::encode_utf8(
                canonical_message(
                    method,
                    path_and_query,
                    hex_lower(sha256_of(body)),
                    claims.remote_node_id,
                    claims.remote_laboratory_id,
                    claims.remote_user_id,
                    claims.remote_user_type,
                    int_text(claims.timestamp as int),
                    claims.nonce,
                    claims.key_version,
                ),
            ),
        ),
    );
}

/// The headers as they arrive after being sent: every value readable.
pub open spec fn transported(headers: Seq<(Seq<char>, Seq<char>)>) -> Seq<(Seq<char>, Option<Seq<char>>)> {
    headers.map_values(|p: (Seq<char>, Seq<char>)| (p.0, Some(p.1)))
}

proof fn lemma_lookup_at(h: Seq<(Seq<char>, Option<Seq<char>>)>, names: Seq<Seq<char>>, k: int)
    requires
        0 <= k < h.len(),
        h.len() <= names.len(),
        forall|i: int| 0 <= i < h.len() ==> h[i].0 == #[trigger] names[i],
        forall|i: int, j: int| 0 <= i < j < names.len() ==> names[i] != names[j],
    ensures
        header_lookup(h, names[k]) == Some(h[k].1),
    decreases k,
{
    if k > 0 {
        assert(h[0].0 == names[0]);
        assert(names[0] != names[k]);
        let t = h.drop_first();
        let m = names.drop_first();
        assert forall|i: int| 0 <= i < t.len() implies t[i].0 == #[trigger] m[i] by {
            assert(t[i] == h[i + 1]);
        }
        lemma_lookup_at(t, m, k - 1);
        assert(t[k - 1] == h[k]);
    }
}

proof fn lemma_trim_unchanged(s: Seq<char>)
    requires
        s.len() > 0,
        !crate::text::spec_is_whitespace(s[0]),
        !crate::text::spec_is_whitespace(s.last()),
    ensures
        trim(s) == s,
{
    assert(crate::text::trim_start(s) == s);
    assert(crate::text::trim_end(s) == s);
}

/// A request signed with `signed_headers_at` is accepted by the deployment it
/// is sent to, and that deployment learns exactly who sent it: provided the
/// two share the secret and key version, the receiver holds the sender as an
/// active node, the user is a laboratory administrator or user with a name
/// that needs no trimming, and the request arrives within the allowed window
/// of a deployment with federation on. It then passes every step up to
/// recording its nonce, given an active trust.
pub proof fn signed_request_is_accepted(
    headers: Seq<(Seq<char>, Seq<char>)>,
    method: Seq<char>,
    path_and_query: Seq<char>,
    body: Seq<u8>,
    sender_view_of_receiver: RemoteNodeView,
    receiver_view_of_sender: RemoteNodeView,
    identity: IdentityView,
    timestamp: i64,
    nonce: Seq<char>,
    ttl: i64,
    now: i64,
    settings: SettingsView,
    target_laboratory_id: u128,
)
    requires
        produced_signed_headers(
            headers,
            method,
            path_and_query,
            body,
            sender_view_of_receiver,
            identity,
            timestamp,
            nonce,
        ),
        receiver_view_of_sender.shared_secret == sender_view_of_receiver.shared_secret,
        receiver_view_of_sender.key_version == sender_view_of_receiver.key_version,
        receiver_view_of_sender.status == "active"@,
        identity.user_type == "lab_admin"@ || identity.user_type == "user"@,
        identity.username.len() > 0,
        trim(identity.username) == identity.username,
        abs_diff(now as int, timestamp as int) <= ttl,
        settings.enabled,
        settings.request_ttl_seconds == ttl,
    ensures
        ({
            let claims = ClaimsView {
                remote_node_id: identity.local_node_id,
                key_version: sender_view_of_receiver.key_version,
                timestamp,
                nonce,
                signature: headers[4].1,
                remote_laboratory_id: identity.local_laboratory_id,
                remote_user_id: identity.user_id,
                remote_username: identity.username,
                remote_user_type: identity.user_type,
            };
            &&& spec_check_inbound_headers(true, ttl, transported(headers), now) == Ok::<
                ClaimsView,
                (u16, Seq<char>),
            >(claims)
            &&& spec_check_remote_node(claims, Some(receiver_view_of_sender)) == Ok::<
                RemoteNodeView,
                (u16, Seq<char>),
            >(receiver_view_of_sender)
            &&& spec_verify_signature(
                claims.signature,
                spec_expected_signature(
                    receiver_view_of_sender.shared_secret,
                    claims,
                    method,
                    path_and_query,
                    body,
                ),
            ) == Ok::<(), (u16, Seq<char>)>(())
        }),
        ({
            let begun = spec_begin_inbound(settings, transported(headers), now, target_laboratory_id);
            let known = spec_after_node_lookup(begun->Ok_0, Ok(Some(receiver_view_of_sender)));
            let signed = spec_after_trust_lookup(known->Ok_0, Ok(true), method, path_and_query, body);
            &&& begun is Ok
            &&& known is Ok
            &&& signed is Ok
        }),
{
    reveal_strlit("x-federation-node-id");
    reveal_strlit("x-federation-key-version");
    reveal_strlit("x-federation-timestamp");
    reveal_strlit("x-federation-nonce");
    reveal_strlit("x-federation-signature");
    reveal_strlit("x-federation-remote-laboratory-id");
    reveal_strlit("x-federation-remote-user-id");
    reveal_strlit("x-federation-remote-username");
    reveal_strlit("x-federation-remote-user-type");
    reveal_strlit("lab_admin");
    reveal_strlit("user");
    reveal_strlit("active");
    let h = transported(headers);
    assert(h.len() == 9);
    assert(h[0] == (HEADER_NODE_ID@, Some(headers[0].1)));
    assert(h[1] == (HEADER_KEY_VERSION@, Some(headers[1].1)));
    assert(h[2] == (HEADER_TIMESTAMP@, Some(headers[2].1)));
    assert(h[3] == (HEADER_NONCE@, Some(headers[3].1)));
    assert(h[4] == (HEADER_SIGNATURE@, Some(headers[4].1)));
    assert(h[5] == (HEADER_REMOTE_LABORATORY_ID@, Some(headers[5].1)));
    assert(h[6] == (HEADER_REMOTE_USER_ID@, Some(headers[6].1)));
    assert(h[7] == (HEADER_REMOTE_USERNAME@, Some(headers[7].1)));
    assert(h[8] == (HEADER_REMOTE_USER_TYPE@, Some(headers[8].1)));
    let names = seq![HEADER_NODE_ID@, HEADER_KEY_VERSION@, HEADER_TIMESTAMP@, HEADER_NONCE@, HEADER_SIGNATURE@, HEADER_REMOTE_LABORATORY_ID@, HEADER_REMOTE_USER_ID@, HEADER_REMOTE_USERNAME@, HEADER_REMOTE_USER_TYPE@];
    assert forall|i: int, j: int| 0 <= i < j < 9 implies names[i] != names[j] by {
        if names[i].len() == names[j].len() {
            assert(i == 2 && j == 4);
            assert(names[i][13] != names[j][13]);
        }
    }
    assert forall|k: int| 0 <= k < 9 implies h[k].0 == #[trigger] names[k] by {}
    lemma_lookup_at(h, names, 0);
    lemma_lookup_at(h, names, 1);
    lemma_lookup_at(h, names, 2);
    lemma_lookup_at(h, names, 3);
    lemma_lookup_at(h, names, 4);
    lemma_lookup_at(h, names, 5);
    lemma_lookup_at(h, names, 6);
    lemma_lookup_at(h, names, 7);
    lemma_lookup_at(h, names, 8);
    crate::numeric::lemma_int_text_round_trip(sender_view_of_receiver.key_version as int);
    crate::numeric::lemma_int_text_round_trip(timestamp as int);
    lemma_trim_unchanged(identity.user_type);
}

/// The value a header carries, where it is present and readable.
pub open spec fn header_value(headers: Seq<(Seq<char>, Option<Seq<char>>)>, name: Seq<char>) -> Option<Seq<char>> {
    match header_lookup(headers, name) {
        Some(Some(v)) => Some(v),
        _ => None,
    }
}

/// What the header checks accept is exactly what the headers say: each
/// claim is read from its header (ids and numbers as they spell, the user's
/// name and type trimmed), the user is a laboratory administrator or user
/// with a name, and the request was stamped within the window of `now`;
/// nothing is accepted while federation is off.
pub proof fn accepted_headers_are_what_the_request_claims(
    enabled: bool,
    ttl: i64,
    headers: Seq<(Seq<char>, Option<Seq<char>>)>,
    now: i64,
)
    ensures
        !enabled ==> spec_check_inbound_headers(enabled, ttl, headers, now) == Err::<
            ClaimsView,
            (u16, Seq<char>),
        >((403, FEDERATION_DISABLED@)),
        spec_check_inbound_headers(enabled, ttl, headers, now) matches Ok(c) ==> {
            &&& enabled
            &&& header_value(headers, HEADER_NODE_ID@) matches Some(v) && uuid_from_text(v) == Some(
                c.remote_node_id,
            )
            &&& header_value(headers, HEADER_KEY_VERSION@) matches Some(v) && i32_from_text(v) == Some(
                c.key_version,
            )
            &&& header_value(headers, HEADER_TIMESTAMP@) matches Some(v) && i64_from_text(v) == Some(
                c.timestamp,
            )
            &&& header_value(headers, HEADER_NONCE@) == Some(c.nonce)
            &&& header_value(headers, HEADER_SIGNATURE@) == Some(c.signature)
            &&& header_value(headers, HEADER_REMOTE_LABORATORY_ID@) matches Some(v) && uuid_from_text(v)
                == Some(c.remote_laboratory_id)
            &&& header_value(headers, HEADER_REMOTE_USER_ID@) matches Some(v) && uuid_from_text(v)
                == Some(c.remote_user_id)
            &&& header_value(headers, HEADER_REMOTE_USERNAME@) matches Some(v) && trim(v)
                == c.remote_username
            &&& header_value(headers, HEADER_REMOTE_USER_TYPE@) matches Some(v) && trim(v)
                == c.remote_user_type
            &&& c.remote_user_type == "lab_admin"@ || c.remote_user_type == "user"@
            &&& c.remote_username.len() > 0
            &&& -ttl <= now - c.timestamp <= ttl
        },
{
}

/// A signature is accepted exactly when it and the expected one are both
/// valid Base64 of the same bytes; one that is not Base64 is invalid, and
/// one of other bytes does not match.
pub proof fn signatures_match_exactly_when_their_bytes_do(provided: Seq<char>, expected: Seq<char>)
    ensures
        spec_verify_signature(provided, expected) is Ok <==> (base64_standard_decoded(provided) is Some
            && base64_standard_decoded(provided) == base64_standard_decoded(expected)),
        base64_standard_decoded(provided) is None ==> spec_verify_signature(provided, expected) == Err::<
            (),
            (u16, Seq<char>),
        >((401, "Invalid federation signature"@)),
        base64_standard_decoded(provided) is Some && base64_standard_decoded(expected) is Some
            && base64_standard_decoded(provided) != base64_standard_decoded(expected)
            ==> spec_verify_signature(provided, expected) == Err::<(), (u16, Seq<char>)>(
            (401, "Federation signature mismatch"@),
        ),
{
}

/// A request's node is accepted only as it is known, active and signing
/// with its current key version, and then as it is.
pub proof fn only_active_nodes_on_their_key_are_accepted(claims: ClaimsView, node: Option<RemoteNodeView>)
    ensures
        spec_check_remote_node(claims, node) is Ok <==> (node is Some && node->Some_0.status == "active"@
            && node->Some_0.key_version == claims.key_version),
        spec_check_remote_node(claims, node) matches Ok(n) ==> node == Some(n),
        node is None ==> (spec_check_remote_node(claims, node) matches Err(e) && e.0 == 401),
{
}

/// Lines joined by newlines, with none after the last.
pub open spec fn lines_joined(lines: Seq<Seq<char>>) -> Seq<char>
    decreases lines.len(),
{
    if lines.len() == 0 {
        Seq::empty()
    } else if lines.len() == 1 {
        lines[0]
    } else {
        lines_joined(lines.drop_last()) + seq!['\n'] + lines.last()
    }
}

/// What a signature binds, one per line after the version tag `v1`: the
/// method in upper case, the path and query, the body's hash, the node,
/// laboratory and user ids, the user's type, the timestamp, the nonce and
/// the key version.
pub proof fn signatures_bind_every_claim(
    method: Seq<char>,
    path_and_query: Seq<char>,
    body_hash: Seq<char>,
    node_id: u128,
    laboratory_id: u128,
    user_id: u128,
    user_type: Seq<char>,
    timestamp: Seq<char>,
    nonce: Seq<char>,
    key_version: i32,
)
    ensures
        canonical_message(
            method,
            path_and_query,
            body_hash,
            node_id,
            laboratory_id,
            user_id,
            user_type,
            timestamp,
            nonce,
            key_version,
        ) == lines_joined(
            seq![
                seq!['v', '1'],
                uppercase_of(method),
                path_and_query,
                body_hash,
                uuid_text(node_id),
                uuid_text(laboratory_id),
                uuid_text(user_id),
                user_type,
                timestamp,
                nonce,
                int_text(key_version as int),
            ],
        ),
{
    let lines = seq![
        seq!['v', '1'],
        uppercase_of(method),
        path_and_query,
        body_hash,
        uuid_text(node_id),
        uuid_text(laboratory_id),
        uuid_text(user_id),
        user_type,
        timestamp,
        nonce,
        int_text(key_version as int),
    ];
    assert(lines.subrange(0, 1) =~= seq![lines[0]]);
    assert(lines.subrange(0, 2).drop_last() =~= lines.subrange(0, 1));
    assert(lines.subrange(0, 3).drop_last() =~= lines.subrange(0, 2));
    assert(lines.subrange(0, 4).drop_last() =~= lines.subrange(0, 3));
    assert(lines.subrange(0, 5).drop_last() =~= lines.subrange(0, 4));
    assert(lines.subrange(0, 6).drop_last() =~= lines.subrange(0, 5));
    assert(lines.subrange(0, 7).drop_last() =~= lines.subrange(0, 6));
    assert(lines.subrange(0, 8).drop_last() =~= lines.subrange(0, 7));
    assert(lines.subrange(0, 9).drop_last() =~= lines.subrange(0, 8));
    assert(lines.subrange(0, 10).drop_last() =~= lines.subrange(0, 9));
    assert(lines.subrange(0, 11).drop_last() =~= lines.subrange(0, 10));
    assert(lines.subrange(0, 11) =~= lines);
    let first = lines[0];
    assert(lines_joined(lines.subrange(0, 1)) == first);
    assert(lines_joined(lines.subrange(0, 2)) == lines_joined(lines.subrange(0, 1)) + seq!['\n'] + lines[1]);
    assert(lines_joined(lines.subrange(0, 3)) == lines_joined(lines.subrange(0, 2)) + seq!['\n'] + lines[2]);
    assert(lines_joined(lines.subrange(0, 4)) == lines_joined(lines.subrange(0, 3)) + seq!['\n'] + lines[3]);
    assert(lines_joined(lines.subrange(0, 5)) == lines_joined(lines.subrange(0, 4)) + seq!['\n'] + lines[4]);
    assert(lines_joined(lines.subrange(0, 6)) == lines_joined(lines.subrange(0, 5)) + seq!['\n'] + lines[5]);
    assert(lines_joined(lines.subrange(0, 7)) == lines_joined(lines.subrange(0, 6)) + seq!['\n'] + lines[6]);
    assert(lines_joined(lines.subrange(0, 8)) == lines_joined(lines.subrange(0, 7)) + seq!['\n'] + lines[7]);
    assert(lines_joined(lines.subrange(0, 9)) == lines_joined(lines.subrange(0, 8)) + seq!['\n'] + lines[8]);
    assert(lines_joined(lines.subrange(0, 10)) == lines_joined(lines.subrange(0, 9)) + seq!['\n'] + lines[9]);
    assert(lines_joined(lines) == lines_joined(lines.subrange(0, 10)) + seq!['\n'] + lines[10]);
    assert(canonical_message(
        method,
        path_and_query,
        body_hash,
        node_id,
        laboratory_id,
        user_id,
        user_type,
        timestamp,
        nonce,
        key_version,
    ) =~= lines_joined(lines));
}

} // verus!
