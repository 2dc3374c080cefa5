//! Requests between partners: which inbound paths a partner may reach and
//! with which method, and how a local user's request is relayed to a
//! partner (who may relay, and the address the relayed request goes to).
use crate::errors::{InboundFederationError, ProxyFederationError};
use crate::ids::{format_uuid, parse_uuid, uuid_from_text, uuid_text};
use crate::public_data::{
    FederationReadTarget, drop_empty_parts, form_urlencoded_pairs_of, parse_read_target,
    path_segments, query_params, spec_read_target, split_text, strings_view,
};
use crate::remote::{ParsedUrl, UrlView, parse_url, url_from_text};
use crate::security::{FEDERATION_DISABLED, RemoteNodeRow, RemoteNodeView, pairs_view};
use crate::text::{str_eq, trim_char, trim_end_char, trim_end_matches_char, trim_matches_char};
use vstd::prelude::*;

verus! {

/// The request methods the federation routes tell apart.
#[derive(Debug)]
pub enum RequestMethod {
    Get,
    Post,
    Other,
}

/// What a partner's caller asks to do with borrowing. Only these three
/// operations are reachable from outside; approving, rejecting and reading
/// a laboratory's whole queue stay with the laboratory that owns the item.
#[derive(Debug)]
pub enum FederationBorrowTarget {
    /// `GET borrow-requests`
    ListMine,
    /// `POST inventory-items/{inventory_item_id}/borrow-requests`
    Create(u128),
    /// `POST borrow-requests/{borrow_request_id}/cancel`
    Cancel(u128),
}

/// The borrow operation a method and path name, if any. A malformed id is
/// no borrow route either.
pub open spec fn spec_borrow_target(method: RequestMethod, path: Seq<char>) -> Option<FederationBorrowTarget> {
    let segs = path_segments(path);
    if segs.len() == 1 && method == RequestMethod::Get && segs[0] == "borrow-requests"@ {
        Some(FederationBorrowTarget::ListMine)
    } else if segs.len() == 3 && method == RequestMethod::Post && segs[0] == "inventory-items"@
        && segs[2] == "borrow-requests"@ {
        match uuid_from_text(segs[1]) {
            Some(id) => Some(FederationBorrowTarget::Create(id)),
            None => None,
        }
    } else if segs.len() == 3 && method == RequestMethod::Post && segs[0] == "borrow-requests"@
        && segs[2] == "cancel"@ {
        match uuid_from_text(segs[1]) {
            Some(id) => Some(FederationBorrowTarget::Cancel(id)),
            None => None,
        }
    } else {
        None
    }
}

/// Resolves a path against the borrow operations. `None` means "not a borrow
/// route", so a read can still be tried.
pub fn parse_borrow_target(method: RequestMethod, tail: &str) -> (r: Option<FederationBorrowTarget>)
    ensures
        r == spec_borrow_target(method, tail@),
{
    let segs = drop_empty_parts(split_text(tail, '/'));
    let ghost sv = strings_view(segs@);
    let n = segs.len();
    let is_get = match method {
        RequestMethod::Get => true,
        _ => false,
    };
    let is_post = match method {
        RequestMethod::Post => true,
        _ => false,
    };
    if n == 1 {
        assert(sv[0] == segs@[0]@);
        if is_get && str_eq(segs[0].as_str(), "borrow-requests") {
            return Some(FederationBorrowTarget::ListMine);
        }
        return None;
    }
    if n == 3 && is_post {
        assert(sv[0] == segs@[0]@ && sv[1] == segs@[1]@ && sv[2] == segs@[2]@);
        if str_eq(segs[0].as_str(), "inventory-items") && str_eq(segs[2].as_str(), "borrow-requests") {
            return match parse_uuid(segs[1].as_str()) {
                Some(id) => Some(FederationBorrowTarget::Create(id)),
                None => None,
            };
        }
        if str_eq(segs[0].as_str(), "borrow-requests") && str_eq(segs[2].as_str(), "cancel") {
            return match parse_uuid(segs[1].as_str()) {
                Some(id) => Some(FederationBorrowTarget::Cancel(id)),
                None => None,
            };
        }
    }
    None
}

/// Where an inbound request goes once it is proved genuine.
#[derive(Debug)]
pub enum InboundRoute {
    Borrow(FederationBorrowTarget),
    Read(FederationReadTarget),
}

/// The route of an inbound request, decided before the request is
/// authenticated: a borrow operation first; else, for a GET, a public read;
/// a write that is no borrow operation is refused outright, so that a POST to
/// a readable path is never answered with that path's contents.
pub open spec fn spec_inbound_route(method: RequestMethod, path: Seq<char>) -> Result<InboundRoute, (u16, Seq<char>)> {
    match spec_borrow_target(method, path) {
        Some(t) => Ok(InboundRoute::Borrow(t)),
        None => if method == RequestMethod::Get {
            match spec_read_target(path) {
                Some(t) => Ok(InboundRoute::Read(t)),
                None => Err((404, "Federation route not found"@)),
            }
        } else {
            Err((404, "Federation route not found"@))
        },
    }
}

pub fn inbound_route(method: RequestMethod, tail: &str) -> (r: Result<InboundRoute, InboundFederationError>)
    ensures
        match spec_inbound_route(method, tail@) {
            Ok(route) => r == Ok::<InboundRoute, InboundFederationError>(route),
            Err(e) => r matches Err(x) && (x.spec_status_code(), x.spec_message()) == e,
        },
{
    let is_get = match method {
        RequestMethod::Get => true,
        _ => false,
    };
    match parse_borrow_target(method, tail) {
        Some(t) => Ok(InboundRoute::Borrow(t)),
        None => {
            if is_get {
                match parse_read_target(tail) {
                    Ok(t) => Ok(InboundRoute::Read(t)),
                    Err(e) => Err(InboundFederationError::from(e)),
                }
            } else {
                Err(InboundFederationError::NotFound(String::from_str("Federation route not found")))
            }
        },
    }
}

/// The only filter a partner's listing of its own borrow requests takes: the
/// first `status` the query string names.
pub open spec fn first_lookup(pairs: Seq<(Seq<char>, Seq<char>)>, key: Seq<char>) -> Option<Seq<char>>
    decreases pairs.len(),
{
    if pairs.len() == 0 {
        None
    } else if pairs[0].0 == key {
        Some(pairs[0].1)
    } else {
        first_lookup(pairs.drop_first(), key)
    }
}

pub fn status_filter(query_string: &str) -> (r: Option<String>)
    ensures
        match first_lookup(form_urlencoded_pairs_of(query_string@), "status"@) {
            Some(v) => r matches Some(s) && s@ == v,
            None => r is None,
        },
{
    let params = query_params(query_string);
    let ghost pv = pairs_view(params@);
    let mut i: usize = 0;
    assert(pv.subrange(0, pv.len() as int) =~= pv);
    while i < params.len()
        invariant
            i <= params@.len(),
            pv == pairs_view(params@),
            pv == form_urlencoded_pairs_of(query_string@),
            first_lookup(pv.subrange(i as int, pv.len() as int), "status"@) == first_lookup(pv, "status"@),
        decreases params@.len() - i,
    {
        let ghost rest = pv.subrange(i as int, pv.len() as int);
        assert(rest[0] == (params@[i as int].0@, params@[i as int].1@));
        assert(rest.drop_first() =~= pv.subrange(i + 1, pv.len() as int));
        if str_eq(params[i].0.as_str(), "status") {
            return Some(String::from_str(params[i].1.as_str()));
        }
        i = i + 1;
    }
    None
}

// ---------------------------------------------------------------------------
// relaying a local user's request
// ---------------------------------------------------------------------------

/// A relayed read may name a borrow listing or a public read; anything else
/// is answered as the read parser answers it.
pub open spec fn spec_check_proxy_get(path: Seq<char>) -> Result<(), (u16, Seq<char>)> {
    if spec_borrow_target(RequestMethod::Get, path) is None && spec_read_target(path) is None {
        Err((404, "Federation route not found"@))
    } else {
        Ok(())
    }
}

pub open spec fn proxy_outcome<T>(r: Result<T, ProxyFederationError>) -> Result<T, (u16, Seq<char>)> {
    match r {
        Ok(v) => Ok(v),
        Err(e) => Err((e.spec_status_code(), e.spec_message())),
    }
}

pub fn check_proxy_get(tail: &str) -> (r: Result<(), ProxyFederationError>)
    ensures
        proxy_outcome(r) == spec_check_proxy_get(tail@),
{
    if parse_borrow_target(RequestMethod::Get, tail).is_none() {
        match parse_read_target(tail) {
            Ok(_) => {},
            Err(e) => {
                return Err(ProxyFederationError::from(e));
            },
        }
    }
    Ok(())
}

/// A relayed write may only be a borrow operation: that list is the whole of
/// what this server will sign its name to.
pub fn check_proxy_post(tail: &str) -> (r: Result<(), ProxyFederationError>)
    ensures
        spec_borrow_target(RequestMethod::Post, tail@) is Some ==> r is Ok,
        spec_borrow_target(RequestMethod::Post, tail@) is None ==> (r matches Err(e)
            && e.spec_status_code() == 404 && e.spec_message() == "Federation route not found"@),
{
    if parse_borrow_target(RequestMethod::Post, tail).is_none() {
        return Err(ProxyFederationError::NotFound(String::from_str("Federation route not found")));
    }
    Ok(())
}

pub open spec fn spec_check_proxy_caller(
    enabled: bool,
    is_lab_admin: bool,
    is_regular_user: bool,
    laboratory_id: Option<u128>,
) -> Result<u128, (u16, Seq<char>)> {
    if !enabled {
        Err((403, FEDERATION_DISABLED@))
    } else if !(is_lab_admin || is_regular_user) {
        Err((403, "Only laboratory administrators and users can use federation"@))
    } else {
        match laboratory_id {
            None => Err((403, "Federation requires a laboratory-scoped user"@)),
            Some(l) => Ok(l),
        }
    }
}

/// The first checks before this server relays a request as itself:
/// federation on, and the caller a laboratory administrator or user of some
/// laboratory, whose id is the result.
pub fn check_proxy_caller(
    enabled: bool,
    is_lab_admin: bool,
    is_regular_user: bool,
    laboratory_id: Option<u128>,
) -> (r: Result<u128, ProxyFederationError>)
    ensures
        proxy_outcome(r) == spec_check_proxy_caller(enabled, is_lab_admin, is_regular_user, laboratory_id),
{
    if !enabled {
        return Err(ProxyFederationError::Forbidden(String::from_str(FEDERATION_DISABLED)));
    }
    if !(is_lab_admin || is_regular_user) {
        return Err(ProxyFederationError::Forbidden(String::from_str("Only laboratory administrators and users can use federation")));
    }
    match laboratory_id {
        None => Err(ProxyFederationError::Forbidden(String::from_str("Federation requires a laboratory-scoped user"))),
        Some(l) => Ok(l),
    }
}

/// A relay needs an active trust between the two laboratories.
pub fn check_proxy_trust(trust_found: bool) -> (r: Result<(), ProxyFederationError>)
    ensures
        trust_found ==> r is Ok,
        !trust_found ==> (r matches Err(e) && e.spec_status_code() == 403 && e.spec_message()
            == "No active federation trust between these laboratories"@),
{
    if !trust_found {
        return Err(ProxyFederationError::Forbidden(String::from_str("No active federation trust between these laboratories")));
    }
    Ok(())
}

pub open spec fn spec_check_proxy_node(node: Option<RemoteNodeView>) -> Result<RemoteNodeView, (u16, Seq<char>)> {
    match node {
        None => Err((404, "Remote federation node not found"@)),
        Some(n) => if n.status != "active"@ {
            Err((403, "Remote federation node is not active"@))
        } else {
            Ok(n)
        },
    }
}

/// The partner relayed to must be known and active.
pub fn check_proxy_node(node: Option<RemoteNodeRow>) -> (r: Result<RemoteNodeRow, ProxyFederationError>)
    ensures
        match spec_check_proxy_node(match node {
            Some(n) => Some(n@),
            None => None,
        }) {
            Ok(v) => r matches Ok(n) && n@ == v,
            Err(e) => r matches Err(x) && (x.spec_status_code(), x.spec_message()) == e,
        },
{
    match node {
        None => Err(ProxyFederationError::NotFound(String::from_str("Remote federation node not found"))),
        Some(n) => {
            if !str_eq(n.status.as_str(), "active") {
                Err(ProxyFederationError::Forbidden(String::from_str("Remote federation node is not active")))
            } else {
                Ok(n)
            }
        },
    }
}

/// The user a relayed request is signed for, as the database records them.
#[derive(Debug)]
pub struct ProxyUser {
    pub user_id: u128,
    pub username: String,
    pub user_type_name: String,
    pub laboratory_id: Option<u128>,
}

pub open spec fn spec_check_proxy_user(
    user: Option<(Seq<char>, Option<u128>)>,
    local_laboratory_id: u128,
) -> Result<(), (u16, Seq<char>)> {
    match user {
        None => Err((403, "Current user not found"@)),
        Some((user_type, laboratory_id)) => if !(user_type == "lab_admin"@ || user_type == "user"@)
            || laboratory_id != Some(local_laboratory_id) {
            Err((403, "Current user is not allowed to use federation"@))
        } else {
            Ok(())
        },
    }
}

/// The user, read afresh from the database, must still be a laboratory
/// administrator or user of the laboratory the relay is made from.
pub fn check_proxy_user(user: Option<ProxyUser>, local_laboratory_id: u128) -> (r: Result<ProxyUser, ProxyFederationError>)
    ensures
        match spec_check_proxy_user(
            match user {
                Some(u) => Some((u.user_type_name@, u.laboratory_id)),
                None => None,
            },
            local_laboratory_id,
        ) {
            Ok(()) => r == Ok::<ProxyUser, ProxyFederationError>(user->Some_0),
            Err(e) => r matches Err(x) && (x.spec_status_code(), x.spec_message()) == e,
        },
{
    match user {
        None => Err(ProxyFederationError::Forbidden(String::from_str("Current user not found"))),
        Some(u) => {
            let role_ok = str_eq(u.user_type_name.as_str(), "lab_admin") || str_eq(u.user_type_name.as_str(), "user");
            let lab_ok = match u.laboratory_id {
                Some(l) => l == local_laboratory_id,
                None => false,
            };
            if !role_ok || !lab_ok {
                Err(ProxyFederationError::Forbidden(String::from_str("Current user is not allowed to use federation")))
            } else {
                Ok(u)
            }
        },
    }
}

/// The address a relayed request goes to: the partner's base URL without
/// trailing slashes, the inbound route of the partner's laboratory, the path
/// without surrounding slashes (where one is left) and the query string
/// (where there is one).
pub open spec fn spec_remote_url_text(
    base_url: Seq<char>,
    remote_laboratory_id: u128,
    tail: Seq<char>,
    query: Seq<char>,
) -> Seq<char> {
    let head = trim_end_char(base_url, '/') + "/api/v1/federation/inbound/laboratories/"@ + uuid_text(
        remote_laboratory_id,
    );
    let with_path = if trim_char(tail, '/').len() > 0 {
        head + "/"@ + trim_char(tail, '/')
    } else {
        head
    };
    if query.len() > 0 {
        with_path + "?"@ + query
    } else {
        with_path
    }
}

pub open spec fn spec_build_remote_url(
    base_url: Seq<char>,
    remote_laboratory_id: u128,
    tail: Seq<char>,
    query: Seq<char>,
) -> Result<UrlView, (u16, Seq<char>)> {
    match url_from_text(spec_remote_url_text(base_url, remote_laboratory_id, tail, query)) {
        Some(u) => Ok(u),
        None => Err((500, "Failed to build the remote federation URL"@)),
    }
}

pub fn build_remote_url(
    base_url: &str,
    remote_laboratory_id: u128,
    tail: &str,
    query_string: &str,
) -> (r: Result<ParsedUrl, ProxyFederationError>)
    ensures
        match spec_build_remote_url(base_url@, remote_laboratory_id, tail@, query_string@) {
            Ok(v) => r matches Ok(u) && u@ == v,
            Err(e) => r matches Err(x) && (x.spec_status_code(), x.spec_message()) == e,
        },
{
    let mut url = trim_end_matches_char(base_url, '/');
    url.append("/api/v1/federation/inbound/laboratories/");
    let id = format_uuid(remote_laboratory_id);
    url.append(id.as_str());
    let tail = trim_matches_char(tail, '/');
    if tail.unicode_len() > 0 {
        url.append("/");
        url.append(tail.as_str());
    }
    if query_string.unicode_len() > 0 {
        url.append("?");
        url.append(query_string);
    }
    match parse_url(url.as_str()) {
        Some(u) => Ok(u),
        None => Err(ProxyFederationError::UnexpectedError(String::from_str("Failed to build the remote federation URL"))),
    }
}

/// The path and query a relayed request is signed over.
pub open spec fn spec_path_and_query(url: UrlView) -> Seq<char> {
    match url.query {
        Some(q) => url.path + "?"@ + q,
        None => url.path,
    }
}

pub fn path_and_query(url: &ParsedUrl) -> (r: String)
    ensures
        r@ == spec_path_and_query(url@),
{
    let mut r = String::from_str(url.path.as_str());
    match &url.query {
        Some(q) => {
            r.append("?");
            r.append(q.as_str());
        },
        None => {},
    }
    r
}

/// A write is never answered with what a path reads: whatever a POST or
/// another method that is not GET names, it is a borrow operation or
/// refused.
pub proof fn writes_never_reach_reads(method: RequestMethod, path: Seq<char>)
    requires
        method != RequestMethod::Get,
    ensures
        !(spec_inbound_route(method, path) matches Ok(InboundRoute::Read(_))),
{
}

/// A partner can only create or cancel borrow requests with a POST and only
/// list its own with a GET.
pub proof fn borrow_operations_need_their_method(path: Seq<char>)
    ensures
        spec_borrow_target(RequestMethod::Other, path) is None,
        spec_borrow_target(RequestMethod::Get, path) matches Some(t) ==> t is ListMine,
        spec_borrow_target(RequestMethod::Post, path) matches Some(t) ==> !(t is ListMine),
{
}

/// The borrow operations a partner may ask for, by method and the
/// non-empty segments of the path: listing its own borrow requests with a
/// GET of `borrow-requests`; asking to borrow an item with a POST of
/// `inventory-items/<id>/borrow-requests`; cancelling one of its requests
/// with a POST of `borrow-requests/<id>/cancel`; the ids as they spell.
pub proof fn borrow_routes_are_what_their_path_names(method: RequestMethod, path: Seq<char>, id: u128)
    ensures
        ({
            let segs = path_segments(path);
            &&& spec_borrow_target(method, path) == Some(FederationBorrowTarget::ListMine) <==> (method
                == RequestMethod::Get && segs =~= seq!["borrow-requests"@])
            &&& spec_borrow_target(method, path) == Some(FederationBorrowTarget::Create(id)) <==> (method
                == RequestMethod::Post && segs.len() == 3 && segs[0] == "inventory-items"@ && segs[2]
                == "borrow-requests"@ && uuid_from_text(segs[1]) == Some(id))
            &&& spec_borrow_target(method, path) == Some(FederationBorrowTarget::Cancel(id)) <==> (method
                == RequestMethod::Post && segs.len() == 3 && segs[0] == "borrow-requests"@ && segs[2]
                == "cancel"@ && uuid_from_text(segs[1]) == Some(id))
        }),
{
    reveal_strlit("inventory-items");
    reveal_strlit("borrow-requests");
    let segs = path_segments(path);
    assert("inventory-items"@[0] != "borrow-requests"@[0]);
    if segs.len() == 1 {
        assert(segs =~= seq![segs[0]]);
    }
}

/// An inbound request reaches a borrow operation where its method and path
/// name one, and otherwise a public read only with a GET of a readable
/// path; anything else is not found.
pub proof fn inbound_requests_reach_borrows_or_reads(method: RequestMethod, path: Seq<char>)
    ensures
        spec_borrow_target(method, path) matches Some(t) ==> spec_inbound_route(method, path) == Ok::<
            InboundRoute,
            (u16, Seq<char>),
        >(InboundRoute::Borrow(t)),
        spec_borrow_target(method, path) is None && method == RequestMethod::Get && spec_read_target(path)
            is Some ==> spec_inbound_route(method, path) == Ok::<InboundRoute, (u16, Seq<char>)>(
            InboundRoute::Read(spec_read_target(path)->Some_0),
        ),
        spec_borrow_target(method, path) is None && (method != RequestMethod::Get || spec_read_target(path)
            is None) ==> spec_inbound_route(method, path) == Err::<InboundRoute, (u16, Seq<char>)>(
            (404, "Federation route not found"@),
        ),
        spec_check_proxy_get(path) is Ok <==> (spec_borrow_target(RequestMethod::Get, path) is Some
            || spec_read_target(path) is Some),
{
}

/// A request is relayed only for a laboratory administrator or user of a
/// laboratory while federation is on, on their laboratory's behalf; to a
/// partner that is known and active; for a user still of that kind and of
/// that laboratory.
pub proof fn relays_are_made_only_for_laboratory_members(
    enabled: bool,
    is_lab_admin: bool,
    is_regular_user: bool,
    laboratory_id: Option<u128>,
    node: Option<RemoteNodeView>,
    user: Option<(Seq<char>, Option<u128>)>,
    local_laboratory_id: u128,
)
    ensures
        spec_check_proxy_caller(enabled, is_lab_admin, is_regular_user, laboratory_id) is Ok <==> (enabled
            && (is_lab_admin || is_regular_user) && laboratory_id is Some),
        spec_check_proxy_caller(enabled, is_lab_admin, is_regular_user, laboratory_id) matches Ok(l)
            ==> laboratory_id == Some(l),
        spec_check_proxy_node(node) is Ok <==> (node is Some && node->Some_0.status == "active"@),
        spec_check_proxy_node(node) matches Ok(n) ==> node == Some(n),
        spec_check_proxy_user(user, local_laboratory_id) is Ok <==> (user is Some && (user->Some_0.0
            == "lab_admin"@ || user->Some_0.0 == "user"@) && user->Some_0.1 == Some(local_laboratory_id)),
{
}

/// A relayed request is signed over its path and, where it has one, its
/// query after a `?`.
pub proof fn relays_are_signed_over_path_and_query(url: UrlView)
    ensures
        url.query matches Some(q) ==> spec_path_and_query(url) == url.path + seq!['?'] + q,
        url.query is None ==> spec_path_and_query(url) == url.path,
{
    reveal_strlit("?");
}

/// A relayed request goes to the partner's base URL, without trailing
/// slashes, then the inbound route of the partner's laboratory by its id,
/// then the path where one is left once its slashes are trimmed, and ends
/// with `?` and the query where there is one.
pub proof fn relays_go_to_the_partner_laboratory(
    base_url: Seq<char>,
    remote_laboratory_id: u128,
    tail: Seq<char>,
    query: Seq<char>,
)
    ensures
        ({
            let url = spec_remote_url_text(base_url, remote_laboratory_id, tail, query);
            let base = trim_end_char(base_url, '/');
            let route = "/api/v1/federation/inbound/laboratories/"@;
            let b: int = base.len() as int;
            let r: int = route.len() as int;
            let id_end: int = b + r + 36;
            let t = trim_char(tail, '/');
            let n: int = url.len() as int;
            let q: int = query.len() as int;
            &&& n >= id_end
            &&& url.subrange(0, b) == base
            &&& url.subrange(b, b + r) == route
            &&& url.subrange(b + r, id_end) == uuid_text(remote_laboratory_id)
            &&& t.len() > 0 ==> url.subrange(id_end, id_end + 1 + t.len()) == seq!['/'] + t
            &&& q > 0 ==> url.subrange(n - q - 1, n) == seq!['?'] + query
            &&& q == 0 ==> n == id_end + (if t.len() > 0 { 1 + t.len() as int } else { 0int })
        }),
{
    reveal_strlit("/api/v1/federation/inbound/laboratories/");
    reveal_strlit("/");
    reveal_strlit("?");
    let url = spec_remote_url_text(base_url, remote_laboratory_id, tail, query);
    let base = trim_end_char(base_url, '/');
    let route = "/api/v1/federation/inbound/laboratories/"@;
    let head = base + route + uuid_text(remote_laboratory_id);
    let t = trim_char(tail, '/');
    let with_path = if t.len() > 0 { head + seq!['/'] + t } else { head };
    let b: int = base.len() as int;
    let r: int = route.len() as int;
    assert(url =~= if query.len() > 0 { with_path + seq!['?'] + query } else { with_path });
    assert(url.subrange(0, b) =~= base);
    assert(url.subrange(b, b + r) =~= route);
    assert(url.subrange(b + r, b + r + 36) =~= uuid_text(remote_laboratory_id));
    if t.len() > 0 {
        assert(url.subrange(head.len() as int, head.len() as int + 1 + t.len() as int) =~= seq!['/'] + t);
    }
    if query.len() > 0 {
        assert(url.subrange(url.len() - query.len() - 1, url.len() as int) =~= seq!['?'] + query);
    }
}

} // verus!
