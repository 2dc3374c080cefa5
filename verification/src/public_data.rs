//! The public read API a laboratory offers its federation partners: which
//! path names which resource, the paging and filters a query string selects,
//! and the statements that read only what is publicly shareable.
use crate::errors::PublicDataError;
use crate::ids::{parse_uuid, uuid_from_text};
use crate::numeric::{i64_from_text, parse_i64};
use crate::security::pairs_view;
use crate::sql::{
    PieceView, SqlPiece, contains_pattern, filter_text, filter_value, keyword_pieces, lemma_concat_within,
    lemma_keyword_pieces_within, like_pattern, pieces_view, push_id, push_keyword_pieces, push_sql,
    push_text, sql_texts_within, holds_condition, lemma_holds_condition_in,
};
use crate::text::{is_control, push_char, spec_is_control, str_eq, trim, trim_to_string};
use url::form_urlencoded;
use vstd::prelude::*;

verus! {

// ---------------------------------------------------------------------------
// splitting text
// ---------------------------------------------------------------------------

pub open spec fn split_acc(s: Seq<char>, sep: char, cur: Seq<char>) -> Seq<Seq<char>>
    decreases s.len(),
{
    if s.len() == 0 {
        seq![cur]
    } else if s[0] == sep {
        seq![cur] + split_acc(s.drop_first(), sep, Seq::empty())
    } else {
        split_acc(s.drop_first(), sep, cur.push(s[0]))
    }
}

/// The parts of `s` between occurrences of `sep`, empty ones included, as
/// `str::split` yields them.
pub open spec fn split_on(s: Seq<char>, sep: char) -> Seq<Seq<char>> {
    split_acc(s, sep, Seq::empty())
}

/// The parts that are not empty, in order.
pub open spec fn drop_empty(parts: Seq<Seq<char>>) -> Seq<Seq<char>>
    decreases parts.len(),
{
    if parts.len() == 0 {
        Seq::empty()
    } else if parts.last().len() == 0 {
        drop_empty(parts.drop_last())
    } else {
        drop_empty(parts.drop_last()).push(parts.last())
    }
}

pub open spec fn strings_view(v: Seq<String>) -> Seq<Seq<char>> {
    v.map_values(|s: String| s@)
}

/// `str::split` with a character separator.
pub fn split_text(s: &str, sep: char) -> (parts: Vec<String>)
    ensures
        strings_view(parts@) == split_on(s@, sep),
{
    let n = s.unicode_len();
    let mut parts: Vec<String> = Vec::new();
    let mut cur = String::new();
    let mut i: usize = 0;
    assert(s@.subrange(0, n as int) =~= s@);
    assert(strings_view(parts@) =~= Seq::<Seq<char>>::empty());
    while i < n
        invariant
            n == s@.len(),
            i <= n,
            strings_view(parts@) + split_acc(s@.subrange(i as int, n as int), sep, cur@) == split_on(s@, sep),
        decreases n - i,
    {
        let c = s.get_char(i);
        let ghost rest = s@.subrange(i as int, n as int);
        assert(rest[0] == c);
        assert(rest.drop_first() =~= s@.subrange(i + 1, n as int));
        if c == sep {
            let ghost before = strings_view(parts@);
            let ghost cur_v = cur@;
            parts.push(cur);
            cur = String::new();
            assert(strings_view(parts@) =~= before.push(cur_v));
            assert(before + (seq![cur_v] + split_acc(s@.subrange(i + 1, n as int), sep, Seq::empty()))
                =~= before.push(cur_v) + split_acc(s@.subrange(i + 1, n as int), sep, Seq::empty()));
            assert(cur@ =~= Seq::<char>::empty());
        } else {
            push_char(&mut cur, c);
        }
        i = i + 1;
    }
    let ghost before = strings_view(parts@);
    let ghost cur_v = cur@;
    assert(s@.subrange(n as int, n as int) =~= Seq::<char>::empty());
    parts.push(cur);
    assert(strings_view(parts@) =~= before + seq![cur_v]);
    parts
}

/// `parts` without its empty strings.
pub fn drop_empty_parts(parts: Vec<String>) -> (r: Vec<String>)
    ensures
        strings_view(r@) == drop_empty(strings_view(parts@)),
{
    let ghost pv = strings_view(parts@);
    let mut r: Vec<String> = Vec::new();
    let mut rest = parts;
    let len = rest.len();
    let mut i: usize = 0;
    assert(pv.subrange(0, 0) =~= Seq::<Seq<char>>::empty());
    assert(strings_view(r@) =~= Seq::<Seq<char>>::empty());
    assert(strings_view(rest@) =~= pv.subrange(0, len as int));
    while rest.len() > 0
        invariant
            len == pv.len(),
            i + rest@.len() == len,
            strings_view(rest@) == pv.subrange(i as int, len as int),
            strings_view(r@) == drop_empty(pv.subrange(0, i as int)),
        decreases rest@.len(),
    {
        let ghost before = rest@;
        let part = rest.remove(0);
        assert(strings_view(before)[0] == pv[i as int]);
        assert(strings_view(rest@) =~= pv.subrange(i + 1, len as int)) by {
            assert forall|k: int| 0 <= k < rest@.len() implies strings_view(rest@)[k] == pv.subrange(i + 1, len as int)[k] by {
                assert(rest@[k] == before[k + 1]);
                assert(strings_view(before)[k + 1] == pv.subrange(i as int, len as int)[k + 1]);
            }
        }
        assert(pv.subrange(0, i + 1).drop_last() =~= pv.subrange(0, i as int));
        assert(pv.subrange(0, i + 1).last() == part@);
        if part.unicode_len() > 0 {
            let ghost old_r = strings_view(r@);
            r.push(part);
            assert(strings_view(r@) =~= old_r.push(pv[i as int]));
        }
        i = i + 1;
    }
    assert(pv.subrange(0, len as int) =~= pv);
    r
}

// ---------------------------------------------------------------------------
// routing
// ---------------------------------------------------------------------------

/// What a path under a laboratory's public API reads.
#[derive(Debug)]
pub enum FederationReadTarget {
    Laboratory,
    Assets,
    Asset(u128),
    AssetAttachments(u128),
    AssetCategories,
    AssetCategory(u128),
    AssetParameters,
    AssetParameter(u128),
    InventoryItems,
    InventoryItem(u128),
    InventoryItemAttachments(u128),
    Locations,
    Location(u128),
    Units,
    Unit(u128),
    Attachments,
    Attachment(u128),
    AttachmentDownload(u128),
}

/// The path's segments: the parts between slashes that are not empty.
pub open spec fn path_segments(path: Seq<char>) -> Seq<Seq<char>> {
    drop_empty(split_on(path, '/'))
}

/// A collection by the name that lists it.
pub open spec fn collection(name: Seq<char>) -> Option<FederationReadTarget> {
    if name == "assets"@ {
        Some(FederationReadTarget::Assets)
    } else if name == "inventory-items"@ {
        Some(FederationReadTarget::InventoryItems)
    } else if name == "asset-categories"@ {
        Some(FederationReadTarget::AssetCategories)
    } else if name == "asset-parameters"@ {
        Some(FederationReadTarget::AssetParameters)
    } else if name == "locations"@ {
        Some(FederationReadTarget::Locations)
    } else if name == "units"@ {
        Some(FederationReadTarget::Units)
    } else if name == "attachments"@ {
        Some(FederationReadTarget::Attachments)
    } else {
        None
    }
}

/// One member of a collection, by the collection's name and the member's id.
pub open spec fn member(name: Seq<char>, id: u128) -> Option<FederationReadTarget> {
    if name == "assets"@ {
        Some(FederationReadTarget::Asset(id))
    } else if name == "inventory-items"@ {
        Some(FederationReadTarget::InventoryItem(id))
    } else if name == "asset-categories"@ {
        Some(FederationReadTarget::AssetCategory(id))
    } else if name == "asset-parameters"@ {
        Some(FederationReadTarget::AssetParameter(id))
    } else if name == "locations"@ {
        Some(FederationReadTarget::Location(id))
    } else if name == "units"@ {
        Some(FederationReadTarget::Unit(id))
    } else if name == "attachments"@ {
        Some(FederationReadTarget::Attachment(id))
    } else {
        None
    }
}

/// Something a member has, by the collection's name, the member's id and the
/// name of the thing.
pub open spec fn member_part(name: Seq<char>, id: u128, part: Seq<char>) -> Option<FederationReadTarget> {
    if name == "assets"@ && part == "attachments"@ {
        Some(FederationReadTarget::AssetAttachments(id))
    } else if name == "inventory-items"@ && part == "attachments"@ {
        Some(FederationReadTarget::InventoryItemAttachments(id))
    } else if name == "attachments"@ && part == "download"@ {
        Some(FederationReadTarget::AttachmentDownload(id))
    } else {
        None
    }
}

/// What the path reads: the laboratory itself for no segment, a collection
/// for one, a member for two, something of a member for three; `None` for
/// any other path, or where the member's id is not a UUID.
pub open spec fn spec_read_target(path: Seq<char>) -> Option<FederationReadTarget> {
    let segs = path_segments(path);
    if segs.len() == 0 {
        Some(FederationReadTarget::Laboratory)
    } else if segs.len() == 1 {
        collection(segs[0])
    } else if segs.len() == 2 {
        match uuid_from_text(segs[1]) {
            Some(id) => member(segs[0], id),
            None => None,
        }
    } else if segs.len() == 3 {
        match uuid_from_text(segs[1]) {
            Some(id) => member_part(segs[0], id, segs[2]),
            None => None,
        }
    } else {
        None
    }
}

fn collection_named(name: &str) -> (r: Option<FederationReadTarget>)
    ensures
        r == collection(name@),
{
    if str_eq(name, "assets") {
        Some(FederationReadTarget::Assets)
    } else if str_eq(name, "inventory-items") {
        Some(FederationReadTarget::InventoryItems)
    } else if str_eq(name, "asset-categories") {
        Some(FederationReadTarget::AssetCategories)
    } else if str_eq(name, "asset-parameters") {
        Some(FederationReadTarget::AssetParameters)
    } else if str_eq(name, "locations") {
        Some(FederationReadTarget::Locations)
    } else if str_eq(name, "units") {
        Some(FederationReadTarget::Units)
    } else if str_eq(name, "attachments") {
        Some(FederationReadTarget::Attachments)
    } else {
        None
    }
}

fn member_named(name: &str, id: u128) -> (r: Option<FederationReadTarget>)
    ensures
        r == member(name@, id),
{
    if str_eq(name, "assets") {
        Some(FederationReadTarget::Asset(id))
    } else if str_eq(name, "inventory-items") {
        Some(FederationReadTarget::InventoryItem(id))
    } else if str_eq(name, "asset-categories") {
        Some(FederationReadTarget::AssetCategory(id))
    } else if str_eq(name, "asset-parameters") {
        Some(FederationReadTarget::AssetParameter(id))
    } else if str_eq(name, "locations") {
        Some(FederationReadTarget::Location(id))
    } else if str_eq(name, "units") {
        Some(FederationReadTarget::Unit(id))
    } else if str_eq(name, "attachments") {
        Some(FederationReadTarget::Attachment(id))
    } else {
        None
    }
}

fn member_part_named(name: &str, id: u128, part: &str) -> (r: Option<FederationReadTarget>)
    ensures
        r == member_part(name@, id, part@),
{
    if str_eq(name, "assets") && str_eq(part, "attachments") {
        Some(FederationReadTarget::AssetAttachments(id))
    } else if str_eq(name, "inventory-items") && str_eq(part, "attachments") {
        Some(FederationReadTarget::InventoryItemAttachments(id))
    } else if str_eq(name, "attachments") && str_eq(part, "download") {
        Some(FederationReadTarget::AttachmentDownload(id))
    } else {
        None
    }
}

/// What a path under the public API reads; a path that names nothing is
/// answered as not found.
pub fn parse_read_target(tail: &str) -> (r: Result<FederationReadTarget, PublicDataError>)
    ensures
        match spec_read_target(tail@) {
            Some(t) => r == Ok::<FederationReadTarget, PublicDataError>(t),
            None => r matches Err(e) && e.spec_status_code() == 404 && e.spec_message()
                == "Federation route not found"@,
        },
{
    let segs = drop_empty_parts(split_text(tail, '/'));
    let ghost sv = strings_view(segs@);
    assert(sv == path_segments(tail@));
    let n = segs.len();
    let target = if n == 0 {
        Some(FederationReadTarget::Laboratory)
    } else if n == 1 {
        assert(sv[0] == segs@[0]@);
        collection_named(segs[0].as_str())
    } else if n == 2 {
        assert(sv[0] == segs@[0]@ && sv[1] == segs@[1]@);
        match parse_uuid(segs[1].as_str()) {
            Some(id) => member_named(segs[0].as_str(), id),
            None => None,
        }
    } else if n == 3 {
        assert(sv[0] == segs@[0]@ && sv[1] == segs@[1]@ && sv[2] == segs@[2]@);
        match parse_uuid(segs[1].as_str()) {
            Some(id) => member_part_named(segs[0].as_str(), id, segs[2].as_str()),
            None => None,
        }
    } else {
        None
    };
    match target {
        Some(t) => Ok(t),
        None => Err(PublicDataError::NotFound(String::from_str("Federation route not found"))),
    }
}

// ---------------------------------------------------------------------------
// query strings
// ---------------------------------------------------------------------------

/// The name-value pairs of a query string, decoded, in order.
pub uninterp spec fn form_urlencoded_pairs_of(query: Seq<char>) -> Seq<(Seq<char>, Seq<char>)>;

/// `url::form_urlencoded::parse` on the query string's bytes, each decoded
/// name and value made an owned `String`: the contract says the pairs are the
/// named decoding of the query string.
#[verifier::external_body]
fn decode_query(query: &str) -> (pairs: Vec<(String, String)>)
    ensures
        pairs_view(pairs@) == form_urlencoded_pairs_of(query@),
{
    form_urlencoded::parse(query.as_bytes()).map(|(k, v)| (k.into_owned(), v.into_owned())).collect()
}

/// The value a query names for `key`. The pairs are collected into a map,
/// so where a name occurs more than once its last value counts.
pub open spec fn param_lookup(pairs: Seq<(Seq<char>, Seq<char>)>, key: Seq<char>) -> Option<Seq<char>>
    decreases pairs.len(),
{
    if pairs.len() == 0 {
        None
    } else if pairs.last().0 == key {
        Some(pairs.last().1)
    } else {
        param_lookup(pairs.drop_last(), key)
    }
}

/// The parameters of a query string, in the order they came.
pub fn query_params(query_string: &str) -> (params: Vec<(String, String)>)
    ensures
        pairs_view(params@) == form_urlencoded_pairs_of(query_string@),
{
    decode_query(query_string)
}

/// The value of parameter `key`, where the query has one.
pub fn param_value(params: &Vec<(String, String)>, key: &str) -> (r: Option<String>)
    ensures
        match param_lookup(pairs_view(params@), key@) {
            Some(v) => r matches Some(s) && s@ == v,
            None => r is None,
        },
{
    let ghost pv = pairs_view(params@);
    let mut i: usize = params.len();
    assert(pv.subrange(0, i as int) =~= pv);
    while i > 0
        invariant
            i <= params@.len(),
            pv == pairs_view(params@),
            param_lookup(pv.subrange(0, i as int), key@) == param_lookup(pv, key@),
        decreases i,
    {
        let ghost prefix = pv.subrange(0, i as int);
        assert(prefix.last() == (params@[i - 1].0@, params@[i - 1].1@));
        assert(prefix.drop_last() =~= pv.subrange(0, i - 1));
        if str_eq(params[i - 1].0.as_str(), key) {
            return Some(String::from_str(params[i - 1].1.as_str()));
        }
        i = i - 1;
    }
    None
}

pub open spec fn number_param(params: Seq<(Seq<char>, Seq<char>)>, key: Seq<char>, default: i64) -> Option<i64> {
    match param_lookup(params, key) {
        None => Some(default),
        Some(v) => i64_from_text(v),
    }
}

/// The page a query selects: `limit` (50 unless given, at most 200) and
/// `offset` (0 unless given), each a decimal number, the first positive and
/// the second not negative.
pub open spec fn spec_limit_offset(query: Seq<char>) -> Result<(i64, i64), (u16, Seq<char>)> {
    let params = form_urlencoded_pairs_of(query);
    match number_param(params, "limit"@, 50) {
        None => Err((400, "limit must be a number"@)),
        Some(limit) => match number_param(params, "offset"@, 0) {
            None => Err((400, "offset must be a number"@)),
            Some(offset) => if limit <= 0 {
                Err((400, "limit must be positive"@))
            } else if offset < 0 {
                Err((400, "offset must be non-negative"@))
            } else {
                Ok((if limit > 200 { 200 } else { limit }, offset))
            },
        },
    }
}

pub open spec fn public_outcome<T>(r: Result<T, PublicDataError>) -> Result<T, (u16, Seq<char>)> {
    match r {
        Ok(v) => Ok(v),
        Err(e) => Err((e.spec_status_code(), e.spec_message())),
    }
}

fn number_value(params: &Vec<(String, String)>, key: &str, default: i64) -> (r: Option<i64>)
    ensures
        r == number_param(pairs_view(params@), key@, default),
{
    match param_value(params, key) {
        None => Some(default),
        Some(v) => parse_i64(v.as_str()),
    }
}

/// The limit and offset of a listing.
pub fn limit_offset(query_string: &str) -> (r: Result<(i64, i64), PublicDataError>)
    ensures
        public_outcome(r) == spec_limit_offset(query_string@),
{
    let params = query_params(query_string);
    let limit = match number_value(&params, "limit", 50) {
        Some(l) => l,
        None => {
            return Err(PublicDataError::Validation(String::from_str("limit must be a number")));
        },
    };
    let offset = match number_value(&params, "offset", 0) {
        Some(o) => o,
        None => {
            return Err(PublicDataError::Validation(String::from_str("offset must be a number")));
        },
    };
    if limit <= 0 {
        return Err(PublicDataError::Validation(String::from_str("limit must be positive")));
    }
    if offset < 0 {
        return Err(PublicDataError::Validation(String::from_str("offset must be non-negative")));
    }
    Ok((if limit > 200 { 200 } else { limit }, offset))
}

/// Whether a query asks for an asset's parameters: its `include` value is
/// a comma-separated list in which, whitespace aside, `parameters` occurs.
pub open spec fn spec_includes_parameters(query: Seq<char>) -> bool {
    match param_lookup(form_urlencoded_pairs_of(query), "include"@) {
        None => false,
        Some(v) => lists_word(split_on(v, ','), "parameters"@),
    }
}

/// Some part is `word` once trimmed.
pub open spec fn lists_word(parts: Seq<Seq<char>>, word: Seq<char>) -> bool {
    exists|i: int| 0 <= i < parts.len() && trim(#[trigger] parts[i]) == word
}

pub fn includes_parameters(query_string: &str) -> (r: bool)
    ensures
        r == spec_includes_parameters(query_string@),
{
    let params = query_params(query_string);
    let value = match param_value(&params, "include") {
        None => {
            return false;
        },
        Some(v) => v,
    };
    let parts = split_text(value.as_str(), ',');
    let ghost pv = strings_view(parts@);
    let mut i: usize = 0;
    while i < parts.len()
        invariant
            i <= parts@.len(),
            pv == strings_view(parts@),
            pv == split_on(value@, ','),
            param_lookup(form_urlencoded_pairs_of(query_string@), "include"@) == Some(value@),
            forall|k: int| 0 <= k < i ==> trim(#[trigger] pv[k]) != "parameters"@,
        decreases parts@.len() - i,
    {
        let t = trim_to_string(parts[i].as_str());
        assert(pv[i as int] == parts@[i as int]@);
        if str_eq(t.as_str(), "parameters") {
            assert(trim(pv[i as int]) == "parameters"@);
            assert(lists_word(pv, "parameters"@));
            return true;
        }
        i = i + 1;
    }
    false
}

/// The UUID a query gives as `key`, where it gives one that parses.
pub fn id_param(params: &Vec<(String, String)>, key: &str) -> (r: Option<u128>)
    ensures
        r == (match param_lookup(pairs_view(params@), key@) {
            Some(v) => uuid_from_text(v),
            None => None,
        }),
{
    match param_value(params, key) {
        Some(v) => parse_uuid(v.as_str()),
        None => None,
    }
}

// ---------------------------------------------------------------------------
// downloads
// ---------------------------------------------------------------------------

pub open spec fn safe_filename_char(c: char) -> char {
    if c == '"' || c == '\\' || spec_is_control(c) {
        '_'
    } else {
        c
    }
}

/// A file name as it can stand between the quotes of a
/// `Content-Disposition` header: quotes, backslashes and control characters
/// each become `_`.
pub open spec fn spec_content_disposition_filename(name: Seq<char>) -> Seq<char> {
    name.map_values(|c: char| safe_filename_char(c))
}

pub fn content_disposition_filename(file_name: &str) -> (r: String)
    ensures
        r@ == spec_content_disposition_filename(file_name@),
{
    let n = file_name.unicode_len();
    let mut r = String::new();
    let mut i: usize = 0;
    while i < n
        invariant
            n == file_name@.len(),
            i <= n,
            r@ == spec_content_disposition_filename(file_name@.subrange(0, i as int)),
        decreases n - i,
    {
        let c = file_name.get_char(i);
        let d = if c == '"' || c == '\\' || is_control(c) {
            '_'
        } else {
            c
        };
        push_char(&mut r, d);
        assert(r@ =~= spec_content_disposition_filename(file_name@.subrange(0, i + 1)));
        i = i + 1;
    }
    assert(file_name@.subrange(0, n as int) =~= file_name@);
    r
}

/// The name written is safe: no quote, backslash or control character is
/// left in it.
pub proof fn content_disposition_filename_is_safe(name: Seq<char>)
    ensures
        forall|i: int|
            0 <= i < spec_content_disposition_filename(name).len() ==> {
                let c = #[trigger] spec_content_disposition_filename(name)[i];
                c != '"' && c != '\\' && !spec_is_control(c)
            },
{
    assert forall|i: int| 0 <= i < spec_content_disposition_filename(name).len() implies {
        let c = #[trigger] spec_content_disposition_filename(name)[i];
        c != '"' && c != '\\' && !spec_is_control(c)
    } by {
        assert(spec_content_disposition_filename(name)[i] == safe_filename_char(name[i]));
        assert(!spec_is_control('_'));
    }
}

/// Making a safe name safe again changes nothing.
pub proof fn content_disposition_filename_is_idempotent(name: Seq<char>)
    ensures
        spec_content_disposition_filename(spec_content_disposition_filename(name))
            == spec_content_disposition_filename(name),
{
    content_disposition_filename_is_safe(name);
    let once = spec_content_disposition_filename(name);
    assert(spec_content_disposition_filename(once) =~= once) by {
        assert forall|i: int| 0 <= i < once.len() implies spec_content_disposition_filename(once)[i] == once[i] by {
            let c = once[i];
            assert(c != '"' && c != '\\' && !spec_is_control(c));
        }
    }
}

// ---------------------------------------------------------------------------
// statements
// ---------------------------------------------------------------------------

/// The columns every public asset read shares, with each asset's item count
/// and total quantities. It leaves out the asset's internal notes.
pub fn asset_select() -> (sql: &'static str)
    ensures
        sql@ == "\n    SELECT\n        assets.asset_id,\n        assets.laboratory_id,\n        assets.category_id,\n        assets.tracking_mode,\n        assets.name,\n        assets.model,\n        assets.manufacturer,\n        assets.inventory_unit_id,\n        assets.public_notes,\n        assets.created_at,\n        assets.updated_at,\n        (\n            SELECT COUNT(*)\n            FROM asset_inventory_items AS inventory_items\n            WHERE inventory_items.asset_id = assets.asset_id\n        ) AS inventory_item_count,\n        (\n            SELECT COALESCE(SUM(inventory_items.quantity_on_hand), 0)::double precision\n            FROM asset_inventory_items AS inventory_items\n            WHERE inventory_items.asset_id = assets.asset_id\n        ) AS quantity_on_hand,\n        (\n            SELECT COALESCE(SUM(inventory_items.quantity_allocated), 0)::double precision\n            FROM asset_inventory_items AS inventory_items\n            WHERE inventory_items.asset_id = assets.asset_id\n        ) AS quantity_allocated\n    FROM assets\n    "@,
{
    "\n    SELECT\n        assets.asset_id,\n        assets.laboratory_id,\n        assets.category_id,\n        assets.tracking_mode,\n        assets.name,\n        assets.model,\n        assets.manufacturer,\n        assets.inventory_unit_id,\n        assets.public_notes,\n        assets.created_at,\n        assets.updated_at,\n        (\n            SELECT COUNT(*)\n            FROM asset_inventory_items AS inventory_items\n            WHERE inventory_items.asset_id = assets.asset_id\n        ) AS inventory_item_count,\n        (\n            SELECT COALESCE(SUM(inventory_items.quantity_on_hand), 0)::double precision\n            FROM asset_inventory_items AS inventory_items\n            WHERE inventory_items.asset_id = assets.asset_id\n        ) AS quantity_on_hand,\n        (\n            SELECT COALESCE(SUM(inventory_items.quantity_allocated), 0)::double precision\n            FROM asset_inventory_items AS inventory_items\n            WHERE inventory_items.asset_id = assets.asset_id\n        ) AS quantity_allocated\n    FROM assets\n    "
}

/// The columns every public inventory read shares. It leaves out the
/// item's internal notes.
pub fn inventory_item_select() -> (sql: &'static str)
    ensures
        sql@ == "\n    SELECT\n        asset_inventory_items.inventory_item_id,\n        asset_inventory_items.asset_id,\n        asset_inventory_items.laboratory_id,\n        asset_inventory_items.tracking_mode,\n        asset_inventory_items.serial_number,\n        asset_inventory_items.batch_number,\n        asset_inventory_items.quantity_on_hand::double precision AS quantity_on_hand,\n        asset_inventory_items.quantity_allocated::double precision AS quantity_allocated,\n        asset_inventory_items.location_id,\n        asset_inventory_items.status,\n        asset_inventory_items.public_notes,\n        asset_inventory_items.created_at,\n        asset_inventory_items.updated_at,\n        asset_inventory_items.last_stocktake_at,\n        assets.category_id AS asset_category_id,\n        assets.name AS asset_name,\n        assets.model AS asset_model,\n        assets.manufacturer AS asset_manufacturer,\n        assets.inventory_unit_id AS asset_inventory_unit_id\n    FROM asset_inventory_items\n    JOIN assets ON assets.asset_id = asset_inventory_items.asset_id\n    "@,
{
    "\n    SELECT\n        asset_inventory_items.inventory_item_id,\n        asset_inventory_items.asset_id,\n        asset_inventory_items.laboratory_id,\n        asset_inventory_items.tracking_mode,\n        asset_inventory_items.serial_number,\n        asset_inventory_items.batch_number,\n        asset_inventory_items.quantity_on_hand::double precision AS quantity_on_hand,\n        asset_inventory_items.quantity_allocated::double precision AS quantity_allocated,\n        asset_inventory_items.location_id,\n        asset_inventory_items.status,\n        asset_inventory_items.public_notes,\n        asset_inventory_items.created_at,\n        asset_inventory_items.updated_at,\n        asset_inventory_items.last_stocktake_at,\n        assets.category_id AS asset_category_id,\n        assets.name AS asset_name,\n        assets.model AS asset_model,\n        assets.manufacturer AS asset_manufacturer,\n        assets.inventory_unit_id AS asset_inventory_unit_id\n    FROM asset_inventory_items\n    JOIN assets ON assets.asset_id = asset_inventory_items.asset_id\n    "
}

/// The columns every public attachment read shares, followed by `suffix`
/// (the statement's conditions and order).
pub fn attachment_select(suffix: &str) -> (sql: String)
    ensures
        sql@ == "\n        SELECT\n            assignments.attachment_id,\n            assignments.laboratory_id,\n            assignments.asset_id,\n            assignments.inventory_item_id,\n            assignments.display_name,\n            files.original_file_name,\n            assignments.description,\n            files.mime_type,\n            files.file_size_bytes,\n            files.sha256_hex,\n            assignments.is_public,\n            files.uploaded_by_user_id,\n            assignments.created_at,\n            assignments.updated_at\n        FROM asset_attachment_assignments AS assignments\n        JOIN files ON files.file_id = assignments.file_id\n        "@ + suffix@ + "\n        "@,
{
    let mut sql = String::from_str("\n        SELECT\n            assignments.attachment_id,\n            assignments.laboratory_id,\n            assignments.asset_id,\n            assignments.inventory_item_id,\n            assignments.display_name,\n            files.original_file_name,\n            assignments.description,\n            files.mime_type,\n            files.file_size_bytes,\n            files.sha256_hex,\n            assignments.is_public,\n            files.uploaded_by_user_id,\n            assignments.created_at,\n            assignments.updated_at\n        FROM asset_attachment_assignments AS assignments\n        JOIN files ON files.file_id = assignments.file_id\n        ");
    sql.append(suffix);
    sql.append("\n        ");
    sql
}

pub open spec fn text_filter(params: Seq<(Seq<char>, Seq<char>)>, key: Seq<char>, sql: Seq<char>) -> Seq<PieceView> {
    match filter_text(param_lookup(params, key)) {
        Some(v) => seq![PieceView::Sql(sql), PieceView::BindText(v)],
        None => Seq::empty(),
    }
}

pub open spec fn id_filter(params: Seq<(Seq<char>, Seq<char>)>, key: Seq<char>, sql: Seq<char>) -> Seq<PieceView> {
    match param_lookup(params, key) {
        Some(v) => match uuid_from_text(v) {
            Some(id) => seq![PieceView::Sql(sql), PieceView::BindId(id)],
            None => Seq::empty(),
        },
        None => Seq::empty(),
    }
}

pub open spec fn keyword_filter(params: Seq<(Seq<char>, Seq<char>)>, open: Seq<char>, rest: Seq<Seq<char>>) -> Seq<PieceView> {
    match filter_text(param_lookup(params, "keyword"@)) {
        Some(k) => keyword_pieces(open, rest, like_pattern(k)) + seq![PieceView::Sql(")"@)],
        None => Seq::empty(),
    }
}

fn push_text_filter(pieces: &mut Vec<SqlPiece>, params: &Vec<(String, String)>, key: &str, sql: &str)
    ensures
        pieces_view(final(pieces)@) == pieces_view(old(pieces)@) + text_filter(pairs_view(params@), key@, sql@),
{
    let value = param_value(params, key);
    let filtered = match &value {
        Some(v) => filter_value(Some(v.as_str())),
        None => None,
    };
    match filtered {
        Some(v) => {
            push_sql(pieces, sql);
            push_text(pieces, v);
        },
        None => {},
    }
    assert(pieces_view(pieces@) =~= pieces_view(old(pieces)@) + text_filter(pairs_view(params@), key@, sql@));
}

fn push_id_filter(pieces: &mut Vec<SqlPiece>, params: &Vec<(String, String)>, key: &str, sql: &str)
    ensures
        pieces_view(final(pieces)@) == pieces_view(old(pieces)@) + id_filter(pairs_view(params@), key@, sql@),
{
    match id_param(params, key) {
        Some(id) => {
            push_sql(pieces, sql);
            push_id(pieces, id);
        },
        None => {},
    }
    assert(pieces_view(pieces@) =~= pieces_view(old(pieces)@) + id_filter(pairs_view(params@), key@, sql@));
}

fn push_keyword_filter(pieces: &mut Vec<SqlPiece>, params: &Vec<(String, String)>, open: &str, rest: &Vec<&str>)
    ensures
        pieces_view(final(pieces)@) == pieces_view(old(pieces)@) + keyword_filter(
            pairs_view(params@),
            open@,
            rest@.map_values(|s: &str| s@),
        ),
{
    let value = param_value(params, "keyword");
    let filtered = match &value {
        Some(v) => filter_value(Some(v.as_str())),
        None => None,
    };
    match filtered {
        Some(k) => {
            let pattern = contains_pattern(k.as_str());
            push_keyword_pieces(pieces, open, rest, pattern.as_str());
        },
        None => {},
    }
    assert(pieces_view(pieces@) =~= pieces_view(old(pieces)@) + keyword_filter(
        pairs_view(params@),
        open@,
        rest@.map_values(|s: &str| s@),
    ));
}

pub open spec fn asset_keyword_columns() -> Seq<Seq<char>> {
    seq![
        " OR COALESCE(assets.model, '') ILIKE "@,
        " OR COALESCE(assets.manufacturer, '') ILIKE "@,
        " OR COALESCE(assets.public_notes, '') ILIKE "@,
    ]
}

/// The conditions of a public asset listing: the laboratory's assets only,
/// narrowed by `keyword` (name, model, manufacturer or public notes),
/// `category_id`, `tracking_mode` and `manufacturer` where the query gives
/// them.
pub open spec fn spec_asset_filters(laboratory_id: u128, params: Seq<(Seq<char>, Seq<char>)>) -> Seq<PieceView> {
    seq![PieceView::Sql(" WHERE assets.laboratory_id = "@), PieceView::BindId(laboratory_id)]
        + keyword_filter(params, " AND (assets.name ILIKE "@, asset_keyword_columns())
        + id_filter(params, "category_id"@, " AND assets.category_id = "@)
        + text_filter(params, "tracking_mode"@, " AND assets.tracking_mode = "@)
        + text_filter(params, "manufacturer"@, " AND assets.manufacturer = "@)
}

pub fn push_asset_filters(laboratory_id: u128, params: &Vec<(String, String)>) -> (pieces: Vec<SqlPiece>)
    ensures
        pieces_view(pieces@) == spec_asset_filters(laboratory_id, pairs_view(params@)),
{
    let mut pieces: Vec<SqlPiece> = Vec::new();
    push_sql(&mut pieces, " WHERE assets.laboratory_id = ");
    push_id(&mut pieces, laboratory_id);
    let mut rest: Vec<&str> = Vec::new();
    rest.push(" OR COALESCE(assets.model, '') ILIKE ");
    rest.push(" OR COALESCE(assets.manufacturer, '') ILIKE ");
    rest.push(" OR COALESCE(assets.public_notes, '') ILIKE ");
    assert(rest@.map_values(|s: &str| s@) =~= asset_keyword_columns());
    push_keyword_filter(&mut pieces, params, " AND (assets.name ILIKE ", &rest);
    push_id_filter(&mut pieces, params, "category_id", " AND assets.category_id = ");
    push_text_filter(&mut pieces, params, "tracking_mode", " AND assets.tracking_mode = ");
    push_text_filter(&mut pieces, params, "manufacturer", " AND assets.manufacturer = ");
    assert(pieces_view(pieces@) =~= spec_asset_filters(laboratory_id, pairs_view(params@)));
    pieces
}

pub open spec fn inventory_keyword_columns() -> Seq<Seq<char>> {
    seq![
        " OR COALESCE(asset_inventory_items.serial_number, '') ILIKE "@,
        " OR COALESCE(asset_inventory_items.batch_number, '') ILIKE "@,
        " OR COALESCE(asset_inventory_items.public_notes, '') ILIKE "@,
    ]
}

/// The conditions of a public inventory listing: the laboratory's items
/// only, narrowed by `asset_id`, `status` and `keyword` (asset name, serial
/// or batch number, public notes) where the query gives them.
pub open spec fn spec_inventory_filters(laboratory_id: u128, params: Seq<(Seq<char>, Seq<char>)>) -> Seq<PieceView> {
    seq![PieceView::Sql(" WHERE asset_inventory_items.laboratory_id = "@), PieceView::BindId(laboratory_id)]
        + id_filter(params, "asset_id"@, " AND asset_inventory_items.asset_id = "@)
        + text_filter(params, "status"@, " AND asset_inventory_items.status = "@)
        + keyword_filter(params, " AND (assets.name ILIKE "@, inventory_keyword_columns())
}

pub fn push_inventory_filters(laboratory_id: u128, params: &Vec<(String, String)>) -> (pieces: Vec<SqlPiece>)
    ensures
        pieces_view(pieces@) == spec_inventory_filters(laboratory_id, pairs_view(params@)),
{
    let mut pieces: Vec<SqlPiece> = Vec::new();
    push_sql(&mut pieces, " WHERE asset_inventory_items.laboratory_id = ");
    push_id(&mut pieces, laboratory_id);
    push_id_filter(&mut pieces, params, "asset_id", " AND asset_inventory_items.asset_id = ");
    push_text_filter(&mut pieces, params, "status", " AND asset_inventory_items.status = ");
    let mut rest: Vec<&str> = Vec::new();
    rest.push(" OR COALESCE(asset_inventory_items.serial_number, '') ILIKE ");
    rest.push(" OR COALESCE(asset_inventory_items.batch_number, '') ILIKE ");
    rest.push(" OR COALESCE(asset_inventory_items.public_notes, '') ILIKE ");
    assert(rest@.map_values(|s: &str| s@) =~= inventory_keyword_columns());
    push_keyword_filter(&mut pieces, params, " AND (assets.name ILIKE ", &rest);
    assert(pieces_view(pieces@) =~= spec_inventory_filters(laboratory_id, pairs_view(params@)));
    pieces
}

/// A page is never empty by request nor larger than 200 items, and never
/// starts before the first item.
pub proof fn pages_are_bounded(query: Seq<char>)
    ensures
        spec_limit_offset(query) matches Ok((limit, offset)) ==> 1 <= limit <= 200 && offset >= 0,
{
}

/// The `Content-Disposition` header of a download: an attachment, under its
/// file name made safe to quote.
pub fn content_disposition_header(file_name: &str) -> (value: String)
    ensures
        value@ == "attachment; filename=\""@ + spec_content_disposition_filename(file_name@) + "\""@,
{
    let mut value = String::from_str("attachment; filename=\"");
    let safe = content_disposition_filename(file_name);
    value.append(safe.as_str());
    value.append("\"");
    value
}

/// The `Content-Type` of a download: the type recorded for the file, or
/// `application/octet-stream` where none was.
pub fn download_content_type(mime_type: Option<String>) -> (value: String)
    ensures
        value@ == (match mime_type {
            Some(m) => m@,
            None => "application/octet-stream"@,
        }),
{
    match mime_type {
        Some(m) => m,
        None => String::from_str("application/octet-stream"),
    }
}

/// The shape of a parameter's value, by its data type.
#[derive(Debug)]
pub enum ParameterValueKind {
    Text,
    Number,
    Range,
    Boolean,
    Date,
    Enum,
    /// A data type this server does not know; its value is shown as null.
    Unknown,
}

pub open spec fn spec_parameter_value_kind(data_type: Seq<char>) -> ParameterValueKind {
    if data_type == "text"@ {
        ParameterValueKind::Text
    } else if data_type == "number"@ {
        ParameterValueKind::Number
    } else if data_type == "range"@ {
        ParameterValueKind::Range
    } else if data_type == "boolean"@ {
        ParameterValueKind::Boolean
    } else if data_type == "date"@ {
        ParameterValueKind::Date
    } else if data_type == "enum"@ {
        ParameterValueKind::Enum
    } else {
        ParameterValueKind::Unknown
    }
}

pub fn parameter_value_kind(data_type: &str) -> (k: ParameterValueKind)
    ensures
        k == spec_parameter_value_kind(data_type@),
{
    if str_eq(data_type, "text") {
        ParameterValueKind::Text
    } else if str_eq(data_type, "number") {
        ParameterValueKind::Number
    } else if str_eq(data_type, "range") {
        ParameterValueKind::Range
    } else if str_eq(data_type, "boolean") {
        ParameterValueKind::Boolean
    } else if str_eq(data_type, "date") {
        ParameterValueKind::Date
    } else if str_eq(data_type, "enum") {
        ParameterValueKind::Enum
    } else {
        ParameterValueKind::Unknown
    }
}

/// The SQL text an asset listing's conditions are written with.
pub open spec fn asset_filter_sql() -> Set<Seq<char>> {
    set![
        " WHERE assets.laboratory_id = "@,
        " AND (assets.name ILIKE "@,
        " OR COALESCE(assets.model, '') ILIKE "@,
        " OR COALESCE(assets.manufacturer, '') ILIKE "@,
        " OR COALESCE(assets.public_notes, '') ILIKE "@,
        ")"@,
        " AND assets.category_id = "@,
        " AND assets.tracking_mode = "@,
        " AND assets.manufacturer = "@,
    ]
}

/// The SQL text an inventory listing's conditions are written with.
pub open spec fn inventory_filter_sql() -> Set<Seq<char>> {
    set![
        " WHERE asset_inventory_items.laboratory_id = "@,
        " AND asset_inventory_items.asset_id = "@,
        " AND asset_inventory_items.status = "@,
        " AND (assets.name ILIKE "@,
        " OR COALESCE(asset_inventory_items.serial_number, '') ILIKE "@,
        " OR COALESCE(asset_inventory_items.batch_number, '') ILIKE "@,
        " OR COALESCE(asset_inventory_items.public_notes, '') ILIKE "@,
        ")"@,
    ]
}

/// A public listing reads one laboratory only, and whatever the query
/// string says is bound as a value: the SQL text of its conditions is fixed.
pub proof fn public_filters_are_scoped_and_bound(laboratory_id: u128, params: Seq<(Seq<char>, Seq<char>)>)
    ensures
        spec_asset_filters(laboratory_id, params).subrange(0, 2) == seq![
            PieceView::Sql(" WHERE assets.laboratory_id = "@),
            PieceView::BindId(laboratory_id),
        ],
        sql_texts_within(spec_asset_filters(laboratory_id, params), asset_filter_sql()),
        spec_inventory_filters(laboratory_id, params).subrange(0, 2) == seq![
            PieceView::Sql(" WHERE asset_inventory_items.laboratory_id = "@),
            PieceView::BindId(laboratory_id),
        ],
        sql_texts_within(spec_inventory_filters(laboratory_id, params), inventory_filter_sql()),
{
    let a = asset_filter_sql();
    let head_a = seq![PieceView::Sql(" WHERE assets.laboratory_id = "@), PieceView::BindId(laboratory_id)];
    assert(sql_texts_within(head_a, a));
    let kw_a = keyword_filter(params, " AND (assets.name ILIKE "@, asset_keyword_columns());
    if let Some(k) = filter_text(param_lookup(params, "keyword"@)) {
        let cols = asset_keyword_columns();
        assert forall|j: int| 0 <= j < cols.len() implies a.contains(#[trigger] cols[j]) by {}
        lemma_keyword_pieces_within(" AND (assets.name ILIKE "@, cols, like_pattern(k), a);
        lemma_concat_within(keyword_pieces(" AND (assets.name ILIKE "@, cols, like_pattern(k)), seq![PieceView::Sql(")"@)], a);
    }
    assert(sql_texts_within(kw_a, a));
    let cat = id_filter(params, "category_id"@, " AND assets.category_id = "@);
    assert(sql_texts_within(cat, a));
    let tm = text_filter(params, "tracking_mode"@, " AND assets.tracking_mode = "@);
    assert(sql_texts_within(tm, a));
    let mf = text_filter(params, "manufacturer"@, " AND assets.manufacturer = "@);
    assert(sql_texts_within(mf, a));
    lemma_concat_within(head_a, kw_a, a);
    lemma_concat_within(head_a + kw_a, cat, a);
    lemma_concat_within(head_a + kw_a + cat, tm, a);
    lemma_concat_within(head_a + kw_a + cat + tm, mf, a);
    assert(spec_asset_filters(laboratory_id, params).subrange(0, 2) =~= head_a);

    let b = inventory_filter_sql();
    let head_b = seq![PieceView::Sql(" WHERE asset_inventory_items.laboratory_id = "@), PieceView::BindId(laboratory_id)];
    assert(sql_texts_within(head_b, b));
    let asset = id_filter(params, "asset_id"@, " AND asset_inventory_items.asset_id = "@);
    assert(sql_texts_within(asset, b));
    let st = text_filter(params, "status"@, " AND asset_inventory_items.status = "@);
    assert(sql_texts_within(st, b));
    let kw_b = keyword_filter(params, " AND (assets.name ILIKE "@, inventory_keyword_columns());
    if let Some(k) = filter_text(param_lookup(params, "keyword"@)) {
        let cols = inventory_keyword_columns();
        assert forall|j: int| 0 <= j < cols.len() implies b.contains(#[trigger] cols[j]) by {}
        lemma_keyword_pieces_within(" AND (assets.name ILIKE "@, cols, like_pattern(k), b);
        lemma_concat_within(keyword_pieces(" AND (assets.name ILIKE "@, cols, like_pattern(k)), seq![PieceView::Sql(")"@)], b);
    }
    assert(sql_texts_within(kw_b, b));
    lemma_concat_within(head_b, asset, b);
    lemma_concat_within(head_b + asset, st, b);
    lemma_concat_within(head_b + asset + st, kw_b, b);
    assert(spec_inventory_filters(laboratory_id, params).subrange(0, 2) =~= head_b);
}

/// The pieces a non-blank keyword adds to a listing of a partner's public
/// inventory: the asset name, serial number, batch number and public notes
/// each matched against the keyword, trimmed, with `%` on both sides.
pub open spec fn inventory_keyword_block(keyword: Seq<char>) -> Seq<PieceView> {
    let p = seq!['%'] + trim(keyword) + seq!['%'];
    seq![
        PieceView::Sql(" AND (assets.name ILIKE "@),
        PieceView::BindText(p),
        PieceView::Sql(" OR COALESCE(asset_inventory_items.serial_number, '') ILIKE "@),
        PieceView::BindText(p),
        PieceView::Sql(" OR COALESCE(asset_inventory_items.batch_number, '') ILIKE "@),
        PieceView::BindText(p),
        PieceView::Sql(" OR COALESCE(asset_inventory_items.public_notes, '') ILIKE "@),
        PieceView::BindText(p),
        PieceView::Sql(")"@),
    ]
}

/// The same for a listing of a partner's public assets: name, model,
/// manufacturer and public notes.
pub open spec fn asset_keyword_block(keyword: Seq<char>) -> Seq<PieceView> {
    let p = seq!['%'] + trim(keyword) + seq!['%'];
    seq![
        PieceView::Sql(" AND (assets.name ILIKE "@),
        PieceView::BindText(p),
        PieceView::Sql(" OR COALESCE(assets.model, '') ILIKE "@),
        PieceView::BindText(p),
        PieceView::Sql(" OR COALESCE(assets.manufacturer, '') ILIKE "@),
        PieceView::BindText(p),
        PieceView::Sql(" OR COALESCE(assets.public_notes, '') ILIKE "@),
        PieceView::BindText(p),
        PieceView::Sql(")"@),
    ]
}

/// A listing narrowed by a keyword: where the query's last `keyword` is not
/// blank, a public inventory listing ends with the condition that matches it
/// against the item's searchable columns, and a public asset listing
/// follows its laboratory condition with the one that matches it against the
/// asset's.
pub proof fn keywords_narrow_public_listings(laboratory_id: u128, params: Seq<(Seq<char>, Seq<char>)>, keyword: Seq<char>)
    requires
        param_lookup(params, "keyword"@) == Some(keyword),
        trim(keyword).len() > 0,
    ensures
        ({
            let f = spec_inventory_filters(laboratory_id, params);
            &&& f.len() >= 9
            &&& f.subrange(f.len() - 9, f.len() as int) == inventory_keyword_block(keyword)
        }),
        spec_asset_filters(laboratory_id, params).len() >= 11,
        spec_asset_filters(laboratory_id, params).subrange(2, 11) == asset_keyword_block(keyword),
{
    reveal_with_fuel(keyword_pieces, 4);
    let k = trim(keyword);
    assert(filter_text(param_lookup(params, "keyword"@)) == Some(k));
    let kw_b = keyword_filter(params, " AND (assets.name ILIKE "@, inventory_keyword_columns());
    assert(kw_b =~= inventory_keyword_block(keyword));
    let f = spec_inventory_filters(laboratory_id, params);
    let head_b = seq![PieceView::Sql(" WHERE asset_inventory_items.laboratory_id = "@), PieceView::BindId(laboratory_id)]
        + id_filter(params, "asset_id"@, " AND asset_inventory_items.asset_id = "@)
        + text_filter(params, "status"@, " AND asset_inventory_items.status = "@);
    assert(f == head_b + kw_b);
    assert(f.subrange(f.len() - 9, f.len() as int) =~= kw_b);
    let kw_a = keyword_filter(params, " AND (assets.name ILIKE "@, asset_keyword_columns());
    assert(kw_a =~= asset_keyword_block(keyword));
    let g = spec_asset_filters(laboratory_id, params);
    let head_a = seq![PieceView::Sql(" WHERE assets.laboratory_id = "@), PieceView::BindId(laboratory_id)];
    let tail_a = id_filter(params, "category_id"@, " AND assets.category_id = "@)
        + text_filter(params, "tracking_mode"@, " AND assets.tracking_mode = "@)
        + text_filter(params, "manufacturer"@, " AND assets.manufacturer = "@);
    assert(g =~= head_a + kw_a + tail_a);
    assert(g.subrange(2, 11) =~= kw_a);
}

/// A listing whose query gives no keyword, or a blank one, is not narrowed
/// by any: no condition matches a pattern.
pub proof fn listings_without_a_keyword_match_no_pattern(laboratory_id: u128, params: Seq<(Seq<char>, Seq<char>)>)
    requires
        param_lookup(params, "keyword"@) matches Some(k) ==> trim(k).len() == 0,
    ensures
        !spec_inventory_filters(laboratory_id, params).contains(PieceView::Sql(" AND (assets.name ILIKE "@)),
        !spec_asset_filters(laboratory_id, params).contains(PieceView::Sql(" AND (assets.name ILIKE "@)),
{
    reveal_strlit(" AND (assets.name ILIKE ");
    reveal_strlit(" WHERE asset_inventory_items.laboratory_id = ");
    reveal_strlit(" AND asset_inventory_items.asset_id = ");
    reveal_strlit(" AND asset_inventory_items.status = ");
    reveal_strlit(" WHERE assets.laboratory_id = ");
    reveal_strlit(" AND assets.category_id = ");
    reveal_strlit(" AND assets.tracking_mode = ");
    reveal_strlit(" AND assets.manufacturer = ");
    let target = PieceView::Sql(" AND (assets.name ILIKE "@);
    let f = spec_inventory_filters(laboratory_id, params);
    assert(" AND (assets.name ILIKE "@[5] != " AND asset_inventory_items.asset_id = "@[5]);
    assert(" AND (assets.name ILIKE "@[5] != " AND asset_inventory_items.status = "@[5]);
    assert(" AND (assets.name ILIKE "@ != " WHERE asset_inventory_items.laboratory_id = "@);
    assert(" AND (assets.name ILIKE "@ != " WHERE assets.laboratory_id = "@);
    assert(" AND (assets.name ILIKE "@ != " AND assets.category_id = "@);
    assert(" AND (assets.name ILIKE "@ != " AND assets.tracking_mode = "@);
    assert(" AND (assets.name ILIKE "@ != " AND assets.manufacturer = "@);
    assert forall|i: int| 0 <= i < f.len() implies f[i] != target by {}
    let g = spec_asset_filters(laboratory_id, params);
    assert forall|i: int| 0 <= i < g.len() implies g[i] != target by {}
}

/// The narrowing filters of a public listing: where the query gives a value
/// that is not blank (its last one, trimmed), the listing holds the condition
/// that binds it; where it gives an id, the condition that binds that id.
/// Inventory is narrowed by `asset_id` and `status`, assets by
/// `category_id`, `tracking_mode` and `manufacturer`.
pub proof fn public_listings_are_narrowed_by_their_query(
    laboratory_id: u128,
    params: Seq<(Seq<char>, Seq<char>)>,
)
    ensures
        param_lookup(params, "status"@) is Some && trim(param_lookup(params, "status"@)->Some_0).len() > 0 ==> holds_condition(
            spec_inventory_filters(laboratory_id, params),
            " AND asset_inventory_items.status = "@,
            PieceView::BindText(trim(param_lookup(params, "status"@)->Some_0)),
        ),
        param_lookup(params, "asset_id"@) is Some && uuid_from_text(param_lookup(params, "asset_id"@)->Some_0) is Some ==> holds_condition(
            spec_inventory_filters(laboratory_id, params),
            " AND asset_inventory_items.asset_id = "@,
            PieceView::BindId(uuid_from_text(param_lookup(params, "asset_id"@)->Some_0)->Some_0),
        ),
        param_lookup(params, "category_id"@) is Some && uuid_from_text(param_lookup(params, "category_id"@)->Some_0) is Some ==> holds_condition(
            spec_asset_filters(laboratory_id, params),
            " AND assets.category_id = "@,
            PieceView::BindId(uuid_from_text(param_lookup(params, "category_id"@)->Some_0)->Some_0),
        ),
        param_lookup(params, "tracking_mode"@) is Some && trim(param_lookup(params, "tracking_mode"@)->Some_0).len() > 0 ==> holds_condition(
            spec_asset_filters(laboratory_id, params),
            " AND assets.tracking_mode = "@,
            PieceView::BindText(trim(param_lookup(params, "tracking_mode"@)->Some_0)),
        ),
        param_lookup(params, "manufacturer"@) is Some && trim(param_lookup(params, "manufacturer"@)->Some_0).len() > 0 ==> holds_condition(
            spec_asset_filters(laboratory_id, params),
            " AND assets.manufacturer = "@,
            PieceView::BindText(trim(param_lookup(params, "manufacturer"@)->Some_0)),
        ),
{
    let head_b = seq![PieceView::Sql(" WHERE asset_inventory_items.laboratory_id = "@), PieceView::BindId(laboratory_id)];
    let asset = id_filter(params, "asset_id"@, " AND asset_inventory_items.asset_id = "@);
    let st = text_filter(params, "status"@, " AND asset_inventory_items.status = "@);
    let kw_b = keyword_filter(params, " AND (assets.name ILIKE "@, inventory_keyword_columns());
    assert(spec_inventory_filters(laboratory_id, params) == head_b + asset + st + kw_b);
    if param_lookup(params, "status"@) is Some && trim(param_lookup(params, "status"@)->Some_0).len() > 0 {
        let v = param_lookup(params, "status"@)->Some_0;
        assert(head_b + asset + st + kw_b =~= (head_b + asset) + seq![
            PieceView::Sql(" AND asset_inventory_items.status = "@),
            PieceView::BindText(trim(v)),
        ] + kw_b);
        lemma_holds_condition_in(head_b + asset, " AND asset_inventory_items.status = "@, PieceView::BindText(trim(v)), kw_b);
    }
    if param_lookup(params, "asset_id"@) is Some && uuid_from_text(param_lookup(params, "asset_id"@)->Some_0) is Some {
        let v = param_lookup(params, "asset_id"@)->Some_0;
        assert(head_b + asset + st + kw_b =~= head_b + seq![
            PieceView::Sql(" AND asset_inventory_items.asset_id = "@),
            PieceView::BindId(uuid_from_text(v)->Some_0),
        ] + (st + kw_b));
        lemma_holds_condition_in(head_b, " AND asset_inventory_items.asset_id = "@, PieceView::BindId(uuid_from_text(v)->Some_0), st + kw_b);
    }
    let head_a = seq![PieceView::Sql(" WHERE assets.laboratory_id = "@), PieceView::BindId(laboratory_id)];
    let kw_a = keyword_filter(params, " AND (assets.name ILIKE "@, asset_keyword_columns());
    let cat = id_filter(params, "category_id"@, " AND assets.category_id = "@);
    let tm = text_filter(params, "tracking_mode"@, " AND assets.tracking_mode = "@);
    let mf = text_filter(params, "manufacturer"@, " AND assets.manufacturer = "@);
    assert(spec_asset_filters(laboratory_id, params) == head_a + kw_a + cat + tm + mf);
    if param_lookup(params, "category_id"@) is Some && uuid_from_text(param_lookup(params, "category_id"@)->Some_0) is Some {
        let v = param_lookup(params, "category_id"@)->Some_0;
        assert(head_a + kw_a + cat + tm + mf =~= (head_a + kw_a) + seq![
            PieceView::Sql(" AND assets.category_id = "@),
            PieceView::BindId(uuid_from_text(v)->Some_0),
        ] + (tm + mf));
        lemma_holds_condition_in(head_a + kw_a, " AND assets.category_id = "@, PieceView::BindId(uuid_from_text(v)->Some_0), tm + mf);
    }
    if param_lookup(params, "tracking_mode"@) is Some && trim(param_lookup(params, "tracking_mode"@)->Some_0).len() > 0 {
        let v = param_lookup(params, "tracking_mode"@)->Some_0;
        assert(head_a + kw_a + cat + tm + mf =~= (head_a + kw_a + cat) + seq![
            PieceView::Sql(" AND assets.tracking_mode = "@),
            PieceView::BindText(trim(v)),
        ] + mf);
        lemma_holds_condition_in(head_a + kw_a + cat, " AND assets.tracking_mode = "@, PieceView::BindText(trim(v)), mf);
    }
    if param_lookup(params, "manufacturer"@) is Some && trim(param_lookup(params, "manufacturer"@)->Some_0).len() > 0 {
        let v = param_lookup(params, "manufacturer"@)->Some_0;
        assert(head_a + kw_a + cat + tm + mf =~= (head_a + kw_a + cat + tm) + seq![
            PieceView::Sql(" AND assets.manufacturer = "@),
            PieceView::BindText(trim(v)),
        ] + Seq::<PieceView>::empty());
        lemma_holds_condition_in(head_a + kw_a + cat + tm, " AND assets.manufacturer = "@, PieceView::BindText(trim(v)), Seq::<PieceView>::empty());
    }
}

/// What a read of a partner's public data reaches, by the non-empty
/// segments of its path: the laboratory for none; a collection by its name
/// alone; one of its members by its name and the member's id; and an
/// asset's or inventory item's attachments, or an attachment's download,
/// by a third segment; nothing else.
pub proof fn reads_reach_what_their_path_names(path: Seq<char>, id: u128)
    ensures
        ({
            let segs = path_segments(path);
            &&& spec_read_target(path) == Some(FederationReadTarget::Laboratory) <==> segs.len() == 0
            &&& spec_read_target(path) == Some(FederationReadTarget::Assets) <==> segs =~= seq!["assets"@]
            &&& spec_read_target(path) == Some(FederationReadTarget::Asset(id)) <==> (segs.len() == 2 && segs[0] == "assets"@
            && uuid_from_text(segs[1]) == Some(id))
            &&& spec_read_target(path) == Some(FederationReadTarget::InventoryItems) <==> segs =~= seq!["inventory-items"@]
            &&& spec_read_target(path) == Some(FederationReadTarget::InventoryItem(id)) <==> (segs.len() == 2 && segs[0] == "inventory-items"@
            && uuid_from_text(segs[1]) == Some(id))
            &&& spec_read_target(path) == Some(FederationReadTarget::AssetCategories) <==> segs =~= seq!["asset-categories"@]
            &&& spec_read_target(path) == Some(FederationReadTarget::AssetCategory(id)) <==> (segs.len() == 2 && segs[0] == "asset-categories"@
            && uuid_from_text(segs[1]) == Some(id))
            &&& spec_read_target(path) == Some(FederationReadTarget::AssetParameters) <==> segs =~= seq!["asset-parameters"@]
            &&& spec_read_target(path) == Some(FederationReadTarget::AssetParameter(id)) <==> (segs.len() == 2 && segs[0] == "asset-parameters"@
            && uuid_from_text(segs[1]) == Some(id))
            &&& spec_read_target(path) == Some(FederationReadTarget::Locations) <==> segs =~= seq!["locations"@]
            &&& spec_read_target(path) == Some(FederationReadTarget::Location(id)) <==> (segs.len() == 2 && segs[0] == "locations"@
            && uuid_from_text(segs[1]) == Some(id))
            &&& spec_read_target(path) == Some(FederationReadTarget::Units) <==> segs =~= seq!["units"@]
            &&& spec_read_target(path) == Some(FederationReadTarget::Unit(id)) <==> (segs.len() == 2 && segs[0] == "units"@
            && uuid_from_text(segs[1]) == Some(id))
            &&& spec_read_target(path) == Some(FederationReadTarget::Attachments) <==> segs =~= seq!["attachments"@]
            &&& spec_read_target(path) == Some(FederationReadTarget::Attachment(id)) <==> (segs.len() == 2 && segs[0] == "attachments"@
            && uuid_from_text(segs[1]) == Some(id))
            &&& spec_read_target(path) == Some(FederationReadTarget::AssetAttachments(id)) <==> (segs.len() == 3 && segs[0] == "assets"@
            && uuid_from_text(segs[1]) == Some(id) && segs[2] == "attachments"@)
            &&& spec_read_target(path) == Some(FederationReadTarget::InventoryItemAttachments(id)) <==> (segs.len() == 3 && segs[0] == "inventory-items"@
            && uuid_from_text(segs[1]) == Some(id) && segs[2] == "attachments"@)
            &&& spec_read_target(path) == Some(FederationReadTarget::AttachmentDownload(id)) <==> (segs.len() == 3 && segs[0] == "attachments"@
            && uuid_from_text(segs[1]) == Some(id) && segs[2] == "download"@)
            &&& segs.len() > 3 ==> spec_read_target(path) is None
        }),
{
    reveal_strlit("asset-categories");
    reveal_strlit("asset-parameters");
    reveal_strlit("assets");
    reveal_strlit("attachments");
    reveal_strlit("download");
    reveal_strlit("inventory-items");
    reveal_strlit("locations");
    reveal_strlit("units");
    assert("asset-categories"@[6] != "asset-parameters"@[6]);
    let segs = path_segments(path);
    assert("assets"@.len() == 6 && "inventory-items"@.len() == 15 && "asset-categories"@.len() == 16
        && "asset-parameters"@.len() == 16 && "locations"@.len() == 9 && "units"@.len() == 5
        && "attachments"@.len() == 11 && "download"@.len() == 8);
    if segs.len() == 1 {
        assert(segs =~= seq![segs[0]]);
        assert(spec_read_target(path) == collection(segs[0]));
    }
}

/// The page a query asks for: `limit` is the number it gives, capped at
/// 200, or 50 where it gives none; `offset` the number it gives, or 0. A
/// value that is not a number, a limit that is not positive and a negative
/// offset are refused; every other query is answered.
pub proof fn pages_are_what_the_query_asks(query: Seq<char>)
    ensures
        ({
            let params = form_urlencoded_pairs_of(query);
            let limit = param_lookup(params, "limit"@);
            let offset = param_lookup(params, "offset"@);
            let asked_limit: Option<i64> = if limit is None { Some(50i64) } else { i64_from_text(limit->Some_0) };
            let asked_offset: Option<i64> = if offset is None { Some(0i64) } else { i64_from_text(offset->Some_0) };
            &&& asked_limit is None ==> spec_limit_offset(query) == Err::<(i64, i64), (u16, Seq<char>)>(
                (400, "limit must be a number"@),
            )
            &&& asked_limit is Some && asked_offset is None ==> spec_limit_offset(query) == Err::<
                (i64, i64),
                (u16, Seq<char>),
            >((400, "offset must be a number"@))
            &&& asked_limit is Some && asked_offset is Some ==> {
                let l = asked_limit->Some_0;
                let o = asked_offset->Some_0;
                &&& l <= 0 ==> spec_limit_offset(query) is Err
                &&& l > 0 && o < 0 ==> spec_limit_offset(query) is Err
                &&& l > 0 && o >= 0 ==> spec_limit_offset(query) == Ok::<(i64, i64), (u16, Seq<char>)>(
                    (if l > 200 { 200 } else { l }, o),
                )
            }
        }),
{
}

/// A download keeps its file name character for character, except that a
/// quote, a backslash or a control character becomes `_`.
pub proof fn download_names_change_only_unsafe_characters(name: Seq<char>)
    ensures
        spec_content_disposition_filename(name).len() == name.len(),
        forall|i: int|
            0 <= i < name.len() ==> {
                let c = #[trigger] name[i];
                &&& (c != '"' && c != '\\' && !spec_is_control(c)) ==> spec_content_disposition_filename(name)[i] == c
                &&& (c == '"' || c == '\\' || spec_is_control(c)) ==> spec_content_disposition_filename(name)[i] == '_'
            },
{
}

/// A parameter's value is shown by its data type: text, number, range,
/// boolean, date and enumeration each as such, any other as unknown.
pub proof fn parameter_values_are_shown_by_their_type(data_type: Seq<char>)
    ensures
        data_type == "text"@ ==> spec_parameter_value_kind(data_type) == ParameterValueKind::Text,
        data_type == "number"@ ==> spec_parameter_value_kind(data_type) == ParameterValueKind::Number,
        data_type == "range"@ ==> spec_parameter_value_kind(data_type) == ParameterValueKind::Range,
        data_type == "boolean"@ ==> spec_parameter_value_kind(data_type) == ParameterValueKind::Boolean,
        data_type == "date"@ ==> spec_parameter_value_kind(data_type) == ParameterValueKind::Date,
        data_type == "enum"@ ==> spec_parameter_value_kind(data_type) == ParameterValueKind::Enum,
        data_type != "text"@ && data_type != "number"@ && data_type != "range"@ && data_type != "boolean"@
            && data_type != "date"@ && data_type != "enum"@ ==> spec_parameter_value_kind(data_type)
            == ParameterValueKind::Unknown,
{
    reveal_strlit("text");
    reveal_strlit("number");
    reveal_strlit("range");
    reveal_strlit("boolean");
    reveal_strlit("date");
    reveal_strlit("enum");
    assert("text"@[0] != "date"@[0] && "text"@[0] != "enum"@[0] && "date"@[0] != "enum"@[0]);
    assert("number"@.len() != "range"@.len());
}

} // verus!
