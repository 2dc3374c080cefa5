//! Listing an inventory: the columns a listing reads, the conditions a
//! listing query selects, and which queries are refused before any is run.
use crate::errors::{InventoryItemError, ParameterFilterError};
use crate::inventory::{parse_tracking_mode, spec_parse_inventory_status, spec_parse_tracking_mode, validate_status};
use crate::sql::{
    PieceView, SqlPiece, contains_pattern, filter_text, filter_value, keyword_pieces, lemma_concat_within,
    lemma_keyword_pieces_within, like_pattern, pieces_view, push_id, push_keyword_pieces, push_sql,
    push_text, sql_texts_within, holds_condition, lemma_holds_condition_append, lemma_holds_condition_prepend, lemma_contains_append,
    lemma_contains_prepend, lemma_keyword_pieces_starts,
};
use crate::text::trim;
use vstd::prelude::*;

verus! {

/// The columns an inventory item read returns, with those of its asset.
pub fn inventory_item_select() -> (sql: &'static str)
    ensures
        sql@ == "\n    SELECT\n        asset_inventory_items.inventory_item_id,\n        asset_inventory_items.asset_id,\n        asset_inventory_items.laboratory_id,\n        asset_inventory_items.tracking_mode,\n        asset_inventory_items.serial_number,\n        asset_inventory_items.batch_number,\n        asset_inventory_items.quantity_on_hand::double precision AS quantity_on_hand,\n        asset_inventory_items.quantity_allocated::double precision AS quantity_allocated,\n        asset_inventory_items.location_id,\n        asset_inventory_items.status,\n        asset_inventory_items.public_notes,\n        asset_inventory_items.internal_notes,\n        asset_inventory_items.created_at,\n        asset_inventory_items.updated_at,\n        asset_inventory_items.last_stocktake_at,\n        assets.category_id AS asset_category_id,\n        assets.name AS asset_name,\n        assets.model AS asset_model,\n        assets.manufacturer AS asset_manufacturer,\n        assets.inventory_unit_id AS asset_inventory_unit_id\n    FROM asset_inventory_items\n    JOIN assets\n      ON assets.asset_id = asset_inventory_items.asset_id\n    "@,
{
    "\n    SELECT\n        asset_inventory_items.inventory_item_id,\n        asset_inventory_items.asset_id,\n        asset_inventory_items.laboratory_id,\n        asset_inventory_items.tracking_mode,\n        asset_inventory_items.serial_number,\n        asset_inventory_items.batch_number,\n        asset_inventory_items.quantity_on_hand::double precision AS quantity_on_hand,\n        asset_inventory_items.quantity_allocated::double precision AS quantity_allocated,\n        asset_inventory_items.location_id,\n        asset_inventory_items.status,\n        asset_inventory_items.public_notes,\n        asset_inventory_items.internal_notes,\n        asset_inventory_items.created_at,\n        asset_inventory_items.updated_at,\n        asset_inventory_items.last_stocktake_at,\n        assets.category_id AS asset_category_id,\n        assets.name AS asset_name,\n        assets.model AS asset_model,\n        assets.manufacturer AS asset_manufacturer,\n        assets.inventory_unit_id AS asset_inventory_unit_id\n    FROM asset_inventory_items\n    JOIN assets\n      ON assets.asset_id = asset_inventory_items.asset_id\n    "
}

/// The columns an inventory listing returns, with the names of the item's
/// asset, laboratory, unit and location.
pub fn inventory_list_select() -> (sql: &'static str)
    ensures
        sql@ == "\n    SELECT\n        asset_inventory_items.inventory_item_id,\n        asset_inventory_items.asset_id,\n        assets.name AS asset_name,\n        assets.model AS asset_model,\n        asset_inventory_items.laboratory_id,\n        laboratories.name AS laboratory_name,\n        asset_inventory_items.tracking_mode,\n        asset_inventory_items.serial_number,\n        asset_inventory_items.batch_number,\n        asset_inventory_items.quantity_on_hand,\n        asset_inventory_items.quantity_allocated,\n        asset_inventory_items.unit_id,\n        units.code AS unit_code,\n        units.allow_decimal AS unit_allow_decimal,\n        asset_inventory_items.location_id,\n        locations.name AS location_name,\n        asset_inventory_items.status,\n        asset_inventory_items.is_cross_lab_borrowable,\n        asset_inventory_items.public_notes,\n        asset_inventory_items.internal_notes,\n        asset_inventory_items.created_at,\n        asset_inventory_items.updated_at\n    FROM asset_inventory_items\n    INNER JOIN assets USING (asset_id)\n    INNER JOIN laboratories ON laboratories.laboratory_id = asset_inventory_items.laboratory_id\n    INNER JOIN units ON units.unit_id = asset_inventory_items.unit_id\n    LEFT JOIN locations ON locations.location_id = asset_inventory_items.location_id\n    "@,
{
    "\n    SELECT\n        asset_inventory_items.inventory_item_id,\n        asset_inventory_items.asset_id,\n        assets.name AS asset_name,\n        assets.model AS asset_model,\n        asset_inventory_items.laboratory_id,\n        laboratories.name AS laboratory_name,\n        asset_inventory_items.tracking_mode,\n        asset_inventory_items.serial_number,\n        asset_inventory_items.batch_number,\n        asset_inventory_items.quantity_on_hand,\n        asset_inventory_items.quantity_allocated,\n        asset_inventory_items.unit_id,\n        units.code AS unit_code,\n        units.allow_decimal AS unit_allow_decimal,\n        asset_inventory_items.location_id,\n        locations.name AS location_name,\n        asset_inventory_items.status,\n        asset_inventory_items.is_cross_lab_borrowable,\n        asset_inventory_items.public_notes,\n        asset_inventory_items.internal_notes,\n        asset_inventory_items.created_at,\n        asset_inventory_items.updated_at\n    FROM asset_inventory_items\n    INNER JOIN assets USING (asset_id)\n    INNER JOIN laboratories ON laboratories.laboratory_id = asset_inventory_items.laboratory_id\n    INNER JOIN units ON units.unit_id = asset_inventory_items.unit_id\n    LEFT JOIN locations ON locations.location_id = asset_inventory_items.location_id\n    "
}

/// What a listing of inventory items selects by. Paging and parameter
/// filters are read separately.
#[derive(Debug)]
pub struct ListInventoryItemsQuery {
    pub keyword: Option<String>,
    pub asset_id: Option<u128>,
    pub category_id: Option<u128>,
    pub exact_category: Option<bool>,
    pub tracking_mode: Option<String>,
    pub status: Option<String>,
    pub serial_number: Option<String>,
    pub batch_number: Option<String>,
    pub location_id: Option<u128>,
    pub has_batch: Option<bool>,
    pub has_location: Option<bool>,
}

pub open spec fn opt_str(o: Option<String>) -> Option<Seq<char>> {
    match o {
        Some(s) => Some(s@),
        None => None,
    }
}

pub open spec fn spec_validate_query(tracking_mode: Option<Seq<char>>, status: Option<Seq<char>>) -> Result<(), Seq<char>> {
    match tracking_mode {
        Some(m) if spec_parse_tracking_mode(m) is Err => Err(spec_parse_tracking_mode(m)->Err_0),
        _ => match status {
            Some(s) if spec_parse_inventory_status(s) is Err => Err(spec_parse_inventory_status(s)->Err_0),
            _ => Ok(()),
        },
    }
}

/// A listing names a tracking mode and a status only among those that exist.
pub fn validate_query(query: &ListInventoryItemsQuery) -> (r: Result<(), InventoryItemError>)
    ensures
        match spec_validate_query(opt_str(query.tracking_mode), opt_str(query.status)) {
            Ok(()) => r is Ok,
            Err(m) => r matches Err(e) && e.spec_status_code() == 400 && e.spec_message() == m,
        },
{
    match &query.tracking_mode {
        Some(m) => match parse_tracking_mode(m.as_str()) {
            Ok(_) => {},
            Err(e) => {
                return Err(InventoryItemError::ValidationError(e));
            },
        },
        None => {},
    }
    let status = match &query.status {
        Some(s) => Some(String::from_str(s.as_str())),
        None => None,
    };
    match validate_status(status) {
        Ok(_) => Ok(()),
        Err(e) => Err(InventoryItemError::ValidationError(e)),
    }
}

/// A parameter filter that could not be read is answered as the listing's
/// own error, keeping whether it was the query's fault.
pub fn map_parameter_filter_error(error: ParameterFilterError) -> (r: InventoryItemError)
    ensures
        r.spec_status_code() == error.spec_status_code(),
        r.spec_message() == error.spec_message(),
{
    InventoryItemError::from(error)
}

pub open spec fn opt_text_filter(value: Option<Seq<char>>, sql: Seq<char>) -> Seq<PieceView> {
    match filter_text(value) {
        Some(v) => seq![PieceView::Sql(sql), PieceView::BindText(v)],
        None => Seq::empty(),
    }
}

pub open spec fn opt_id_filter(value: Option<u128>, sql: Seq<char>) -> Seq<PieceView> {
    match value {
        Some(id) => seq![PieceView::Sql(sql), PieceView::BindId(id)],
        None => Seq::empty(),
    }
}

pub open spec fn presence_filter(value: Option<bool>, present: Seq<char>, absent: Seq<char>) -> Seq<PieceView> {
    match value {
        Some(true) => seq![PieceView::Sql(present)],
        Some(false) => seq![PieceView::Sql(absent)],
        None => Seq::empty(),
    }
}

pub open spec fn item_keyword_columns() -> Seq<Seq<char>> {
    seq![
        " OR COALESCE(assets.model, '') ILIKE "@,
        " OR COALESCE(assets.manufacturer, '') ILIKE "@,
        " OR COALESCE(asset_inventory_items.serial_number, '') ILIKE "@,
        " OR COALESCE(asset_inventory_items.batch_number, '') ILIKE "@,
        " OR COALESCE(asset_inventory_items.public_notes, '') ILIKE "@,
        " OR COALESCE(asset_inventory_items.internal_notes, '') ILIKE "@,
    ]
}

pub open spec fn item_keyword_filter(keyword: Option<Seq<char>>) -> Seq<PieceView> {
    match filter_text(keyword) {
        Some(k) => keyword_pieces("\n            AND (\n                assets.name ILIKE\n            "@, item_keyword_columns(), like_pattern(k)) + seq![
            PieceView::Sql(")"@),
        ],
        None => Seq::empty(),
    }
}

/// A category narrows the listing to itself, or, unless `exact_category` is
/// set, to its whole subtree.
pub open spec fn category_filter(laboratory_id: u128, category_id: Option<u128>, exact: Option<bool>) -> Seq<PieceView> {
    match category_id {
        Some(c) => if exact == Some(true) {
            seq![PieceView::Sql(" AND assets.category_id = "@), PieceView::BindId(c)]
        } else {
            seq![
                PieceView::Sql("\n                AND assets.category_id IN (\n                    SELECT child.category_id\n                    FROM asset_categories AS root\n                    JOIN asset_categories AS child\n                      ON child.laboratory_id = root.laboratory_id\n                     AND child.path <@ root.path\n                    WHERE root.laboratory_id =\n                "@),
                PieceView::BindId(laboratory_id),
                PieceView::Sql(" AND root.category_id = "@),
                PieceView::BindId(c),
                PieceView::Sql(")"@),
            ]
        },
        None => Seq::empty(),
    }
}

/// The conditions of an inventory listing: the laboratory's items, narrowed
/// by each criterion the query gives, in a fixed order.
pub open spec fn spec_item_filters(laboratory_id: u128, q: ListInventoryItemsQuery) -> Seq<PieceView> {
    seq![PieceView::Sql(" WHERE asset_inventory_items.laboratory_id = "@), PieceView::BindId(laboratory_id)]
        + item_keyword_filter(opt_str(q.keyword))
        + opt_id_filter(q.asset_id, " AND asset_inventory_items.asset_id = "@)
        + category_filter(laboratory_id, q.category_id, q.exact_category)
        + opt_text_filter(opt_str(q.tracking_mode), " AND asset_inventory_items.tracking_mode = "@)
        + opt_text_filter(opt_str(q.status), " AND asset_inventory_items.status = "@)
        + opt_text_filter(opt_str(q.serial_number), " AND asset_inventory_items.serial_number = "@)
        + opt_text_filter(opt_str(q.batch_number), " AND asset_inventory_items.batch_number = "@)
        + opt_id_filter(q.location_id, " AND asset_inventory_items.location_id = "@)
        + presence_filter(
            q.has_batch,
            " AND asset_inventory_items.batch_number IS NOT NULL"@,
            " AND asset_inventory_items.batch_number IS NULL"@,
        )
        + presence_filter(
            q.has_location,
            " AND asset_inventory_items.location_id IS NOT NULL"@,
            " AND asset_inventory_items.location_id IS NULL"@,
        )
}

fn push_opt_text(pieces: &mut Vec<SqlPiece>, value: &Option<String>, sql: &str)
    ensures
        pieces_view(final(pieces)@) == pieces_view(old(pieces)@) + opt_text_filter(opt_str(*value), sql@),
{
    let filtered = match value {
        Some(v) => filter_value(Some(v.as_str())),
        None => None,
    };
    match filtered {
        Some(v) => {
            push_sql(pieces, sql);
            push_text(pieces, v);
        },
        None => {},
    }
    assert(pieces_view(pieces@) =~= pieces_view(old(pieces)@) + opt_text_filter(opt_str(*value), sql@));
}

fn push_opt_id(pieces: &mut Vec<SqlPiece>, value: Option<u128>, sql: &str)
    ensures
        pieces_view(final(pieces)@) == pieces_view(old(pieces)@) + opt_id_filter(value, sql@),
{
    match value {
        Some(id) => {
            push_sql(pieces, sql);
            push_id(pieces, id);
        },
        None => {},
    }
    assert(pieces_view(pieces@) =~= pieces_view(old(pieces)@) + opt_id_filter(value, sql@));
}

fn push_presence(pieces: &mut Vec<SqlPiece>, value: Option<bool>, present: &str, absent: &str)
    ensures
        pieces_view(final(pieces)@) == pieces_view(old(pieces)@) + presence_filter(value, present@, absent@),
{
    match value {
        Some(true) => push_sql(pieces, present),
        Some(false) => push_sql(pieces, absent),
        None => {},
    }
    assert(pieces_view(pieces@) =~= pieces_view(old(pieces)@) + presence_filter(value, present@, absent@));
}

/// The conditions of an inventory listing, as pieces of the statement.
pub fn push_inventory_item_filters(laboratory_id: u128, query: &ListInventoryItemsQuery) -> (pieces: Vec<SqlPiece>)
    ensures
        pieces_view(pieces@) == spec_item_filters(laboratory_id, *query),
{
    let mut pieces: Vec<SqlPiece> = Vec::new();
    push_sql(&mut pieces, " WHERE asset_inventory_items.laboratory_id = ");
    push_id(&mut pieces, laboratory_id);
    let ghost base = pieces_view(pieces@);

    let keyword = match &query.keyword {
        Some(k) => filter_value(Some(k.as_str())),
        None => None,
    };
    match keyword {
        Some(k) => {
            let pattern = contains_pattern(k.as_str());
            let mut rest: Vec<&str> = Vec::new();
            rest.push(" OR COALESCE(assets.model, '') ILIKE ");
            rest.push(" OR COALESCE(assets.manufacturer, '') ILIKE ");
            rest.push(" OR COALESCE(asset_inventory_items.serial_number, '') ILIKE ");
            rest.push(" OR COALESCE(asset_inventory_items.batch_number, '') ILIKE ");
            rest.push(" OR COALESCE(asset_inventory_items.public_notes, '') ILIKE ");
            rest.push(" OR COALESCE(asset_inventory_items.internal_notes, '') ILIKE ");
            assert(rest@.map_values(|s: &str| s@) =~= item_keyword_columns());
            push_keyword_pieces(&mut pieces, "\n            AND (\n                assets.name ILIKE\n            ", &rest, pattern.as_str());
        },
        None => {},
    }
    assert(pieces_view(pieces@) =~= base + item_keyword_filter(opt_str(query.keyword)));
    let ghost after_keyword = pieces_view(pieces@);

    push_opt_id(&mut pieces, query.asset_id, " AND asset_inventory_items.asset_id = ");
    let ghost after_asset = pieces_view(pieces@);
    match query.category_id {
        Some(c) => {
            let exact = match query.exact_category {
                Some(e) => e,
                None => false,
            };
            if exact {
                push_sql(&mut pieces, " AND assets.category_id = ");
                push_id(&mut pieces, c);
            } else {
                push_sql(&mut pieces, "\n                AND assets.category_id IN (\n                    SELECT child.category_id\n                    FROM asset_categories AS root\n                    JOIN asset_categories AS child\n                      ON child.laboratory_id = root.laboratory_id\n                     AND child.path <@ root.path\n                    WHERE root.laboratory_id =\n                ");
                push_id(&mut pieces, laboratory_id);
                push_sql(&mut pieces, " AND root.category_id = ");
                push_id(&mut pieces, c);
                push_sql(&mut pieces, ")");
            }
        },
        None => {},
    }
    assert(pieces_view(pieces@) =~= after_asset + category_filter(laboratory_id, query.category_id, query.exact_category));
    push_opt_text(&mut pieces, &query.tracking_mode, " AND asset_inventory_items.tracking_mode = ");
    push_opt_text(&mut pieces, &query.status, " AND asset_inventory_items.status = ");
    push_opt_text(&mut pieces, &query.serial_number, " AND asset_inventory_items.serial_number = ");
    push_opt_text(&mut pieces, &query.batch_number, " AND asset_inventory_items.batch_number = ");
    push_opt_id(&mut pieces, query.location_id, " AND asset_inventory_items.location_id = ");
    push_presence(
        &mut pieces,
        query.has_batch,
        " AND asset_inventory_items.batch_number IS NOT NULL",
        " AND asset_inventory_items.batch_number IS NULL",
    );
    push_presence(
        &mut pieces,
        query.has_location,
        " AND asset_inventory_items.location_id IS NOT NULL",
        " AND asset_inventory_items.location_id IS NULL",
    );
    assert(pieces_view(pieces@) =~= spec_item_filters(laboratory_id, *query));
    pieces
}

/// The SQL text an inventory listing's conditions are written with.
pub open spec fn item_filter_sql() -> Set<Seq<char>> {
    set![
        " WHERE asset_inventory_items.laboratory_id = "@,
        "\n            AND (\n                assets.name ILIKE\n            "@,
        " OR COALESCE(assets.model, '') ILIKE "@,
        " OR COALESCE(assets.manufacturer, '') ILIKE "@,
        " OR COALESCE(asset_inventory_items.serial_number, '') ILIKE "@,
        " OR COALESCE(asset_inventory_items.batch_number, '') ILIKE "@,
        " OR COALESCE(asset_inventory_items.public_notes, '') ILIKE "@,
        " OR COALESCE(asset_inventory_items.internal_notes, '') ILIKE "@,
        ")"@,
        " AND asset_inventory_items.asset_id = "@,
        " AND assets.category_id = "@,
        "\n                AND assets.category_id IN (\n                    SELECT child.category_id\n                    FROM asset_categories AS root\n                    JOIN asset_categories AS child\n                      ON child.laboratory_id = root.laboratory_id\n                     AND child.path <@ root.path\n                    WHERE root.laboratory_id =\n                "@,
        " AND root.category_id = "@,
        " AND asset_inventory_items.tracking_mode = "@,
        " AND asset_inventory_items.status = "@,
        " AND asset_inventory_items.serial_number = "@,
        " AND asset_inventory_items.batch_number = "@,
        " AND asset_inventory_items.location_id = "@,
        " AND asset_inventory_items.batch_number IS NOT NULL"@,
        " AND asset_inventory_items.batch_number IS NULL"@,
        " AND asset_inventory_items.location_id IS NOT NULL"@,
        " AND asset_inventory_items.location_id IS NULL"@,
    ]
}

/// A listing reads one laboratory's items only (and a category subtree of
/// that laboratory only), and whatever the query gives is bound as a value:
/// the SQL text of its conditions is fixed.
pub proof fn item_filters_are_scoped_and_bound(laboratory_id: u128, q: ListInventoryItemsQuery)
    ensures
        spec_item_filters(laboratory_id, q).subrange(0, 2) == seq![
            PieceView::Sql(" WHERE asset_inventory_items.laboratory_id = "@),
            PieceView::BindId(laboratory_id),
        ],
        sql_texts_within(spec_item_filters(laboratory_id, q), item_filter_sql()),
{
    let a = item_filter_sql();
    let head = seq![PieceView::Sql(" WHERE asset_inventory_items.laboratory_id = "@), PieceView::BindId(laboratory_id)];
    assert(sql_texts_within(head, a));
    let kw = item_keyword_filter(opt_str(q.keyword));
    if let Some(k) = filter_text(opt_str(q.keyword)) {
        let cols = item_keyword_columns();
        assert forall|j: int| 0 <= j < cols.len() implies a.contains(#[trigger] cols[j]) by {}
        lemma_keyword_pieces_within("\n            AND (\n                assets.name ILIKE\n            "@, cols, like_pattern(k), a);
        lemma_concat_within(keyword_pieces("\n            AND (\n                assets.name ILIKE\n            "@, cols, like_pattern(k)), seq![PieceView::Sql(")"@)], a);
    }
    assert(sql_texts_within(kw, a));
    let p1 = opt_id_filter(q.asset_id, " AND asset_inventory_items.asset_id = "@);
    let p2 = category_filter(laboratory_id, q.category_id, q.exact_category);
    let p3 = opt_text_filter(opt_str(q.tracking_mode), " AND asset_inventory_items.tracking_mode = "@);
    let p4 = opt_text_filter(opt_str(q.status), " AND asset_inventory_items.status = "@);
    let p5 = opt_text_filter(opt_str(q.serial_number), " AND asset_inventory_items.serial_number = "@);
    let p6 = opt_text_filter(opt_str(q.batch_number), " AND asset_inventory_items.batch_number = "@);
    let p7 = opt_id_filter(q.location_id, " AND asset_inventory_items.location_id = "@);
    let p8 = presence_filter(q.has_batch, " AND asset_inventory_items.batch_number IS NOT NULL"@, " AND asset_inventory_items.batch_number IS NULL"@);
    let p9 = presence_filter(q.has_location, " AND asset_inventory_items.location_id IS NOT NULL"@, " AND asset_inventory_items.location_id IS NULL"@);
    assert(sql_texts_within(p1, a));
    assert(sql_texts_within(p2, a));
    assert(sql_texts_within(p3, a));
    assert(sql_texts_within(p4, a));
    assert(sql_texts_within(p5, a));
    assert(sql_texts_within(p6, a));
    assert(sql_texts_within(p7, a));
    assert(sql_texts_within(p8, a));
    assert(sql_texts_within(p9, a));
    lemma_concat_within(head, kw, a);
    lemma_concat_within(head + kw, p1, a);
    lemma_concat_within(head + kw + p1, p2, a);
    lemma_concat_within(head + kw + p1 + p2, p3, a);
    lemma_concat_within(head + kw + p1 + p2 + p3, p4, a);
    lemma_concat_within(head + kw + p1 + p2 + p3 + p4, p5, a);
    lemma_concat_within(head + kw + p1 + p2 + p3 + p4 + p5, p6, a);
    lemma_concat_within(head + kw + p1 + p2 + p3 + p4 + p5 + p6, p7, a);
    lemma_concat_within(head + kw + p1 + p2 + p3 + p4 + p5 + p6 + p7, p8, a);
    lemma_concat_within(head + kw + p1 + p2 + p3 + p4 + p5 + p6 + p7 + p8, p9, a);
    assert(spec_item_filters(laboratory_id, q).subrange(0, 2) =~= head);
}

/// An inventory listing is narrowed by every criterion its query gives: a
/// keyword that is not blank is matched, trimmed and with `%` on both
/// sides, against the asset's name and the item's searchable columns; an
/// asset, location, tracking mode, status, serial or batch number is bound
/// to its column (text trimmed, and only where not blank); a category
/// narrows to itself where `exact_category` is set, else to its subtree in
/// the laboratory; and `has_batch` and `has_location` ask for the column to
/// be set or empty.
pub proof fn item_filters_follow_the_query(laboratory_id: u128, q: ListInventoryItemsQuery)
    ensures
        ({
            let f = spec_item_filters(laboratory_id, q);
            &&& q.keyword is Some && trim(q.keyword->Some_0@).len() > 0 ==> holds_condition(
                f,
                "\n            AND (\n                assets.name ILIKE\n            "@,
                PieceView::BindText(seq!['%'] + trim(q.keyword->Some_0@) + seq!['%']),
            )
            &&& q.asset_id is Some ==> holds_condition(f, " AND asset_inventory_items.asset_id = "@, PieceView::BindId(q.asset_id->Some_0))
            &&& q.category_id is Some && q.exact_category == Some(true) ==> holds_condition(
                f,
                " AND assets.category_id = "@,
                PieceView::BindId(q.category_id->Some_0),
            )
            &&& q.category_id is Some && q.exact_category != Some(true) ==> holds_condition(
                f,
                " AND root.category_id = "@,
                PieceView::BindId(q.category_id->Some_0),
            )
            &&& q.tracking_mode is Some && trim(q.tracking_mode->Some_0@).len() > 0 ==> holds_condition(
                f,
                " AND asset_inventory_items.tracking_mode = "@,
                PieceView::BindText(trim(q.tracking_mode->Some_0@)),
            )
            &&& q.status is Some && trim(q.status->Some_0@).len() > 0 ==> holds_condition(
                f,
                " AND asset_inventory_items.status = "@,
                PieceView::BindText(trim(q.status->Some_0@)),
            )
            &&& q.serial_number is Some && trim(q.serial_number->Some_0@).len() > 0 ==> holds_condition(
                f,
                " AND asset_inventory_items.serial_number = "@,
                PieceView::BindText(trim(q.serial_number->Some_0@)),
            )
            &&& q.batch_number is Some && trim(q.batch_number->Some_0@).len() > 0 ==> holds_condition(
                f,
                " AND asset_inventory_items.batch_number = "@,
                PieceView::BindText(trim(q.batch_number->Some_0@)),
            )
            &&& q.location_id is Some ==> holds_condition(f, " AND asset_inventory_items.location_id = "@, PieceView::BindId(q.location_id->Some_0))
            &&& q.has_batch == Some(true) ==> f.contains(PieceView::Sql(" AND asset_inventory_items.batch_number IS NOT NULL"@))
            &&& q.has_batch == Some(false) ==> f.contains(PieceView::Sql(" AND asset_inventory_items.batch_number IS NULL"@))
            &&& q.has_location == Some(true) ==> f.contains(PieceView::Sql(" AND asset_inventory_items.location_id IS NOT NULL"@))
            &&& q.has_location == Some(false) ==> f.contains(PieceView::Sql(" AND asset_inventory_items.location_id IS NULL"@))
        }),
{
    let s0 = seq![PieceView::Sql(" WHERE asset_inventory_items.laboratory_id = "@), PieceView::BindId(laboratory_id)];
    let s1 = item_keyword_filter(opt_str(q.keyword));
    let s2 = opt_id_filter(q.asset_id, " AND asset_inventory_items.asset_id = "@);
    let s3 = category_filter(laboratory_id, q.category_id, q.exact_category);
    let s4 = opt_text_filter(opt_str(q.tracking_mode), " AND asset_inventory_items.tracking_mode = "@);
    let s5 = opt_text_filter(opt_str(q.status), " AND asset_inventory_items.status = "@);
    let s6 = opt_text_filter(opt_str(q.serial_number), " AND asset_inventory_items.serial_number = "@);
    let s7 = opt_text_filter(opt_str(q.batch_number), " AND asset_inventory_items.batch_number = "@);
    let s8 = opt_id_filter(q.location_id, " AND asset_inventory_items.location_id = "@);
    let s9 = presence_filter(
        q.has_batch,
        " AND asset_inventory_items.batch_number IS NOT NULL"@,
        " AND asset_inventory_items.batch_number IS NULL"@,
    );
    let s10 = presence_filter(
        q.has_location,
        " AND asset_inventory_items.location_id IS NOT NULL"@,
        " AND asset_inventory_items.location_id IS NULL"@,
    );
    assert(spec_item_filters(laboratory_id, q) == s0 + s1 + s2 + s3 + s4 + s5 + s6 + s7 + s8 + s9 + s10);
    let open = "\n            AND (\n                assets.name ILIKE\n            "@;
    if q.keyword is Some && trim(q.keyword->Some_0@).len() > 0 {
        let p = like_pattern(trim(q.keyword->Some_0@));
        assert(holds_condition(s1, open, PieceView::BindText(p))) by {
            lemma_keyword_pieces_starts(open, item_keyword_columns(), p);
            assert(s1[0] == PieceView::Sql(open));
        }
        assert(holds_condition(s0 + s1 + s2 + s3 + s4 + s5 + s6 + s7 + s8 + s9 + s10, open, PieceView::BindText(p))) by {
            lemma_holds_condition_prepend(s0, s1, open, PieceView::BindText(p));
            lemma_holds_condition_append(s0 + s1, s2, open, PieceView::BindText(p));
            lemma_holds_condition_append(s0 + s1 + s2, s3, open, PieceView::BindText(p));
            lemma_holds_condition_append(s0 + s1 + s2 + s3, s4, open, PieceView::BindText(p));
            lemma_holds_condition_append(s0 + s1 + s2 + s3 + s4, s5, open, PieceView::BindText(p));
            lemma_holds_condition_append(s0 + s1 + s2 + s3 + s4 + s5, s6, open, PieceView::BindText(p));
            lemma_holds_condition_append(s0 + s1 + s2 + s3 + s4 + s5 + s6, s7, open, PieceView::BindText(p));
            lemma_holds_condition_append(s0 + s1 + s2 + s3 + s4 + s5 + s6 + s7, s8, open, PieceView::BindText(p));
            lemma_holds_condition_append(s0 + s1 + s2 + s3 + s4 + s5 + s6 + s7 + s8, s9, open, PieceView::BindText(p));
            lemma_holds_condition_append(s0 + s1 + s2 + s3 + s4 + s5 + s6 + s7 + s8 + s9, s10, open, PieceView::BindText(p));
        }
    }
    if q.asset_id is Some {
        let v = PieceView::BindId(q.asset_id->Some_0);
        let t = " AND asset_inventory_items.asset_id = "@;
        assert(s2[0] == PieceView::Sql(t) && s2[1] == v);
        assert(holds_condition(s0 + s1 + s2 + s3 + s4 + s5 + s6 + s7 + s8 + s9 + s10, t, v)) by {
            lemma_holds_condition_prepend(s0 + s1, s2, t, v);
            lemma_holds_condition_append(s0 + s1 + s2, s3, t, v);
            lemma_holds_condition_append(s0 + s1 + s2 + s3, s4, t, v);
            lemma_holds_condition_append(s0 + s1 + s2 + s3 + s4, s5, t, v);
            lemma_holds_condition_append(s0 + s1 + s2 + s3 + s4 + s5, s6, t, v);
            lemma_holds_condition_append(s0 + s1 + s2 + s3 + s4 + s5 + s6, s7, t, v);
            lemma_holds_condition_append(s0 + s1 + s2 + s3 + s4 + s5 + s6 + s7, s8, t, v);
            lemma_holds_condition_append(s0 + s1 + s2 + s3 + s4 + s5 + s6 + s7 + s8, s9, t, v);
            lemma_holds_condition_append(s0 + s1 + s2 + s3 + s4 + s5 + s6 + s7 + s8 + s9, s10, t, v);
        }
    }
    if q.category_id is Some {
        let v = PieceView::BindId(q.category_id->Some_0);
        if q.exact_category == Some(true) {
            let t = " AND assets.category_id = "@;
            assert(s3[0] == PieceView::Sql(t) && s3[1] == v);
            assert(holds_condition(s0 + s1 + s2 + s3 + s4 + s5 + s6 + s7 + s8 + s9 + s10, t, v)) by {
                lemma_holds_condition_prepend(s0 + s1 + s2, s3, t, v);
            lemma_holds_condition_append(s0 + s1 + s2 + s3, s4, t, v);
            lemma_holds_condition_append(s0 + s1 + s2 + s3 + s4, s5, t, v);
            lemma_holds_condition_append(s0 + s1 + s2 + s3 + s4 + s5, s6, t, v);
            lemma_holds_condition_append(s0 + s1 + s2 + s3 + s4 + s5 + s6, s7, t, v);
            lemma_holds_condition_append(s0 + s1 + s2 + s3 + s4 + s5 + s6 + s7, s8, t, v);
            lemma_holds_condition_append(s0 + s1 + s2 + s3 + s4 + s5 + s6 + s7 + s8, s9, t, v);
            lemma_holds_condition_append(s0 + s1 + s2 + s3 + s4 + s5 + s6 + s7 + s8 + s9, s10, t, v);
            }
        } else {
            let t = " AND root.category_id = "@;
            assert(s3[2] == PieceView::Sql(t) && s3[3] == v);
            assert(holds_condition(s0 + s1 + s2 + s3 + s4 + s5 + s6 + s7 + s8 + s9 + s10, t, v)) by {
                lemma_holds_condition_prepend(s0 + s1 + s2, s3, t, v);
            lemma_holds_condition_append(s0 + s1 + s2 + s3, s4, t, v);
            lemma_holds_condition_append(s0 + s1 + s2 + s3 + s4, s5, t, v);
            lemma_holds_condition_append(s0 + s1 + s2 + s3 + s4 + s5, s6, t, v);
            lemma_holds_condition_append(s0 + s1 + s2 + s3 + s4 + s5 + s6, s7, t, v);
            lemma_holds_condition_append(s0 + s1 + s2 + s3 + s4 + s5 + s6 + s7, s8, t, v);
            lemma_holds_condition_append(s0 + s1 + s2 + s3 + s4 + s5 + s6 + s7 + s8, s9, t, v);
            lemma_holds_condition_append(s0 + s1 + s2 + s3 + s4 + s5 + s6 + s7 + s8 + s9, s10, t, v);
            }
        }
    }
    if q.tracking_mode is Some && trim(q.tracking_mode->Some_0@).len() > 0 {
        let v = PieceView::BindText(trim(q.tracking_mode->Some_0@));
        let t = " AND asset_inventory_items.tracking_mode = "@;
        assert(s4[0] == PieceView::Sql(t) && s4[1] == v);
        assert(holds_condition(s0 + s1 + s2 + s3 + s4 + s5 + s6 + s7 + s8 + s9 + s10, t, v)) by {
            lemma_holds_condition_prepend(s0 + s1 + s2 + s3, s4, t, v);
            lemma_holds_condition_append(s0 + s1 + s2 + s3 + s4, s5, t, v);
            lemma_holds_condition_append(s0 + s1 + s2 + s3 + s4 + s5, s6, t, v);
            lemma_holds_condition_append(s0 + s1 + s2 + s3 + s4 + s5 + s6, s7, t, v);
            lemma_holds_condition_append(s0 + s1 + s2 + s3 + s4 + s5 + s6 + s7, s8, t, v);
            lemma_holds_condition_append(s0 + s1 + s2 + s3 + s4 + s5 + s6 + s7 + s8, s9, t, v);
            lemma_holds_condition_append(s0 + s1 + s2 + s3 + s4 + s5 + s6 + s7 + s8 + s9, s10, t, v);
        }
    }
    if q.status is Some && trim(q.status->Some_0@).len() > 0 {
        let v = PieceView::BindText(trim(q.status->Some_0@));
        let t = " AND asset_inventory_items.status = "@;
        assert(s5[0] == PieceView::Sql(t) && s5[1] == v);
        assert(holds_condition(s0 + s1 + s2 + s3 + s4 + s5 + s6 + s7 + s8 + s9 + s10, t, v)) by {
            lemma_holds_condition_prepend(s0 + s1 + s2 + s3 + s4, s5, t, v);
            lemma_holds_condition_append(s0 + s1 + s2 + s3 + s4 + s5, s6, t, v);
            lemma_holds_condition_append(s0 + s1 + s2 + s3 + s4 + s5 + s6, s7, t, v);
            lemma_holds_condition_append(s0 + s1 + s2 + s3 + s4 + s5 + s6 + s7, s8, t, v);
            lemma_holds_condition_append(s0 + s1 + s2 + s3 + s4 + s5 + s6 + s7 + s8, s9, t, v);
            lemma_holds_condition_append(s0 + s1 + s2 + s3 + s4 + s5 + s6 + s7 + s8 + s9, s10, t, v);
        }
    }
    if q.serial_number is Some && trim(q.serial_number->Some_0@).len() > 0 {
        let v = PieceView::BindText(trim(q.serial_number->Some_0@));
        let t = " AND asset_inventory_items.serial_number = "@;
        assert(s6[0] == PieceView::Sql(t) && s6[1] == v);
        assert(holds_condition(s0 + s1 + s2 + s3 + s4 + s5 + s6 + s7 + s8 + s9 + s10, t, v)) by {
            lemma_holds_condition_prepend(s0 + s1 + s2 + s3 + s4 + s5, s6, t, v);
            lemma_holds_condition_append(s0 + s1 + s2 + s3 + s4 + s5 + s6, s7, t, v);
            lemma_holds_condition_append(s0 + s1 + s2 + s3 + s4 + s5 + s6 + s7, s8, t, v);
            lemma_holds_condition_append(s0 + s1 + s2 + s3 + s4 + s5 + s6 + s7 + s8, s9, t, v);
            lemma_holds_condition_append(s0 + s1 + s2 + s3 + s4 + s5 + s6 + s7 + s8 + s9, s10, t, v);
        }
    }
    if q.batch_number is Some && trim(q.batch_number->Some_0@).len() > 0 {
        let v = PieceView::BindText(trim(q.batch_number->Some_0@));
        let t = " AND asset_inventory_items.batch_number = "@;
        assert(s7[0] == PieceView::Sql(t) && s7[1] == v);
        assert(holds_condition(s0 + s1 + s2 + s3 + s4 + s5 + s6 + s7 + s8 + s9 + s10, t, v)) by {
            lemma_holds_condition_prepend(s0 + s1 + s2 + s3 + s4 + s5 + s6, s7, t, v);
            lemma_holds_condition_append(s0 + s1 + s2 + s3 + s4 + s5 + s6 + s7, s8, t, v);
            lemma_holds_condition_append(s0 + s1 + s2 + s3 + s4 + s5 + s6 + s7 + s8, s9, t, v);
            lemma_holds_condition_append(s0 + s1 + s2 + s3 + s4 + s5 + s6 + s7 + s8 + s9, s10, t, v);
        }
    }
    if q.location_id is Some {
        let v = PieceView::BindId(q.location_id->Some_0);
        let t = " AND asset_inventory_items.location_id = "@;
        assert(s8[0] == PieceView::Sql(t) && s8[1] == v);
        assert(holds_condition(s0 + s1 + s2 + s3 + s4 + s5 + s6 + s7 + s8 + s9 + s10, t, v)) by {
            lemma_holds_condition_prepend(s0 + s1 + s2 + s3 + s4 + s5 + s6 + s7, s8, t, v);
            lemma_holds_condition_append(s0 + s1 + s2 + s3 + s4 + s5 + s6 + s7 + s8, s9, t, v);
            lemma_holds_condition_append(s0 + s1 + s2 + s3 + s4 + s5 + s6 + s7 + s8 + s9, s10, t, v);
        }
    }
    if q.has_batch is Some {
        let v = s9[0];
        assert(s9.contains(v));
        assert((s0 + s1 + s2 + s3 + s4 + s5 + s6 + s7 + s8 + s9 + s10).contains(v)) by {
            lemma_contains_prepend(s0 + s1 + s2 + s3 + s4 + s5 + s6 + s7 + s8, s9, v);
            lemma_contains_append(s0 + s1 + s2 + s3 + s4 + s5 + s6 + s7 + s8 + s9, s10, v);
        }
    }
    if q.has_location is Some {
        let v = s10[0];
        assert(s10.contains(v));
        assert((s0 + s1 + s2 + s3 + s4 + s5 + s6 + s7 + s8 + s9 + s10).contains(v)) by {
            lemma_contains_prepend(s0 + s1 + s2 + s3 + s4 + s5 + s6 + s7 + s8 + s9, s10, v);
        }
    }
}

/// A listing's query is accepted exactly when the tracking mode and status
/// it names, if any, are known ones.
pub proof fn listing_queries_name_known_modes_and_statuses(tracking_mode: Option<Seq<char>>, status: Option<Seq<char>>)
    ensures
        spec_validate_query(tracking_mode, status) is Ok <==> ((tracking_mode is None || tracking_mode->Some_0
            == "serialized"@ || tracking_mode->Some_0 == "quantity"@) && (status is None
            || spec_parse_inventory_status(status->Some_0) is Ok)),
{
}

} // verus!
