//! The rules of inventory items: which operations an item admits, how a patch,
//! a split or a merge decides what is written, the serial numbers generated
//! for new items, and how a rejected statement is reported.
//!
//! Quantities are decimal amounts and stay with the caller; everything here
//! works on what identifies and describes an item.
use crate::errors::{
    BatchUpdateInventoryItemsError, CreateInventoryItemsError, InventoryItemDatabaseError,
    MergeInventoryItemsError,
};
use crate::numeric::{format_i64, int_text};
use crate::text::{push_char, str_eq, trim, trim_to_string};
use std::collections::HashSet;
use vstd::prelude::*;
use vstd::std_specs::hash::group_hash_axioms;

verus! {

/// An inventory item as the rules here read it.
#[derive(Debug)]
pub struct InventoryItemRow {
    pub inventory_item_id: u128,
    pub asset_id: u128,
    pub laboratory_id: u128,
    pub tracking_mode: String,
    pub serial_number: Option<String>,
    pub batch_number: Option<String>,
    pub location_id: Option<u128>,
    pub status: String,
    pub public_notes: Option<String>,
    pub internal_notes: Option<String>,
}

pub open spec fn opt_text(o: Option<String>) -> Option<Seq<char>> {
    match o {
        Some(s) => Some(s@),
        None => None,
    }
}

pub struct ItemView {
    pub inventory_item_id: u128,
    pub asset_id: u128,
    pub laboratory_id: u128,
    pub tracking_mode: Seq<char>,
    pub serial_number: Option<Seq<char>>,
    pub batch_number: Option<Seq<char>>,
    pub location_id: Option<u128>,
    pub status: Seq<char>,
    pub public_notes: Option<Seq<char>>,
    pub internal_notes: Option<Seq<char>>,
}

impl View for InventoryItemRow {
    type V = ItemView;

    open spec fn view(&self) -> ItemView {
        ItemView {
            inventory_item_id: self.inventory_item_id,
            asset_id: self.asset_id,
            laboratory_id: self.laboratory_id,
            tracking_mode: self.tracking_mode@,
            serial_number: opt_text(self.serial_number),
            batch_number: opt_text(self.batch_number),
            location_id: self.location_id,
            status: self.status@,
            public_notes: opt_text(self.public_notes),
            internal_notes: opt_text(self.internal_notes),
        }
    }
}

/// Equality of optional texts, as `==` on `Option<String>` decides it.
pub fn opt_text_eq(a: &Option<String>, b: &Option<String>) -> (r: bool)
    ensures
        r == (opt_text(*a) == opt_text(*b)),
{
    match (a, b) {
        (Some(x), Some(y)) => str_eq(x.as_str(), y.as_str()),
        (None, None) => true,
        _ => false,
    }
}

pub fn clone_opt_text(o: &Option<String>) -> (r: Option<String>)
    ensures
        opt_text(r) == opt_text(*o),
{
    match o {
        Some(s) => Some(String::from_str(s.as_str())),
        None => None,
    }
}

// ---------------------------------------------------------------------------
// rejected statements
// ---------------------------------------------------------------------------

pub open spec fn spec_map_database_error(
    code: Option<Seq<char>>,
    constraint: Option<Seq<char>>,
    detail: Seq<char>,
) -> (u16, Seq<char>) {
    if code == Some("23505"@) {
        if constraint == Some("idx_asset_inventory_items_unique_asset_serial_number"@) {
            (409, "Inventory item serial number already exists for this asset"@)
        } else if constraint == Some("idx_asset_inventory_items_unique_quantity_aggregate"@) {
            (409, "Inventory item already exists for this quantity aggregate"@)
        } else {
            (409, "Inventory item already exists"@)
        }
    } else if code == Some("23503"@) {
        (400, "Invalid referenced record"@)
    } else if code == Some("23514"@) {
        (400, "Invalid inventory item data"@)
    } else {
        (500, detail)
    }
}

fn opt_str_is(o: Option<&str>, expected: &str) -> (r: bool)
    ensures
        r == (match o {
            Some(s) => s@ == expected@,
            None => false,
        }),
{
    match o {
        Some(s) => str_eq(s, expected),
        None => false,
    }
}

/// How a statement the database rejected is reported: a unique violation
/// (SQLSTATE 23505) is a conflict, worded after the index that caught it; a
/// foreign-key (23503) or check (23514) violation is invalid input; anything
/// else is unexpected and carries `detail`, the database error's own text.
pub fn map_database_error(code: Option<&str>, constraint: Option<&str>, detail: String) -> (e: InventoryItemDatabaseError)
    ensures
        (e.spec_status_code(), e.spec_message()) == spec_map_database_error(
            match code {
                Some(c) => Some(c@),
                None => None,
            },
            match constraint {
                Some(c) => Some(c@),
                None => None,
            },
            detail@,
        ),
{
    if opt_str_is(code, "23505") {
        if opt_str_is(constraint, "idx_asset_inventory_items_unique_asset_serial_number") {
            return InventoryItemDatabaseError::Conflict(
                String::from_str("Inventory item serial number already exists for this asset"),
            );
        }
        if opt_str_is(constraint, "idx_asset_inventory_items_unique_quantity_aggregate") {
            return InventoryItemDatabaseError::Conflict(
                String::from_str("Inventory item already exists for this quantity aggregate"),
            );
        }
        return InventoryItemDatabaseError::Conflict(String::from_str("Inventory item already exists"));
    }
    if opt_str_is(code, "23503") {
        return InventoryItemDatabaseError::Validation(String::from_str("Invalid referenced record"));
    }
    if opt_str_is(code, "23514") {
        return InventoryItemDatabaseError::Validation(String::from_str("Invalid inventory item data"));
    }
    InventoryItemDatabaseError::Unexpected(detail)
}

// ---------------------------------------------------------------------------
// batch requests
// ---------------------------------------------------------------------------

pub open spec fn spec_validate_requested_ids(ids: Seq<u128>, found: nat) -> Result<(), (u16, Seq<char>)> {
    if ids.len() == 0 {
        Err((400, "inventory_item_ids cannot be empty"@))
    } else if !ids.no_duplicates() {
        Err((400, "inventory_item_ids cannot contain duplicates"@))
    } else if found != ids.len() {
        Err((404, "One or more inventory items were not found"@))
    } else {
        Ok(())
    }
}

pub open spec fn db_outcome(r: Result<(), InventoryItemDatabaseError>) -> Result<(), (u16, Seq<char>)> {
    match r {
        Ok(()) => Ok(()),
        Err(e) => Err((e.spec_status_code(), e.spec_message())),
    }
}

/// A batch names its items by id: the list must be non-empty, name no item
/// twice, and every item must have been found (`found` rows came back for
/// the ids).
pub fn validate_requested_ids(requested_ids: &Vec<u128>, found: usize) -> (r: Result<(), InventoryItemDatabaseError>)
    ensures
        db_outcome(r) == spec_validate_requested_ids(requested_ids@, found as nat),
{
    broadcast use group_hash_axioms;

    if requested_ids.len() == 0 {
        return Err(InventoryItemDatabaseError::Validation(String::from_str("inventory_item_ids cannot be empty")));
    }
    let mut unique: HashSet<u128> = HashSet::new();
    let mut i: usize = 0;
    while i < requested_ids.len()
        invariant
            i <= requested_ids.len(),
            unique@.finite(),
            unique@ == requested_ids@.subrange(0, i as int).to_set(),
            unique@.len() <= i,
            (unique@.len() == i) == requested_ids@.subrange(0, i as int).no_duplicates(),
        decreases requested_ids.len() - i,
    {
        let id = requested_ids[i];
        let ghost before = requested_ids@.subrange(0, i as int);
        let ghost after = requested_ids@.subrange(0, i + 1);
        assert(after =~= before.push(id));
        let fresh = unique.insert(id);
        proof {
            assert(after.to_set() =~= before.to_set().insert(id)) by {
                assert forall|x: u128| after.to_set().contains(x) <==> before.to_set().insert(
                    id,
                ).contains(x) by {
                    if after.contains(x) && x != id {
                        let k = choose|k: int| 0 <= k < after.len() && after[k] == x;
                        assert(before[k] == x);
                    }
                    if before.contains(x) {
                        let k = choose|k: int| 0 <= k < before.len() && before[k] == x;
                        assert(after[k] == x);
                    }
                    if x == id {
                        assert(after[i as int] == x);
                    }
                }
            }
            if fresh {
                assert(!before.contains(id));
                if before.no_duplicates() {
                    assert(after.no_duplicates()) by {
                        assert forall|a: int, b: int|
                            0 <= a < after.len() && 0 <= b < after.len() && a != b implies after[a]
                            != after[b] by {
                            if a < i && b < i {
                                assert(before[a] == after[a] && before[b] == after[b]);
                            } else if a == i {
                                assert(before[b] == after[b]);
                            } else {
                                assert(before[a] == after[a]);
                            }
                        }
                    }
                } else {
                    let (a, b) = choose|a: int, b: int|
                        0 <= a < before.len() && 0 <= b < before.len() && a != b && before[a]
                            == before[b];
                    assert(after[a] == after[b]);
                }
            } else {
                assert(before.to_set().contains(id));
                let k = choose|k: int| 0 <= k < before.len() && before[k] == id;
                assert(after[k] == after[i as int]);
            }
        }
        i = i + 1;
    }
    assert(requested_ids@.subrange(0, requested_ids@.len() as int) =~= requested_ids@);
    if unique.len() != requested_ids.len() {
        return Err(InventoryItemDatabaseError::Validation(String::from_str("inventory_item_ids cannot contain duplicates")));
    }
    if found != requested_ids.len() {
        return Err(InventoryItemDatabaseError::NotFound(String::from_str("One or more inventory items were not found")));
    }
    Ok(())
}

// ---------------------------------------------------------------------------
// statuses and tracking modes
// ---------------------------------------------------------------------------

/// The statuses an inventory item can be in.
pub open spec fn spec_is_inventory_status(s: Seq<char>) -> bool {
    ||| s == "available"@
    ||| s == "reserved"@
    ||| s == "borrowed"@
    ||| s == "maintenance"@
    ||| s == "retired"@
    ||| s == "lost"@
    ||| s == "consumed"@
}

pub open spec fn spec_parse_inventory_status(s: Seq<char>) -> Result<Seq<char>, Seq<char>> {
    if spec_is_inventory_status(trim(s)) {
        Ok(trim(s))
    } else {
        Err("Unknown inventory status"@)
    }
}

pub open spec fn text_outcome(r: Result<String, String>) -> Result<Seq<char>, Seq<char>> {
    match r {
        Ok(v) => Ok(v@),
        Err(e) => Err(e@),
    }
}

/// An inventory status, read with surrounding whitespace ignored.
pub fn parse_inventory_status(status: &str) -> (r: Result<String, String>)
    ensures
        text_outcome(r) == spec_parse_inventory_status(status@),
{
    let trimmed = trim_to_string(status);
    let t = trimmed.as_str();
    if str_eq(t, "available") || str_eq(t, "reserved") || str_eq(t, "borrowed") || str_eq(
        t,
        "maintenance",
    ) || str_eq(t, "retired") || str_eq(t, "lost") || str_eq(t, "consumed") {
        Ok(trimmed)
    } else {
        Err(String::from_str("Unknown inventory status"))
    }
}

/// A status given in a request, where one is given, in its normal form.
pub fn validate_status(status: Option<String>) -> (r: Result<Option<String>, String>)
    ensures
        match status {
            None => r matches Ok(None),
            Some(s) => match spec_parse_inventory_status(s@) {
                Ok(v) => r matches Ok(Some(t)) && t@ == v,
                Err(m) => r matches Err(e) && e@ == m,
            },
        },
{
    match status {
        None => Ok(None),
        Some(s) => match parse_inventory_status(s.as_str()) {
            Ok(v) => Ok(Some(v)),
            Err(e) => Err(e),
        },
    }
}

/// How an asset's items are counted: one row per physical thing, or one row
/// per amount.
#[derive(Debug)]
pub enum TrackingMode {
    Serialized,
    Quantity,
}

pub open spec fn spec_parse_tracking_mode(s: Seq<char>) -> Result<TrackingMode, Seq<char>> {
    if s == "serialized"@ {
        Ok(TrackingMode::Serialized)
    } else if s == "quantity"@ {
        Ok(TrackingMode::Quantity)
    } else {
        Err("Unknown asset tracking mode"@)
    }
}

/// The tracking mode an asset row records.
pub fn parse_tracking_mode(s: &str) -> (r: Result<TrackingMode, String>)
    ensures
        match spec_parse_tracking_mode(s@) {
            Ok(m) => r == Ok::<TrackingMode, String>(m),
            Err(msg) => r matches Err(e) && e@ == msg,
        },
{
    if str_eq(s, "serialized") {
        Ok(TrackingMode::Serialized)
    } else if str_eq(s, "quantity") {
        Ok(TrackingMode::Quantity)
    } else {
        Err(String::from_str("Unknown asset tracking mode"))
    }
}

pub open spec fn spec_validate_quantity_item(item: ItemView) -> Result<(), Seq<char>> {
    if item.tracking_mode == "quantity"@ {
        Ok(())
    } else {
        Err("Operation only applies to quantity-tracked inventory items"@)
    }
}

pub open spec fn unit_outcome(r: Result<(), String>) -> Result<(), Seq<char>> {
    match r {
        Ok(()) => Ok(()),
        Err(e) => Err(e@),
    }
}

/// Splitting and merging move amounts around, which only means something for
/// items counted by quantity.
pub fn validate_quantity_item(row: &InventoryItemRow) -> (r: Result<(), String>)
    ensures
        unit_outcome(r) == spec_validate_quantity_item(row@),
{
    if str_eq(row.tracking_mode.as_str(), "quantity") {
        Ok(())
    } else {
        Err(String::from_str("Operation only applies to quantity-tracked inventory items"))
    }
}

// ---------------------------------------------------------------------------
// patches
// ---------------------------------------------------------------------------

/// What a request says of one nullable field: leave it as it is, or set it,
/// possibly to nothing.
#[derive(Debug)]
pub enum FieldUpdate<T> {
    Keep,
    Replace(Option<T>),
}

pub open spec fn spec_resolve<T>(update: FieldUpdate<T>, existing: Option<T>) -> Option<T> {
    match update {
        FieldUpdate::Keep => existing,
        FieldUpdate::Replace(v) => v,
    }
}

impl<T> FieldUpdate<T> {
    /// The field's value once the update is applied to `existing`.
    pub fn resolve(self, existing: Option<T>) -> (r: Option<T>)
        ensures
            r == spec_resolve(self, existing),
    {
        match self {
            FieldUpdate::Keep => existing,
            FieldUpdate::Replace(v) => v,
        }
    }
}

pub open spec fn text_update(u: FieldUpdate<String>) -> FieldUpdate<Seq<char>> {
    match u {
        FieldUpdate::Keep => FieldUpdate::Keep,
        FieldUpdate::Replace(v) => FieldUpdate::Replace(opt_text(v)),
    }
}

/// A change to an inventory item. The quantities are decimal amounts applied
/// by the caller; here only whether the patch names them matters.
#[derive(Debug)]
pub struct ItemPatch {
    pub serial_number: Option<String>,
    pub batch_number: FieldUpdate<String>,
    pub location_id: FieldUpdate<u128>,
    /// A status already in its normal form (see `validate_status`).
    pub status: Option<String>,
    pub sets_quantity_on_hand: bool,
    pub sets_quantity_allocated: bool,
    pub public_notes: FieldUpdate<String>,
    pub internal_notes: FieldUpdate<String>,
}

/// The fields of an item once a patch is applied.
#[derive(Debug)]
pub struct PatchedFields {
    pub serial_number: Option<String>,
    pub batch_number: Option<String>,
    pub location_id: Option<u128>,
    pub status: String,
    pub public_notes: Option<String>,
    pub internal_notes: Option<String>,
}

pub open spec fn spec_validate_patch(
    serial_given: bool,
    sets_on_hand: bool,
    sets_allocated: bool,
    mode: TrackingMode,
) -> Result<(), (u16, Seq<char>)> {
    match mode {
        TrackingMode::Serialized => if sets_on_hand || sets_allocated {
            Err((400, "Serialized inventory items cannot update quantity fields"@))
        } else {
            Ok(())
        },
        TrackingMode::Quantity => if serial_given {
            Err((400, "Quantity-tracked inventory items cannot update serial_number"@))
        } else {
            Ok(())
        },
    }
}

/// A serialized item has no amounts to change, and a quantity-tracked one no
/// serial number.
pub fn validate_patch_against_tracking_mode(patch: &ItemPatch, tracking_mode: TrackingMode) -> (r: Result<(), InventoryItemDatabaseError>)
    ensures
        db_outcome(r) == spec_validate_patch(
            patch.serial_number is Some,
            patch.sets_quantity_on_hand,
            patch.sets_quantity_allocated,
            tracking_mode,
        ),
{
    match tracking_mode {
        TrackingMode::Serialized => {
            if patch.sets_quantity_on_hand || patch.sets_quantity_allocated {
                return Err(InventoryItemDatabaseError::Validation(
                    String::from_str("Serialized inventory items cannot update quantity fields"),
                ));
            }
        },
        TrackingMode::Quantity => {
            if patch.serial_number.is_some() {
                return Err(InventoryItemDatabaseError::Validation(
                    String::from_str("Quantity-tracked inventory items cannot update serial_number"),
                ));
            }
        },
    }
    Ok(())
}

/// The patched fields: every field the patch names takes the patch's value,
/// every other keeps the one the item had.
pub open spec fn spec_patched_fields(
    existing: ItemView,
    serial_number: Option<Seq<char>>,
    batch_number: FieldUpdate<Seq<char>>,
    location_id: FieldUpdate<u128>,
    status: Option<Seq<char>>,
    public_notes: FieldUpdate<Seq<char>>,
    internal_notes: FieldUpdate<Seq<char>>,
) -> (Option<Seq<char>>, Option<Seq<char>>, Option<u128>, Seq<char>, Option<Seq<char>>, Option<Seq<char>>) {
    (
        match serial_number {
            Some(s) => Some(s),
            None => existing.serial_number,
        },
        spec_resolve(batch_number, existing.batch_number),
        spec_resolve(location_id, existing.location_id),
        match status {
            Some(s) => s,
            None => existing.status,
        },
        spec_resolve(public_notes, existing.public_notes),
        spec_resolve(internal_notes, existing.internal_notes),
    )
}

pub open spec fn patched_view(f: PatchedFields) -> (Option<Seq<char>>, Option<Seq<char>>, Option<u128>, Seq<char>, Option<Seq<char>>, Option<Seq<char>>) {
    (
        opt_text(f.serial_number),
        opt_text(f.batch_number),
        f.location_id,
        f.status@,
        opt_text(f.public_notes),
        opt_text(f.internal_notes),
    )
}

fn resolve_text(update: FieldUpdate<String>, existing: &Option<String>) -> (r: Option<String>)
    ensures
        opt_text(r) == spec_resolve(text_update(update), opt_text(*existing)),
{
    match update {
        FieldUpdate::Keep => clone_opt_text(existing),
        FieldUpdate::Replace(v) => v,
    }
}

pub open spec fn spec_plan_patch(existing: ItemView, patch: ItemPatch) -> Result<(Option<Seq<char>>, Option<Seq<char>>, Option<u128>, Seq<char>, Option<Seq<char>>, Option<Seq<char>>), (u16, Seq<char>)> {
    match spec_parse_tracking_mode(existing.tracking_mode) {
        Err(m) => Err((400, m)),
        Ok(mode) => match spec_validate_patch(
            patch.serial_number is Some,
            patch.sets_quantity_on_hand,
            patch.sets_quantity_allocated,
            mode,
        ) {
            Err(e) => Err(e),
            Ok(()) => Ok(
                spec_patched_fields(
                    existing,
                    opt_text(patch.serial_number),
                    text_update(patch.batch_number),
                    patch.location_id,
                    opt_text(patch.status),
                    text_update(patch.public_notes),
                    text_update(patch.internal_notes),
                ),
            ),
        },
    }
}

/// The fields an update writes: the item's tracking mode decides which
/// fields the patch may name, and the fields it leaves out keep the value
/// they had. The location, where there is one, must still be checked to
/// belong to the item's laboratory, and the quantities applied.
pub fn plan_inventory_item_patch(existing: &InventoryItemRow, patch: ItemPatch) -> (r: Result<PatchedFields, InventoryItemDatabaseError>)
    ensures
        match spec_plan_patch(existing@, patch) {
            Ok(v) => r matches Ok(f) && patched_view(f) == v,
            Err(e) => r matches Err(x) && (x.spec_status_code(), x.spec_message()) == e,
        },
{
    let mode = match parse_tracking_mode(existing.tracking_mode.as_str()) {
        Ok(m) => m,
        Err(e) => {
            return Err(InventoryItemDatabaseError::Validation(e));
        },
    };
    match validate_patch_against_tracking_mode(&patch, mode) {
        Ok(()) => {},
        Err(e) => {
            return Err(e);
        },
    }
    let ItemPatch {
        serial_number,
        batch_number,
        location_id,
        status,
        sets_quantity_on_hand: _,
        sets_quantity_allocated: _,
        public_notes,
        internal_notes,
    } = patch;
    let serial_number = match serial_number {
        Some(s) => Some(s),
        None => clone_opt_text(&existing.serial_number),
    };
    let batch_number = resolve_text(batch_number, &existing.batch_number);
    let location_id = location_id.resolve(existing.location_id);
    let status = match status {
        Some(s) => s,
        None => String::from_str(existing.status.as_str()),
    };
    let public_notes = resolve_text(public_notes, &existing.public_notes);
    let internal_notes = resolve_text(internal_notes, &existing.internal_notes);
    Ok(PatchedFields { serial_number, batch_number, location_id, status, public_notes, internal_notes })
}

// ---------------------------------------------------------------------------
// splits
// ---------------------------------------------------------------------------

/// Where a split moves part of an item to: a batch, a location and a status.
#[derive(Debug)]
pub struct SplitTarget {
    pub batch_number: Option<String>,
    pub location_id: Option<u128>,
    pub status: String,
}

pub open spec fn spec_split_target(
    source: ItemView,
    batch_number: FieldUpdate<Seq<char>>,
    location_id: FieldUpdate<u128>,
    status: Option<Seq<char>>,
) -> (Option<Seq<char>>, Option<u128>, Seq<char>) {
    (
        spec_resolve(batch_number, source.batch_number),
        spec_resolve(location_id, source.location_id),
        match status {
            Some(s) => s,
            None => source.status,
        },
    )
}

pub open spec fn split_target_view(t: SplitTarget) -> (Option<Seq<char>>, Option<u128>, Seq<char>) {
    (opt_text(t.batch_number), t.location_id, t.status@)
}

/// The batch, location and status the split-off part gets: what the request
/// names, and for the rest what the source has.
pub fn resolve_split_target(
    source: &InventoryItemRow,
    batch_number: FieldUpdate<String>,
    location_id: FieldUpdate<u128>,
    status: Option<String>,
) -> (t: SplitTarget)
    ensures
        split_target_view(t) == spec_split_target(
            source@,
            text_update(batch_number),
            location_id,
            opt_text(status),
        ),
{
    let batch_number = resolve_text(batch_number, &source.batch_number);
    let location_id = location_id.resolve(source.location_id);
    let status = match status {
        Some(s) => s,
        None => String::from_str(source.status.as_str()),
    };
    SplitTarget { batch_number, location_id, status }
}

pub open spec fn spec_check_split_target(source: ItemView, target: (Option<Seq<char>>, Option<u128>, Seq<char>)) -> Result<(), Seq<char>> {
    if target.0 == source.batch_number && target.1 == source.location_id && target.2
        == source.status {
        Err("Split target must differ by batch, location, or status"@)
    } else {
        Ok(())
    }
}

/// A split that changed nothing but the amount would leave two identical
/// rows, so the target must differ from the source somewhere.
pub fn check_split_target_differs(source: &InventoryItemRow, target: &SplitTarget) -> (r: Result<(), String>)
    ensures
        unit_outcome(r) == spec_check_split_target(source@, split_target_view(*target)),
{
    if opt_text_eq(&target.batch_number, &source.batch_number) && target.location_id
        == source.location_id && str_eq(target.status.as_str(), source.status.as_str()) {
        Err(String::from_str("Split target must differ by batch, location, or status"))
    } else {
        Ok(())
    }
}

/// The row a split inserts where no row has the target's batch, location
/// and status: a quantity row, without a serial number.
#[derive(Debug)]
pub struct NewSplitRow {
    pub asset_id: u128,
    pub laboratory_id: u128,
    pub tracking_mode: String,
    pub serial_number: Option<String>,
    pub batch_number: Option<String>,
    pub location_id: Option<u128>,
    pub status: String,
    pub public_notes: Option<String>,
    pub internal_notes: Option<String>,
}

/// Where the part a split moves goes.
#[derive(Debug)]
pub enum SplitPlacement {
    /// Added to the existing row with this id, which has the target's batch,
    /// location and status.
    AddTo(u128),
    /// Put in a new row.
    Insert(NewSplitRow),
}

pub struct NewSplitRowView {
    pub asset_id: u128,
    pub laboratory_id: u128,
    pub tracking_mode: Seq<char>,
    pub serial_number: Option<Seq<char>>,
    pub batch_number: Option<Seq<char>>,
    pub location_id: Option<u128>,
    pub status: Seq<char>,
    pub public_notes: Option<Seq<char>>,
    pub internal_notes: Option<Seq<char>>,
}

pub enum SplitPlacementView {
    AddTo(u128),
    Insert(NewSplitRowView),
}

impl View for SplitPlacement {
    type V = SplitPlacementView;

    open spec fn view(&self) -> SplitPlacementView {
        match self {
            SplitPlacement::AddTo(id) => SplitPlacementView::AddTo(*id),
            SplitPlacement::Insert(row) => SplitPlacementView::Insert(
                NewSplitRowView {
                    asset_id: row.asset_id,
                    laboratory_id: row.laboratory_id,
                    tracking_mode: row.tracking_mode@,
                    serial_number: opt_text(row.serial_number),
                    batch_number: opt_text(row.batch_number),
                    location_id: row.location_id,
                    status: row.status@,
                    public_notes: opt_text(row.public_notes),
                    internal_notes: opt_text(row.internal_notes),
                },
            ),
        }
    }
}

/// The note the request gives, else the one the source has.
pub open spec fn note_or(requested: Option<Seq<char>>, source: Option<Seq<char>>) -> Option<Seq<char>> {
    match requested {
        Some(n) => Some(n),
        None => source,
    }
}

/// Where a split of `source` towards `target` puts the part it moves: into
/// the row that already has the target's batch, location and status, where
/// there is one (`existing_target`), else into a new quantity row of the
/// source's asset and laboratory, whose notes are the request's, else the
/// source's.
pub open spec fn spec_split_placement(
    source: ItemView,
    target: (Option<Seq<char>>, Option<u128>, Seq<char>),
    existing_target: Option<u128>,
    public_notes: Option<Seq<char>>,
    internal_notes: Option<Seq<char>>,
) -> SplitPlacementView {
    match existing_target {
        Some(id) => SplitPlacementView::AddTo(id),
        None => SplitPlacementView::Insert(
            NewSplitRowView {
                asset_id: source.asset_id,
                laboratory_id: source.laboratory_id,
                tracking_mode: "quantity"@,
                serial_number: None,
                batch_number: target.0,
                location_id: target.1,
                status: target.2,
                public_notes: note_or(public_notes, source.public_notes),
                internal_notes: note_or(internal_notes, source.internal_notes),
            },
        ),
    }
}

/// A split that passed its check never inserts a row identical in batch,
/// location and status to the row it was split from.
pub proof fn split_rows_differ_from_their_source(
    source: ItemView,
    target: (Option<Seq<char>>, Option<u128>, Seq<char>),
    public_notes: Option<Seq<char>>,
    internal_notes: Option<Seq<char>>,
)
    requires
        spec_check_split_target(source, target) is Ok,
    ensures
        spec_split_placement(source, target, None, public_notes, internal_notes) matches SplitPlacementView::Insert(row)
            && (row.batch_number != source.batch_number || row.location_id != source.location_id
            || row.status != source.status),
{
}

/// Where a split puts the part it moves: into the existing row that matches
/// the target, where the lookup found one; else into a new quantity row of
/// the source's asset and laboratory, with the target's batch, location and
/// status, no serial number, and each note the one the request gives, else
/// the source's.
pub proof fn split_placement_follows_the_request(
    source: ItemView,
    target: (Option<Seq<char>>, Option<u128>, Seq<char>),
    existing_target: Option<u128>,
    public_notes: Option<Seq<char>>,
    internal_notes: Option<Seq<char>>,
)
    ensures
        ({
            let p = spec_split_placement(source, target, existing_target, public_notes, internal_notes);
            &&& existing_target matches Some(id) ==> p == SplitPlacementView::AddTo(id)
            &&& existing_target is None ==> (p matches SplitPlacementView::Insert(row) && {
                &&& row.asset_id == source.asset_id
                &&& row.laboratory_id == source.laboratory_id
                &&& row.tracking_mode == "quantity"@
                &&& row.serial_number is None
                &&& row.batch_number == target.0
                &&& row.location_id == target.1
                &&& row.status == target.2
                &&& public_notes matches Some(n) ==> row.public_notes == Some(n)
                &&& public_notes is None ==> row.public_notes == source.public_notes
                &&& internal_notes matches Some(n) ==> row.internal_notes == Some(n)
                &&& internal_notes is None ==> row.internal_notes == source.internal_notes
            })
        }),
{
}

fn note_or_source(requested: Option<String>, source: &Option<String>) -> (r: Option<String>)
    ensures
        opt_text(r) == note_or(opt_text(requested), opt_text(*source)),
{
    match requested {
        Some(n) => Some(n),
        None => clone_opt_text(source),
    }
}

/// Where a split puts the part it moves. `existing_target` is the row, other
/// than the source, that has the target's batch, location and status, if
/// the lookup found one.
pub fn plan_split_placement(
    source: &InventoryItemRow,
    target: SplitTarget,
    existing_target: Option<u128>,
    public_notes: Option<String>,
    internal_notes: Option<String>,
) -> (p: SplitPlacement)
    ensures
        p@ == spec_split_placement(
            source@,
            split_target_view(target),
            existing_target,
            opt_text(public_notes),
            opt_text(internal_notes),
        ),
{
    match existing_target {
        Some(id) => SplitPlacement::AddTo(id),
        None => SplitPlacement::Insert(
            NewSplitRow {
                asset_id: source.asset_id,
                laboratory_id: source.laboratory_id,
                tracking_mode: String::from_str("quantity"),
                serial_number: None,
                batch_number: target.batch_number,
                location_id: target.location_id,
                status: target.status,
                public_notes: note_or_source(public_notes, &source.public_notes),
                internal_notes: note_or_source(internal_notes, &source.internal_notes),
            },
        ),
    }
}

// ---------------------------------------------------------------------------
// merges
// ---------------------------------------------------------------------------

pub open spec fn rows_view(rows: Seq<InventoryItemRow>) -> Seq<ItemView> {
    rows.map_values(|r: InventoryItemRow| r@)
}

/// The position of the first row with this id.
pub open spec fn spec_find_row(rows: Seq<ItemView>, id: u128) -> Option<int>
    decreases rows.len(),
{
    if rows.len() == 0 {
        None
    } else {
        match spec_find_row(rows.drop_last(), id) {
            Some(i) => Some(i),
            None => if rows.last().inventory_item_id == id {
                Some(rows.len() - 1)
            } else {
                None
            },
        }
    }
}

pub proof fn lemma_find_row(rows: Seq<ItemView>, id: u128)
    ensures
        match spec_find_row(rows, id) {
            Some(i) => 0 <= i < rows.len() && rows[i].inventory_item_id == id && forall|k: int|
                0 <= k < i ==> rows[k].inventory_item_id != id,
            None => forall|k: int| 0 <= k < rows.len() ==> rows[k].inventory_item_id != id,
        },
    decreases rows.len(),
{
    if rows.len() > 0 {
        lemma_find_row(rows.drop_last(), id);
        assert forall|k: int| 0 <= k < rows.len() - 1 implies rows.drop_last()[k] == rows[k] by {}
    }
}

/// Where the row with this id is among `rows`, or the error naming the item
/// by `label`.
pub fn find_row(rows: &Vec<InventoryItemRow>, inventory_item_id: u128, label: &str) -> (r: Result<usize, MergeInventoryItemsError>)
    ensures
        match spec_find_row(rows_view(rows@), inventory_item_id) {
            Some(i) => r == Ok::<usize, MergeInventoryItemsError>(i as usize),
            None => r matches Err(e) && e.spec_status_code() == 404 && e.spec_message() == label@
                + " inventory item not found"@,
        },
{
    let mut i: usize = 0;
    while i < rows.len()
        invariant
            i <= rows.len(),
            forall|k: int| 0 <= k < i ==> rows@[k].inventory_item_id != inventory_item_id,
        decreases rows.len() - i,
    {
        if rows[i].inventory_item_id == inventory_item_id {
            proof {
                let v = rows_view(rows@);
                lemma_find_row(v, inventory_item_id);
                assert(v[i as int].inventory_item_id == inventory_item_id);
                assert forall|k: int| 0 <= k < i implies v[k].inventory_item_id != inventory_item_id by {
                    assert(v[k] == rows@[k]@);
                }
            }
            return Ok(i);
        }
        i = i + 1;
    }
    proof {
        let v = rows_view(rows@);
        lemma_find_row(v, inventory_item_id);
        assert forall|k: int| 0 <= k < v.len() implies v[k].inventory_item_id != inventory_item_id by {
            assert(v[k] == rows@[k]@);
        }
    }
    let mut message = String::from_str(label);
    message.append(" inventory item not found");
    Err(MergeInventoryItemsError::NotFound(message))
}

pub open spec fn spec_merge_compatible(target: ItemView, source: ItemView) -> bool {
    &&& target.laboratory_id == source.laboratory_id
    &&& target.asset_id == source.asset_id
    &&& target.batch_number == source.batch_number
    &&& target.location_id == source.location_id
    &&& target.status == source.status
}

/// Items merge only into one of the same laboratory, asset, batch, location
/// and status.
pub fn validate_merge_compatible(target: &InventoryItemRow, source: &InventoryItemRow) -> (r: Result<(), MergeInventoryItemsError>)
    ensures
        spec_merge_compatible(target@, source@) ==> r is Ok,
        !spec_merge_compatible(target@, source@) ==> (r matches Err(e) && e.spec_status_code()
            == 400 && e.spec_message()
            == "Source inventory items must match target asset, batch, location, and status"@),
{
    if target.laboratory_id == source.laboratory_id && target.asset_id == source.asset_id
        && opt_text_eq(&target.batch_number, &source.batch_number) && target.location_id
        == source.location_id && str_eq(target.status.as_str(), source.status.as_str()) {
        Ok(())
    } else {
        Err(
            MergeInventoryItemsError::ValidationError(
                String::from_str(
                    "Source inventory items must match target asset, batch, location, and status",
                ),
            ),
        )
    }
}

pub open spec fn spec_check_sources(rows: Seq<ItemView>, target: ItemView, sources: Seq<u128>) -> Result<Seq<int>, (u16, Seq<char>)>
    decreases sources.len(),
{
    if sources.len() == 0 {
        Ok(Seq::empty())
    } else {
        match spec_check_sources(rows, target, sources.drop_last()) {
            Err(e) => Err(e),
            Ok(found) => match spec_find_row(rows, sources.last()) {
                None => Err((404, "Source inventory item not found"@)),
                Some(i) => match spec_validate_quantity_item(rows[i]) {
                    Err(m) => Err((400, m)),
                    Ok(()) => if !spec_merge_compatible(target, rows[i]) {
                        Err(
                            (
                                400,
                                "Source inventory items must match target asset, batch, location, and status"@,
                            ),
                        )
                    } else {
                        Ok(found.push(i))
                    },
                },
            },
        }
    }
}

/// Which rows a merge folds together: the target's position among `rows`,
/// and each source's, in the order the sources were named; or the first
/// rule the request breaks.
pub open spec fn spec_plan_merge(target_id: u128, source_ids: Seq<u128>, rows: Seq<ItemView>) -> Result<(int, Seq<int>), (u16, Seq<char>)> {
    match spec_validate_requested_ids(seq![target_id] + source_ids, rows.len()) {
        Err(e) => Err(e),
        Ok(()) => match spec_find_row(rows, target_id) {
            None => Err((404, "Target inventory item not found"@)),
            Some(t) => match spec_validate_quantity_item(rows[t]) {
                Err(m) => Err((400, m)),
                Ok(()) => match spec_check_sources(rows, rows[t], source_ids) {
                    Err(e) => Err(e),
                    Ok(found) => Ok((t, found)),
                },
            },
        },
    }
}

pub proof fn lemma_check_sources_error_stays(rows: Seq<ItemView>, target: ItemView, s: Seq<u128>, n: int, m: int)
    requires
        0 <= n <= m <= s.len(),
        spec_check_sources(rows, target, s.subrange(0, n)) is Err,
    ensures
        spec_check_sources(rows, target, s.subrange(0, m)) == spec_check_sources(
            rows,
            target,
            s.subrange(0, n),
        ),
    decreases m - n,
{
    if m > n {
        lemma_check_sources_error_stays(rows, target, s, n, m - 1);
        assert(s.subrange(0, m).drop_last() =~= s.subrange(0, m - 1));
    }
}

/// The rows a merge reads, by position.
#[derive(Debug)]
pub struct MergePlan {
    pub target: usize,
    pub sources: Vec<usize>,
}

pub open spec fn positions(v: Seq<usize>) -> Seq<int> {
    v.map_values(|x: usize| x as int)
}

fn merge_error(e: InventoryItemDatabaseError) -> (r: MergeInventoryItemsError)
    ensures
        r.spec_status_code() == e.spec_status_code(),
        r.spec_message() == e.spec_message(),
{
    MergeInventoryItemsError::from(e)
}

/// What a merge of `source_ids` into `target_id` folds together, given the
/// rows the ids fetched: the ids must form a proper batch, every item must
/// be counted by quantity, and every source must match the target.
pub fn plan_merge(target_id: u128, source_ids: &Vec<u128>, rows: &Vec<InventoryItemRow>) -> (r: Result<MergePlan, MergeInventoryItemsError>)
    ensures
        match spec_plan_merge(target_id, source_ids@, rows_view(rows@)) {
            Ok((t, found)) => r matches Ok(p) && p.target == t && positions(p.sources@) == found,
            Err(e) => r matches Err(x) && (x.spec_status_code(), x.spec_message()) == e,
        },
{
    let ghost rv = rows_view(rows@);
    let mut all_ids: Vec<u128> = Vec::new();
    all_ids.push(target_id);
    let mut k: usize = 0;
    while k < source_ids.len()
        invariant
            k <= source_ids.len(),
            all_ids@ == seq![target_id] + source_ids@.subrange(0, k as int),
        decreases source_ids.len() - k,
    {
        all_ids.push(source_ids[k]);
        assert(all_ids@ =~= seq![target_id] + source_ids@.subrange(0, k + 1));
        k = k + 1;
    }
    assert(source_ids@.subrange(0, source_ids@.len() as int) =~= source_ids@);
    match validate_requested_ids(&all_ids, rows.len()) {
        Ok(()) => {},
        Err(e) => {
            return Err(merge_error(e));
        },
    }
    proof {
        lemma_find_row(rv, target_id);
    }
    let t = match find_row(rows, target_id, "Target") {
        Ok(t) => t,
        Err(e) => {
            proof {
                reveal_strlit("Target");
                reveal_strlit(" inventory item not found");
                reveal_strlit("Target inventory item not found");
                assert(e.spec_message() =~= "Target inventory item not found"@);
            }
            return Err(e);
        },
    };
    assert(rv[t as int] == rows@[t as int]@);
    match validate_quantity_item(&rows[t]) {
        Ok(()) => {},
        Err(m) => {
            return Err(MergeInventoryItemsError::ValidationError(m));
        },
    }
    let mut found: Vec<usize> = Vec::new();
    let mut i: usize = 0;
    assert(source_ids@.subrange(0, 0) =~= Seq::<u128>::empty());
    assert(positions(found@) =~= Seq::<int>::empty());
    while i < source_ids.len()
        invariant
            i <= source_ids.len(),
            t < rows.len(),
            rv == rows_view(rows@),
            spec_validate_requested_ids(seq![target_id] + source_ids@, rows@.len()) is Ok,
            spec_find_row(rv, target_id) == Some(t as int),
            spec_validate_quantity_item(rv[t as int]) is Ok,
            spec_check_sources(rv, rv[t as int], source_ids@.subrange(0, i as int)) == Ok::<
                Seq<int>,
                (u16, Seq<char>),
            >(positions(found@)),
        decreases source_ids.len() - i,
    {
        let ghost prefix = source_ids@.subrange(0, i + 1);
        assert(prefix.drop_last() =~= source_ids@.subrange(0, i as int));
        assert(source_ids@.subrange(0, source_ids@.len() as int) =~= source_ids@);
        let id = source_ids[i];
        assert(prefix.last() == id);
        proof {
            lemma_find_row(rv, id);
        }
        let si = match find_row(rows, id, "Source") {
            Ok(si) => si,
            Err(e) => {
                proof {
                    reveal_strlit("Source");
                    reveal_strlit(" inventory item not found");
                    reveal_strlit("Source inventory item not found");
                    assert(e.spec_message() =~= "Source inventory item not found"@);
                    lemma_check_sources_error_stays(rv, rv[t as int], source_ids@, i + 1, source_ids@.len() as int);
                }
                return Err(e);
            },
        };
        assert(rv[si as int] == rows@[si as int]@);
        match validate_quantity_item(&rows[si]) {
            Ok(()) => {},
            Err(m) => {
                proof {
                    lemma_check_sources_error_stays(rv, rv[t as int], source_ids@, i + 1, source_ids@.len() as int);
                }
                return Err(MergeInventoryItemsError::ValidationError(m));
            },
        }
        match validate_merge_compatible(&rows[t], &rows[si]) {
            Ok(()) => {},
            Err(e) => {
                proof {
                    lemma_check_sources_error_stays(rv, rv[t as int], source_ids@, i + 1, source_ids@.len() as int);
                }
                return Err(e);
            },
        }
        let ghost before = positions(found@);
        found.push(si);
        assert(positions(found@) =~= before.push(si as int));
        i = i + 1;
    }
    Ok(MergePlan { target: t, sources: found })
}

// ---------------------------------------------------------------------------
// generated serial numbers
// ---------------------------------------------------------------------------

/// The `k`-th serial number generated after `#max`.
pub open spec fn generated_serial_number(max: int, k: int) -> Seq<char> {
    seq!['#'] + int_text(max + k)
}

/// The serial numbers the next `count` generated items carry, continuing the
/// `#N` sequence from `max_serial`, the highest one the asset already uses.
pub fn next_serial_numbers(max_serial: i32, count: u16) -> (r: Vec<String>)
    ensures
        r@.len() == count,
        forall|j: int| 0 <= j < count ==> #[trigger] r@[j]@ == generated_serial_number(max_serial as int, j + 1),
{
    let mut r: Vec<String> = Vec::new();
    let mut k: u16 = 0;
    while k < count
        invariant
            k <= count,
            r@.len() == k,
            forall|j: int| 0 <= j < k ==> #[trigger] r@[j]@ == generated_serial_number(max_serial as int, j + 1),
        decreases count - k,
    {
        let n: i64 = max_serial as i64 + k as i64 + 1;
        let mut serial = String::new();
        push_char(&mut serial, '#');
        let digits = format_i64(n);
        serial.append(digits.as_str());
        assert(serial@ =~= generated_serial_number(max_serial as int, k + 1));
        r.push(serial);
        k = k + 1;
    }
    r
}

/// No two generated serial numbers are the same.
pub proof fn generated_serial_numbers_are_distinct(max_serial: int, a: int, b: int)
    requires
        a != b,
    ensures
        generated_serial_number(max_serial, a) != generated_serial_number(max_serial, b),
{
    if generated_serial_number(max_serial, a) == generated_serial_number(max_serial, b) {
        assert(int_text(max_serial + a) =~= generated_serial_number(max_serial, a).drop_first());
        assert(int_text(max_serial + b) =~= generated_serial_number(max_serial, b).drop_first());
        crate::numeric::lemma_int_text_injective(max_serial + a, max_serial + b);
    }
}

/// Generated serial numbers count up from the highest one the asset uses:
/// the `k`-th is `#` followed by the number `max_serial + k`.
pub proof fn generated_serial_numbers_count_up(max_serial: int, k: int)
    ensures
        generated_serial_number(max_serial, k)[0] == '#',
        crate::numeric::int_from_text(generated_serial_number(max_serial, k).drop_first()) == Some(max_serial + k),
{
    assert(generated_serial_number(max_serial, k).drop_first() =~= int_text(max_serial + k));
    crate::numeric::lemma_int_text_round_trip(max_serial + k);
}

/// A generated serial number never repeats one the sequence already used:
/// every `#n` with `n` up to `max_serial` differs from it.
pub proof fn generated_serial_numbers_are_new(max_serial: int, k: int, n: int)
    requires
        k >= 1,
        n <= max_serial,
    ensures
        generated_serial_number(max_serial, k) != seq!['#'] + int_text(n),
{
    if generated_serial_number(max_serial, k) == seq!['#'] + int_text(n) {
        assert(int_text(max_serial + k) =~= generated_serial_number(max_serial, k).drop_first());
        assert(int_text(n) =~= (seq!['#'] + int_text(n)).drop_first());
        crate::numeric::lemma_int_text_injective(max_serial + k, n);
    }
}

// ---------------------------------------------------------------------------
// optional texts
// ---------------------------------------------------------------------------

pub open spec fn spec_trim_optional(value: Option<Seq<char>>) -> Option<Seq<char>> {
    match value {
        Some(v) => if trim(v).len() > 0 {
            Some(trim(v))
        } else {
            None
        },
        None => None,
    }
}

/// An optional text with surrounding whitespace removed; one that is blank
/// counts as absent.
pub fn trim_optional(value: Option<&str>) -> (r: Option<String>)
    ensures
        opt_text(r) == spec_trim_optional(
            match value {
                Some(v) => Some(v@),
                None => None,
            },
        ),
{
    match value {
        Some(v) => {
            let t = trim_to_string(v);
            if t.unicode_len() > 0 {
                Some(t)
            } else {
                None
            }
        },
        None => None,
    }
}

// ---------------------------------------------------------------------------
// attachments of created items
// ---------------------------------------------------------------------------

pub open spec fn conversion_view<A>(items: Seq<Result<A, String>>) -> Seq<Result<A, Seq<char>>> {
    items.map_values(
        |r: Result<A, String>|
            match r {
                Ok(a) => Ok(a),
                Err(e) => Err(e@),
            },
    )
}

/// The attachments of a request once each has been converted: all of them,
/// in order, or the first conversion error.
pub open spec fn spec_collect<A>(items: Seq<Result<A, Seq<char>>>) -> Result<Seq<A>, Seq<char>>
    decreases items.len(),
{
    if items.len() == 0 {
        Ok(Seq::empty())
    } else {
        match spec_collect(items.drop_last()) {
            Err(e) => Err(e),
            Ok(v) => match items.last() {
                Ok(a) => Ok(v.push(a)),
                Err(m) => Err(m),
            },
        }
    }
}

pub proof fn lemma_collect_error_stays<A>(items: Seq<Result<A, Seq<char>>>, n: int, m: int)
    requires
        0 <= n <= m <= items.len(),
        spec_collect(items.subrange(0, n)) is Err,
    ensures
        spec_collect(items.subrange(0, m)) == spec_collect(items.subrange(0, n)),
    decreases m - n,
{
    if m > n {
        lemma_collect_error_stays(items, n, m - 1);
        assert(items.subrange(0, m).drop_last() =~= items.subrange(0, m - 1));
    }
}

pub open spec fn spec_parse_attachments<A>(attachments: Option<Seq<Result<A, Seq<char>>>>) -> Result<Seq<A>, Seq<char>> {
    match attachments {
        None => Ok(Seq::empty()),
        Some(items) => spec_collect(items),
    }
}

pub open spec fn opt_conversions<A>(o: Option<Vec<Result<A, String>>>) -> Option<Seq<Result<A, Seq<char>>>> {
    match o {
        Some(v) => Some(conversion_view(v@)),
        None => None,
    }
}

/// The attachments a request lists, each already converted from its JSON
/// form: none where it lists none, else all of them, or the first that did
/// not convert, as a validation error.
pub fn parse_attachments<A>(attachments: Option<Vec<Result<A, String>>>) -> (r: Result<Vec<A>, CreateInventoryItemsError>)
    ensures
        match spec_parse_attachments(opt_conversions(attachments)) {
            Ok(v) => r matches Ok(x) && x@ == v,
            Err(m) => r matches Err(e) && e.spec_status_code() == 400 && e.spec_message() == m,
        },
{
    let items = match attachments {
        None => {
            return Ok(Vec::new());
        },
        Some(items) => items,
    };
    let ghost view = conversion_view(items@);
    let mut out: Vec<A> = Vec::new();
    let len = items.len();
    let mut rest = items;
    let ghost n: int = view.len() as int;
    let mut i: usize = 0;
    assert(view.subrange(0, 0) =~= Seq::<Result<A, Seq<char>>>::empty());
    assert(conversion_view(rest@) =~= view.subrange(0, n));
    while rest.len() > 0
        invariant
            n == view.len(),
            n == len,
            i + rest@.len() == n,
            spec_parse_attachments(opt_conversions(attachments)) == spec_collect(view),
            conversion_view(rest@) == view.subrange(i as int, n),
            spec_collect(view.subrange(0, i as int)) == Ok::<Seq<A>, Seq<char>>(out@),
        decreases rest@.len(),
    {
        let ghost before = rest@;
        let next = rest.remove(0);
        assert(conversion_view(before)[0] == view[i as int]);
        assert(conversion_view(rest@) =~= view.subrange(i + 1, n)) by {
            assert forall|k: int| 0 <= k < rest@.len() implies conversion_view(rest@)[k] == view.subrange(i + 1, n)[k] by {
                assert(rest@[k] == before[k + 1]);
                assert(conversion_view(before)[k + 1] == view.subrange(i as int, n)[k + 1]);
            }
        }
        assert(view.subrange(0, i + 1).drop_last() =~= view.subrange(0, i as int));
        match next {
            Ok(a) => {
                out.push(a);
            },
            Err(m) => {
                proof {
                    lemma_collect_error_stays(view, i + 1, n);
                    assert(view.subrange(0, n) =~= view);
                }
                return Err(CreateInventoryItemsError::ValidationError(m));
            },
        }
        i = i + 1;
    }
    assert(view.subrange(0, n) =~= view);
    Ok(out)
}

/// The groups of attachments in the request, one per serial item, each
/// converted: all groups in order, or the first conversion error.
pub open spec fn spec_collect_groups<A>(groups: Seq<Option<Seq<Result<A, Seq<char>>>>>) -> Result<Seq<Seq<A>>, Seq<char>>
    decreases groups.len(),
{
    if groups.len() == 0 {
        Ok(Seq::empty())
    } else {
        match spec_collect_groups(groups.drop_last()) {
            Err(e) => Err(e),
            Ok(v) => match spec_parse_attachments(groups.last()) {
                Ok(g) => Ok(v.push(g)),
                Err(m) => Err(m),
            },
        }
    }
}

pub proof fn lemma_collect_groups_error_stays<A>(groups: Seq<Option<Seq<Result<A, Seq<char>>>>>, n: int, m: int)
    requires
        0 <= n <= m <= groups.len(),
        spec_collect_groups(groups.subrange(0, n)) is Err,
    ensures
        spec_collect_groups(groups.subrange(0, m)) == spec_collect_groups(groups.subrange(0, n)),
    decreases m - n,
{
    if m > n {
        lemma_collect_groups_error_stays(groups, n, m - 1);
        assert(groups.subrange(0, m).drop_last() =~= groups.subrange(0, m - 1));
    }
}

/// The two spellings for attachments in a create request: the top-level
/// `attachments` apply to the single item the request creates, while each
/// serial item can carry its own. Only one spelling may be used; either way
/// the request comes down to one group of attachments per created item, in
/// creation order.
#[derive(Debug)]
pub enum InventoryItemAttachmentSource<A> {
    /// The request assigns no attachments.
    Empty,
    /// One group, for a request that creates exactly one item.
    Single(Vec<A>),
    /// One group per serial item, in the order the items are created.
    PerSerialItem(Vec<Vec<A>>),
}

pub enum SourceView<A> {
    Empty,
    Single(Seq<A>),
    PerSerialItem(Seq<Seq<A>>),
}

pub open spec fn groups_seq<A>(groups: Seq<Vec<A>>) -> Seq<Seq<A>> {
    groups.map_values(|g: Vec<A>| g@)
}

impl<A> View for InventoryItemAttachmentSource<A> {
    type V = SourceView<A>;

    open spec fn view(&self) -> SourceView<A> {
        match self {
            InventoryItemAttachmentSource::Empty => SourceView::Empty,
            InventoryItemAttachmentSource::Single(g) => SourceView::Single(g@),
            InventoryItemAttachmentSource::PerSerialItem(gs) => SourceView::PerSerialItem(
                groups_seq(gs@),
            ),
        }
    }
}

pub open spec fn derefs<A>(s: Seq<&A>) -> Seq<A> {
    s.map_values(|x: &A| *x)
}

pub open spec fn source_groups<A>(v: SourceView<A>) -> Seq<Seq<A>> {
    match v {
        SourceView::Empty => Seq::empty(),
        SourceView::Single(g) => seq![g],
        SourceView::PerSerialItem(gs) => gs,
    }
}

pub open spec fn has_nonempty_group<A>(groups: Seq<Seq<A>>) -> bool {
    exists|i: int| 0 <= i < groups.len() && #[trigger] groups[i].len() > 0
}

pub open spec fn spec_parse_source<A>(
    whole: Option<Seq<Result<A, Seq<char>>>>,
    per_serial_item: Seq<Option<Seq<Result<A, Seq<char>>>>>,
) -> Result<SourceView<A>, Seq<char>> {
    match spec_parse_attachments(whole) {
        Err(m) => Err(m),
        Ok(w) => match spec_collect_groups(per_serial_item) {
            Err(m) => Err(m),
            Ok(groups) => {
                let per_item = has_nonempty_group(groups);
                if w.len() > 0 && per_item {
                    Err("attachments cannot be combined with serial_items attachments"@)
                } else if w.len() > 0 {
                    Ok(SourceView::Single(w))
                } else if per_item {
                    Ok(SourceView::PerSerialItem(groups))
                } else {
                    Ok(SourceView::Empty)
                }
            },
        },
    }
}

pub open spec fn group_conversions<A>(groups: Seq<Option<Vec<Result<A, String>>>>) -> Seq<Option<Seq<Result<A, Seq<char>>>>> {
    groups.map_values(|o: Option<Vec<Result<A, String>>>| opt_conversions(o))
}

pub open spec fn spec_groups_to_assign<A>(source: SourceView<A>, created: nat) -> Result<Seq<Seq<A>>, Seq<char>> {
    match source {
        SourceView::Empty => Ok(Seq::empty()),
        SourceView::Single(g) => if created != 1 {
            Err("attachments can only be supplied when exactly one inventory item is created"@)
        } else {
            Ok(seq![g])
        },
        SourceView::PerSerialItem(gs) => if gs.len() != created {
            Err("serial_items attachments must match created inventory items"@)
        } else {
            Ok(gs)
        },
    }
}

impl<A> InventoryItemAttachmentSource<A> {
    /// Reads both spellings, each attachment already converted from its JSON
    /// form, and refuses a request that uses both.
    pub fn parse(
        whole: Option<Vec<Result<A, String>>>,
        per_serial_item: Vec<Option<Vec<Result<A, String>>>>,
    ) -> (r: Result<Self, CreateInventoryItemsError>)
        ensures
            match spec_parse_source(opt_conversions(whole), group_conversions(per_serial_item@)) {
                Ok(v) => r matches Ok(x) && x@ == v,
                Err(m) => r matches Err(e) && e.spec_status_code() == 400 && e.spec_message() == m,
            },
    {
        let w = match parse_attachments(whole) {
            Ok(w) => w,
            Err(e) => {
                return Err(e);
            },
        };
        let ghost view = group_conversions(per_serial_item@);
        assert(groups_seq(Seq::<Vec<A>>::empty()) =~= Seq::<Seq<A>>::empty());
        let len = per_serial_item.len();
        let mut rest = per_serial_item;
        let mut groups: Vec<Vec<A>> = Vec::new();
        let mut any_group = false;
        let ghost n: int = view.len() as int;
        let mut i: usize = 0;
        assert(view.subrange(0, 0) =~= Seq::<Option<Seq<Result<A, Seq<char>>>>>::empty());
        assert(group_conversions(rest@) =~= view.subrange(0, n));
        while rest.len() > 0
            invariant
                n == view.len(),
                n == len,
                i + rest@.len() == n,
                group_conversions(rest@) == view.subrange(i as int, n),
                spec_collect_groups(view.subrange(0, i as int)) == Ok::<Seq<Seq<A>>, Seq<char>>(groups_seq(groups@)),
                any_group == exists|k: int| 0 <= k < groups@.len() && #[trigger] groups@[k]@.len() > 0,
                groups@.len() == i,
                view == group_conversions(per_serial_item@),
                spec_parse_attachments(opt_conversions(whole)) == Ok::<Seq<A>, Seq<char>>(w@),
            decreases rest@.len(),
        {
            let ghost before = rest@;
            let next = rest.remove(0);
            assert(group_conversions(before)[0] == view[i as int]);
            assert(group_conversions(rest@) =~= view.subrange(i + 1, n)) by {
                assert forall|k: int| 0 <= k < rest@.len() implies group_conversions(rest@)[k] == view.subrange(i + 1, n)[k] by {
                    assert(rest@[k] == before[k + 1]);
                    assert(group_conversions(before)[k + 1] == view.subrange(i as int, n)[k + 1]);
                }
            }
            assert(view.subrange(0, i + 1).drop_last() =~= view.subrange(0, i as int));
            match parse_attachments(next) {
                Ok(g) => {
                    let nonempty = g.len() > 0;
                    let ghost old_groups = groups@;
                    groups.push(g);
                    assert(groups_seq(groups@) =~= groups_seq(old_groups).push(groups@[i as int]@));
                    proof {
                        if nonempty {
                            assert(groups@[i as int]@.len() > 0);
                        }
                        if any_group {
                            let k = choose|k: int| 0 <= k < old_groups.len() && #[trigger] old_groups[k]@.len() > 0;
                            assert(groups@[k]@.len() > 0);
                        }
                        if exists|k: int| 0 <= k < groups@.len() && #[trigger] groups@[k]@.len() > 0 {
                            let k = choose|k: int| 0 <= k < groups@.len() && #[trigger] groups@[k]@.len() > 0;
                            if k < i {
                                assert(old_groups[k]@.len() > 0);
                            }
                        }
                    }
                    any_group = any_group || nonempty;
                },
                Err(e) => {
                    proof {
                        lemma_collect_groups_error_stays(view, i + 1, n);
                        assert(view.subrange(0, n) =~= view);
                    }
                    return Err(e);
                },
            }
            i = i + 1;
        }
        assert(view.subrange(0, n) =~= view);
        proof {
            let gs = groups_seq(groups@);
            if any_group {
                let k = choose|k: int| 0 <= k < groups@.len() && #[trigger] groups@[k]@.len() > 0;
                assert(gs[k].len() > 0);
            }
            if exists|k: int| 0 <= k < gs.len() && #[trigger] gs[k].len() > 0 {
                let k = choose|k: int| 0 <= k < gs.len() && #[trigger] gs[k].len() > 0;
                assert(groups@[k]@.len() > 0);
            }
        }
        let has_whole = w.len() > 0;
        assert(spec_collect_groups(view) == Ok::<Seq<Seq<A>>, Seq<char>>(groups_seq(groups@)));
        assert(any_group == has_nonempty_group(groups_seq(groups@)));
        if has_whole && any_group {
            Err(CreateInventoryItemsError::ValidationError(String::from_str("attachments cannot be combined with serial_items attachments")))
        } else if has_whole {
            Ok(InventoryItemAttachmentSource::Single(w))
        } else if any_group {
            Ok(InventoryItemAttachmentSource::PerSerialItem(groups))
        } else {
            Ok(InventoryItemAttachmentSource::Empty)
        }
    }

    /// How many groups the request supplies.
    pub fn group_count(&self) -> (n: usize)
        ensures
            n == source_groups(self@).len(),
    {
        match self {
            InventoryItemAttachmentSource::Empty => 0,
            InventoryItemAttachmentSource::Single(_) => 1,
            InventoryItemAttachmentSource::PerSerialItem(gs) => gs.len(),
        }
    }

    /// The group for the item created at position `i`.
    pub fn group(&self, i: usize) -> (g: &Vec<A>)
        requires
            i < source_groups(self@).len(),
        ensures
            g@ == source_groups(self@)[i as int],
    {
        match self {
            InventoryItemAttachmentSource::Empty => {
                vstd::pervasive::unreached()
            },
            InventoryItemAttachmentSource::Single(g) => g,
            InventoryItemAttachmentSource::PerSerialItem(gs) => &gs[i],
        }
    }

    /// The groups, one per created item, in creation order.
    pub fn groups(&self) -> (r: Vec<&Vec<A>>)
        ensures
            r@.len() == source_groups(self@).len(),
            forall|i: int| 0 <= i < r@.len() ==> (#[trigger] r@[i])@ == source_groups(self@)[i],
    {
        let n = self.group_count();
        let mut r: Vec<&Vec<A>> = Vec::new();
        let mut i: usize = 0;
        while i < n
            invariant
                n == source_groups(self@).len(),
                i <= n,
                r@.len() == i,
                forall|k: int| 0 <= k < i ==> (#[trigger] r@[k])@ == source_groups(self@)[k],
            decreases n - i,
        {
            r.push(self.group(i));
            i = i + 1;
        }
        r
    }

    /// Every attachment the request writes, group after group, for the
    /// request-wide check that no upload is used twice.
    pub fn attachments(&self) -> (r: Vec<&A>)
        ensures
            derefs(r@) == source_groups(self@).flatten(),
    {
        let n = self.group_count();
        let mut r: Vec<&A> = Vec::new();
        let mut i: usize = 0;
        while i < n
            invariant
                n == source_groups(self@).len(),
                i <= n,
                derefs(r@) == source_groups(self@).subrange(0, i as int).flatten(),
            decreases n - i,
        {
            let g = self.group(i);
            let mut j: usize = 0;
            let ghost base = derefs(r@);
            while j < g.len()
                invariant
                    j <= g@.len(),
                    derefs(r@) == base + g@.subrange(0, j as int),
                decreases g@.len() - j,
            {
                let ghost old = r@;
                r.push(&g[j]);
                assert(r@ == old.push(&g@[j as int]));
                assert(derefs(r@) =~= derefs(old).push(g@[j as int]));
                assert(derefs(r@) =~= base + g@.subrange(0, j + 1));
                j = j + 1;
            }
            proof {
                let gs = source_groups(self@);
                assert(gs.subrange(0, i + 1) =~= gs.subrange(0, i as int).push(gs[i as int]));
                assert(g@.subrange(0, g@.len() as int) =~= g@);
                gs.subrange(0, i as int).lemma_flatten_push(gs[i as int]);
            }
            i = i + 1;
        }
        assert(source_groups(self@).subrange(0, n as int) =~= source_groups(self@));
        r
    }

    /// The groups to assign once `created` items exist: one per item, which
    /// is where the two spellings differ in what they demand.
    pub fn groups_to_assign(self, created: usize) -> (r: Result<Vec<Vec<A>>, CreateInventoryItemsError>)
        ensures
            match spec_groups_to_assign(self@, created as nat) {
                Ok(v) => r matches Ok(x) && groups_seq(x@) == v,
                Err(m) => r matches Err(e) && e.spec_status_code() == 400 && e.spec_message() == m,
            },
    {
        match self {
            InventoryItemAttachmentSource::Empty => {
                let r: Vec<Vec<A>> = Vec::new();
                assert(groups_seq(r@) =~= Seq::<Seq<A>>::empty());
                Ok(r)
            },
            InventoryItemAttachmentSource::Single(g) => {
                if created != 1 {
                    return Err(CreateInventoryItemsError::ValidationError(String::from_str("attachments can only be supplied when exactly one inventory item is created")));
                }
                let mut r: Vec<Vec<A>> = Vec::new();
                r.push(g);
                assert(groups_seq(r@) =~= seq![r@[0]@]);
                Ok(r)
            },
            InventoryItemAttachmentSource::PerSerialItem(gs) => {
                if gs.len() != created {
                    return Err(CreateInventoryItemsError::ValidationError(String::from_str("serial_items attachments must match created inventory items")));
                }
                Ok(gs)
            },
        }
    }
}

// ---------------------------------------------------------------------------
// laws
// ---------------------------------------------------------------------------

/// A patch that names no field leaves every field as it was (where the
/// item's tracking mode admits the patch at all).
pub proof fn empty_patch_changes_nothing(existing: ItemView, patch: ItemPatch)
    requires
        patch.serial_number is None,
        patch.batch_number is Keep,
        patch.location_id is Keep,
        patch.status is None,
        patch.public_notes is Keep,
        patch.internal_notes is Keep,
        spec_plan_patch(existing, patch) is Ok,
    ensures
        spec_plan_patch(existing, patch) == Ok::<_, (u16, Seq<char>)>(
            (
                existing.serial_number,
                existing.batch_number,
                existing.location_id,
                existing.status,
                existing.public_notes,
                existing.internal_notes,
            ),
        ),
{
}

/// A patch changes only the fields it names: each field it leaves out keeps
/// the item's value, and each it names takes the patch's value.
pub proof fn patch_changes_only_named_fields(existing: ItemView, patch: ItemPatch)
    requires
        spec_plan_patch(existing, patch) is Ok,
    ensures
        ({
            let f = spec_plan_patch(existing, patch)->Ok_0;
            &&& patch.serial_number is None ==> f.0 == existing.serial_number
            &&& patch.batch_number is Keep ==> f.1 == existing.batch_number
            &&& patch.location_id is Keep ==> f.2 == existing.location_id
            &&& patch.status is None ==> f.3 == existing.status
            &&& patch.public_notes is Keep ==> f.4 == existing.public_notes
            &&& patch.internal_notes is Keep ==> f.5 == existing.internal_notes
            &&& patch.serial_number matches Some(s) ==> f.0 == Some(s@)
            &&& patch.batch_number matches FieldUpdate::Replace(v) ==> f.1 == (match v {
                Some(b) => Some(b@),
                None => None,
            })
            &&& patch.location_id matches FieldUpdate::Replace(l) ==> f.2 == l
            &&& patch.status matches Some(s) ==> f.3 == s@
            &&& patch.public_notes matches FieldUpdate::Replace(v) ==> f.4 == (match v {
                Some(n) => Some(n@),
                None => None,
            })
            &&& patch.internal_notes matches FieldUpdate::Replace(v) ==> f.5 == (match v {
                Some(n) => Some(n@),
                None => None,
            })
        }),
{
}

/// Whether one item may be merged into another does not depend on which is
/// the target.
pub proof fn merge_compatibility_is_symmetric(a: ItemView, b: ItemView)
    ensures
        spec_merge_compatible(a, b) == spec_merge_compatible(b, a),
{
}

/// Two items merge exactly when they belong to the same laboratory and
/// asset and have the same batch, location and status.
pub proof fn merges_need_the_same_asset_batch_location_and_status(target: ItemView, source: ItemView)
    ensures
        spec_merge_compatible(target, source) <==> (target.laboratory_id == source.laboratory_id
            && target.asset_id == source.asset_id && target.batch_number == source.batch_number
            && target.location_id == source.location_id && target.status == source.status),
{
}

/// Every row a merge plan folds into the target has the target's
/// laboratory, asset, batch, location and status, and is a row of the
/// source named in the same place; target and sources are all tracked by
/// quantity.
pub proof fn merged_rows_match_their_target(target_id: u128, source_ids: Seq<u128>, rows: Seq<ItemView>)
    requires
        spec_plan_merge(target_id, source_ids, rows) is Ok,
    ensures
        ({
            let (t, found) = spec_plan_merge(target_id, source_ids, rows)->Ok_0;
            &&& 0 <= t < rows.len()
            &&& rows[t].inventory_item_id == target_id
            &&& rows[t].tracking_mode == "quantity"@
            &&& found.len() == source_ids.len()
            &&& forall|i: int|
                0 <= i < found.len() ==> {
                    let k = #[trigger] found[i];
                    &&& 0 <= k < rows.len()
                    &&& rows[k].inventory_item_id == source_ids[i]
                    &&& rows[k].tracking_mode == "quantity"@
                    &&& rows[k].laboratory_id == rows[t].laboratory_id
                    &&& rows[k].asset_id == rows[t].asset_id
                    &&& rows[k].batch_number == rows[t].batch_number
                    &&& rows[k].location_id == rows[t].location_id
                    &&& rows[k].status == rows[t].status
                }
        }),
{
    let t = spec_find_row(rows, target_id)->Some_0;
    lemma_find_row(rows, target_id);
    lemma_check_sources_found(rows, rows[t], source_ids);
}

/// A split that names nothing new is refused: the target would be the
/// source again.
pub proof fn split_must_change_something(source: ItemView)
    ensures
        spec_check_split_target(
            source,
            spec_split_target(source, FieldUpdate::Keep, FieldUpdate::Keep, None),
        ) is Err,
{
}

/// A merge plan names the target and each source as distinct rows: no
/// source is the target, and no row is named twice.
pub proof fn merge_plan_rows_are_distinct(target_id: u128, source_ids: Seq<u128>, rows: Seq<ItemView>)
    requires
        spec_plan_merge(target_id, source_ids, rows) is Ok,
    ensures
        ({
            let (t, found) = spec_plan_merge(target_id, source_ids, rows)->Ok_0;
            &&& found.len() == source_ids.len()
            &&& forall|i: int| 0 <= i < found.len() ==> found[i] != t
            &&& forall|i: int, j: int| 0 <= i < j < found.len() ==> found[i] != found[j]
        }),
{
    let all = seq![target_id] + source_ids;
    let t = spec_find_row(rows, target_id)->Some_0;
    lemma_find_row(rows, target_id);
    lemma_check_sources_found(rows, rows[t], source_ids);
    let found = spec_check_sources(rows, rows[t], source_ids)->Ok_0;
    assert forall|i: int| 0 <= i < found.len() implies found[i] != t by {
        assert(rows[found[i]].inventory_item_id == source_ids[i]);
        assert(all[i + 1] == source_ids[i] && all[0] == target_id);
    }
    assert forall|i: int, j: int| 0 <= i < j < found.len() implies found[i] != found[j] by {
        assert(rows[found[i]].inventory_item_id == source_ids[i]);
        assert(rows[found[j]].inventory_item_id == source_ids[j]);
        assert(all[i + 1] == source_ids[i] && all[j + 1] == source_ids[j]);
    }
}

/// Each position a successful source check finds holds the source it was
/// looked up for.
pub proof fn lemma_check_sources_found(rows: Seq<ItemView>, target: ItemView, sources: Seq<u128>)
    requires
        spec_check_sources(rows, target, sources) is Ok,
    ensures
        spec_check_sources(rows, target, sources)->Ok_0.len() == sources.len(),
        forall|i: int| 0 <= i < sources.len() ==> {
            let k = #[trigger] spec_check_sources(rows, target, sources)->Ok_0[i];
            0 <= k < rows.len() && rows[k].inventory_item_id == sources[i] && spec_merge_compatible(
                target,
                rows[k],
            ) && spec_validate_quantity_item(rows[k]) is Ok
        },
    decreases sources.len(),
{
    if sources.len() > 0 {
        lemma_check_sources_found(rows, target, sources.drop_last());
        lemma_find_row(rows, sources.last());
        let found = spec_check_sources(rows, target, sources);
        let prev = spec_check_sources(rows, target, sources.drop_last());
        assert forall|i: int| 0 <= i < sources.len() implies {
            let k = #[trigger] spec_check_sources(rows, target, sources)->Ok_0[i];
            0 <= k < rows.len() && rows[k].inventory_item_id == sources[i] && spec_merge_compatible(
                target,
                rows[k],
            ) && spec_validate_quantity_item(rows[k]) is Ok
        } by {
            if i < sources.len() - 1 {
                assert(found->Ok_0[i] == prev->Ok_0[i]);
                assert(sources.drop_last()[i] == sources[i]);
            }
        }
    }
}

// ---------------------------------------------------------------------------
// batch updates and adjustments
// ---------------------------------------------------------------------------

/// Whether a batch update names any field a batch may change.
pub open spec fn spec_has_batch_updates(patch: ItemPatch) -> bool {
    !(patch.batch_number is Keep) || !(patch.location_id is Keep) || patch.status is Some
        || !(patch.public_notes is Keep) || !(patch.internal_notes is Keep)
}

/// A batch update must change something.
pub fn check_batch_patch(patch: &ItemPatch) -> (r: Result<(), BatchUpdateInventoryItemsError>)
    ensures
        spec_has_batch_updates(*patch) ==> r is Ok,
        !spec_has_batch_updates(*patch) ==> (r matches Err(e) && e.spec_status_code() == 400
            && e.spec_message() == "Batch update requires at least one update field"@),
{
    let named = match patch.batch_number {
        FieldUpdate::Keep => false,
        _ => true,
    } || match patch.location_id {
        FieldUpdate::Keep => false,
        _ => true,
    } || patch.status.is_some() || match patch.public_notes {
        FieldUpdate::Keep => false,
        _ => true,
    } || match patch.internal_notes {
        FieldUpdate::Keep => false,
        _ => true,
    };
    if !named {
        return Err(BatchUpdateInventoryItemsError::ValidationError(String::from_str("Batch update requires at least one update field")));
    }
    Ok(())
}

/// The amount of a serialized item is not adjusted: it is one thing.
pub fn check_adjustable(tracking_mode: &str) -> (r: Result<(), String>)
    ensures
        tracking_mode@ == "serialized"@ ==> (r matches Err(e) && e@
            == "serialized inventory quantity cannot be adjusted"@),
        tracking_mode@ != "serialized"@ ==> r is Ok,
{
    if str_eq(tracking_mode, "serialized") {
        return Err(String::from_str("serialized inventory quantity cannot be adjusted"));
    }
    Ok(())
}

// ---------------------------------------------------------------------------
// units, locations and what a response shows
// ---------------------------------------------------------------------------

/// Items are created under an asset of the laboratory in scope; an asset
/// that does not exist and one of another laboratory are answered alike.
/// `asset_laboratory_id` is the laboratory the asset belongs to, if it exists.
pub fn check_asset_in_laboratory(asset_laboratory_id: Option<u128>, scope_laboratory_id: u128) -> (r: Result<u128, CreateInventoryItemsError>)
    ensures
        asset_laboratory_id == Some(scope_laboratory_id) ==> r == Ok::<u128, CreateInventoryItemsError>(scope_laboratory_id),
        asset_laboratory_id != Some(scope_laboratory_id) ==> (r matches Err(e) && e is NotFound
            && e.spec_message() == "Asset not found"@),
{
    match asset_laboratory_id {
        Some(laboratory_id) => {
            if laboratory_id == scope_laboratory_id {
                Ok(laboratory_id)
            } else {
                Err(CreateInventoryItemsError::NotFound(String::from_str("Asset not found")))
            }
        },
        None => Err(CreateInventoryItemsError::NotFound(String::from_str("Asset not found"))),
    }
}

pub open spec fn spec_check_unit_for_asset(
    tracking_mode: Seq<char>,
    unit_code: Seq<char>,
    default_dimension: Seq<char>,
    unit_dimension: Seq<char>,
) -> Result<(), Seq<char>> {
    if tracking_mode == "serialized"@ && unit_code != "pcs"@ {
        Err("serialized inventory items must use pcs"@)
    } else if default_dimension != unit_dimension {
        Err("unit dimension does not match the asset default unit"@)
    } else {
        Ok(())
    }
}

/// The unit an item is counted in: pieces for a serialized asset, and
/// always one measuring what the asset's default unit measures.
pub fn check_unit_for_asset(tracking_mode: &str, unit_code: &str, default_dimension: &str, unit_dimension: &str) -> (r: Result<(), String>)
    ensures
        unit_outcome(r) == spec_check_unit_for_asset(tracking_mode@, unit_code@, default_dimension@, unit_dimension@),
{
    if str_eq(tracking_mode, "serialized") && !str_eq(unit_code, "pcs") {
        return Err(String::from_str("serialized inventory items must use pcs"));
    }
    if !str_eq(default_dimension, unit_dimension) {
        return Err(String::from_str("unit dimension does not match the asset default unit"));
    }
    Ok(())
}

/// The location an item is put in must belong to the item's laboratory;
/// `found` is whether the laboratory has a location with that id.
pub fn check_location_found(found: bool) -> (r: Result<(), InventoryItemDatabaseError>)
    ensures
        found ==> r is Ok,
        !found ==> (r matches Err(e) && e.spec_status_code() == 400 && e.spec_message()
            == "Inventory item location does not belong to this laboratory"@),
{
    if !found {
        return Err(InventoryItemDatabaseError::Validation(String::from_str("Inventory item location does not belong to this laboratory")));
    }
    Ok(())
}

pub open spec fn spec_check_location_owner(owner: Option<u128>, laboratory_id: u128) -> Result<(), Seq<char>> {
    match owner {
        None => Err("Unknown location"@),
        Some(l) => if l == laboratory_id {
            Ok(())
        } else {
            Err("location_id belongs to another laboratory"@)
        },
    }
}

/// The same rule where the location is looked up by id alone: `owner` is
/// the laboratory the location belongs to, where it exists.
pub fn check_location_owner(owner: Option<u128>, laboratory_id: u128) -> (r: Result<(), String>)
    ensures
        unit_outcome(r) == spec_check_location_owner(owner, laboratory_id),
{
    match owner {
        None => Err(String::from_str("Unknown location")),
        Some(l) => if l == laboratory_id {
            Ok(())
        } else {
            Err(String::from_str("location_id belongs to another laboratory"))
        },
    }
}

/// The internal notes a response shows: only to a reader allowed to see
/// them.
pub fn visible_internal_notes(notes: Option<String>, include_internal_notes: bool) -> (r: Option<String>)
    ensures
        r == (if include_internal_notes { notes } else { None }),
{
    if include_internal_notes {
        notes
    } else {
        None
    }
}

pub open spec fn opt_ids(o: Option<Vec<u128>>) -> Seq<u128> {
    match o {
        Some(v) => v@,
        None => Seq::empty(),
    }
}

/// Every upload a create request references: the top-level attachments'
/// first, then each serial item's, in order.
pub fn upload_ids(whole: &Option<Vec<u128>>, per_serial_item: &Vec<Option<Vec<u128>>>) -> (r: Vec<u128>)
    ensures
        r@ == opt_ids(*whole) + per_serial_item@.map_values(|o: Option<Vec<u128>>| opt_ids(o)).flatten(),
{
    let mut r: Vec<u128> = Vec::new();
    match whole {
        Some(v) => {
            let mut j: usize = 0;
            while j < v.len()
                invariant
                    j <= v@.len(),
                    r@ == v@.subrange(0, j as int),
                decreases v@.len() - j,
            {
                r.push(v[j]);
                assert(r@ =~= v@.subrange(0, j + 1));
                j = j + 1;
            }
            assert(v@.subrange(0, v@.len() as int) =~= v@);
        },
        None => {},
    }
    let ghost base = r@;
    let ghost groups = per_serial_item@.map_values(|o: Option<Vec<u128>>| opt_ids(o));
    assert(base == opt_ids(*whole));
    let mut i: usize = 0;
    assert(groups.subrange(0, 0) =~= Seq::<Seq<u128>>::empty());
    while i < per_serial_item.len()
        invariant
            i <= per_serial_item@.len(),
            groups == per_serial_item@.map_values(|o: Option<Vec<u128>>| opt_ids(o)),
            r@ == base + groups.subrange(0, i as int).flatten(),
        decreases per_serial_item@.len() - i,
    {
        let ghost before = r@;
        match &per_serial_item[i] {
            Some(v) => {
                let mut j: usize = 0;
                while j < v.len()
                    invariant
                        j <= v@.len(),
                        r@ == before + v@.subrange(0, j as int),
                    decreases v@.len() - j,
                {
                    r.push(v[j]);
                    assert(r@ =~= before + v@.subrange(0, j + 1));
                    j = j + 1;
                }
                assert(v@.subrange(0, v@.len() as int) =~= v@);
            },
            None => {
                assert(r@ =~= before + Seq::<u128>::empty());
            },
        }
        proof {
            assert(groups[i as int] == opt_ids(per_serial_item@[i as int]));
            assert(groups.subrange(0, i + 1) =~= groups.subrange(0, i as int).push(groups[i as int]));
            groups.subrange(0, i as int).lemma_flatten_push(groups[i as int]);
        }
        i = i + 1;
    }
    assert(groups.subrange(0, per_serial_item@.len() as int) =~= groups);
    r
}

/// A batch of items is looked up only when it names at least one item,
/// names none twice, and every one it names was found.
pub proof fn requested_ids_are_accepted_when_distinct_and_found(ids: Seq<u128>, found: nat)
    ensures
        spec_validate_requested_ids(ids, found) is Ok <==> (ids.len() > 0 && ids.no_duplicates() && found
            == ids.len()),
        ids.len() == 0 ==> spec_validate_requested_ids(ids, found) == Err::<(), (u16, Seq<char>)>(
            (400, "inventory_item_ids cannot be empty"@),
        ),
        ids.len() > 0 && !ids.no_duplicates() ==> spec_validate_requested_ids(ids, found) == Err::<
            (),
            (u16, Seq<char>),
        >((400, "inventory_item_ids cannot contain duplicates"@)),
{
}

/// Quantity operations apply to quantity-tracked items only; a patch may
/// not touch the quantities of a serialized item, nor give a serial number
/// to a quantity-tracked one; and only the two tracking modes are known.
pub proof fn operations_respect_the_tracking_mode(
    item: ItemView,
    serial_given: bool,
    sets_on_hand: bool,
    sets_allocated: bool,
    mode_text: Seq<char>,
)
    ensures
        spec_validate_quantity_item(item) is Ok <==> item.tracking_mode == "quantity"@,
        spec_validate_patch(serial_given, sets_on_hand, sets_allocated, TrackingMode::Serialized) is Ok
            <==> !sets_on_hand && !sets_allocated,
        spec_validate_patch(serial_given, sets_on_hand, sets_allocated, TrackingMode::Quantity) is Ok
            <==> !serial_given,
        spec_parse_tracking_mode(mode_text) == Ok::<TrackingMode, Seq<char>>(TrackingMode::Serialized)
            <==> mode_text == "serialized"@,
        spec_parse_tracking_mode(mode_text) == Ok::<TrackingMode, Seq<char>>(TrackingMode::Quantity)
            <==> mode_text == "quantity"@,
{
    reveal_strlit("serialized");
    reveal_strlit("quantity");
    assert("serialized"@.len() != "quantity"@.len());
}

/// An inventory status is read trimmed, and only the seven known ones are
/// accepted.
pub proof fn inventory_statuses_are_the_known_ones(s: Seq<char>)
    ensures
        spec_parse_inventory_status(s) is Ok <==> (trim(s) == "available"@ || trim(s) == "reserved"@
            || trim(s) == "borrowed"@ || trim(s) == "maintenance"@ || trim(s) == "retired"@ || trim(s)
            == "lost"@ || trim(s) == "consumed"@),
        spec_parse_inventory_status(s) matches Ok(t) ==> t == trim(s),
{
}

/// An optional text is kept trimmed where anything is left of it, and
/// dropped where it is blank.
pub proof fn optional_texts_are_trimmed_or_dropped(value: Option<Seq<char>>)
    ensures
        spec_trim_optional(value) is Some <==> (value is Some && trim(value->Some_0).len() > 0),
        spec_trim_optional(value) matches Some(t) ==> t == trim(value->Some_0),
{
}

/// A location may be used only by the laboratory that owns it, and an
/// item's unit must measure what its asset's default unit measures, in
/// pieces where the asset is serialized.
pub proof fn locations_and_units_must_fit(
    owner: Option<u128>,
    laboratory_id: u128,
    tracking_mode: Seq<char>,
    unit_code: Seq<char>,
    default_dimension: Seq<char>,
    unit_dimension: Seq<char>,
)
    ensures
        spec_check_location_owner(owner, laboratory_id) is Ok <==> owner == Some(laboratory_id),
        spec_check_unit_for_asset(tracking_mode, unit_code, default_dimension, unit_dimension) is Ok <==> ((
        tracking_mode != "serialized"@ || unit_code == "pcs"@) && default_dimension == unit_dimension),
{
}

/// The target of a split takes each of batch, location and status from the
/// request where it names one, and from the source otherwise; and a split
/// is allowed exactly when the target differs from the source in at least
/// one of them.
pub proof fn split_targets_follow_the_request(
    source: ItemView,
    batch_number: FieldUpdate<Seq<char>>,
    location_id: FieldUpdate<u128>,
    status: Option<Seq<char>>,
    target: (Option<Seq<char>>, Option<u128>, Seq<char>),
)
    ensures
        ({
            let t = spec_split_target(source, batch_number, location_id, status);
            &&& batch_number is Keep ==> t.0 == source.batch_number
            &&& batch_number matches FieldUpdate::Replace(b) ==> t.0 == b
            &&& location_id is Keep ==> t.1 == source.location_id
            &&& location_id matches FieldUpdate::Replace(l) ==> t.1 == l
            &&& status is None ==> t.2 == source.status
            &&& status matches Some(s) ==> t.2 == s
        }),
        spec_check_split_target(source, target) is Ok <==> (target.0 != source.batch_number || target.1
            != source.location_id || target.2 != source.status),
{
}

/// A list of converted attachments is taken whole or not at all: it is
/// accepted exactly when every one converted, as they are, in order; else
/// the first failure is reported.
pub proof fn attachments_are_taken_whole_or_refused<A>(items: Seq<Result<A, Seq<char>>>)
    ensures
        spec_collect(items) is Ok <==> (forall|i: int| 0 <= i < items.len() ==> (#[trigger] items[i]) is Ok),
        spec_collect(items) matches Ok(v) ==> v.len() == items.len() && forall|i: int|
            0 <= i < items.len() ==> v[i] == (#[trigger] items[i])->Ok_0,
        spec_collect(items) matches Err(m) ==> exists|i: int|
            0 <= i < items.len() && #[trigger] items[i] == Err::<A, Seq<char>>(m) && forall|j: int|
                0 <= j < i ==> (#[trigger] items[j]) is Ok,
    decreases items.len(),
{
    if items.len() > 0 {
        let prev = items.drop_last();
        attachments_are_taken_whole_or_refused(prev);
        assert forall|i: int| 0 <= i < prev.len() implies prev[i] == items[i] by {}
        match spec_collect(prev) {
            Err(m) => {
                let i = choose|i: int|
                    0 <= i < prev.len() && #[trigger] prev[i] == Err::<A, Seq<char>>(m) && forall|j: int|
                        0 <= j < i ==> (#[trigger] prev[j]) is Ok;
                assert(items[i] == Err::<A, Seq<char>>(m));
                assert(!(items[i] is Ok));
            },
            Ok(v) => {
                match items.last() {
                    Ok(a) => {
                        assert forall|i: int| 0 <= i < items.len() implies (#[trigger] items[i]) is Ok by {
                            if i < prev.len() {
                                assert(prev[i] is Ok);
                            }
                        }
                    },
                    Err(m) => {
                        let i = items.len() - 1;
                        assert(items[i] == Err::<A, Seq<char>>(m));
                        assert forall|j: int| 0 <= j < i implies (#[trigger] items[j]) is Ok by {
                            assert(prev[j] is Ok);
                        }
                    },
                }
            },
        }
    }
}

/// The attachments of a creation go to the items it created: none where
/// none were given; one list only to a creation of exactly one item; and
/// lists per serial item only one to each created item.
pub proof fn attachments_go_to_created_items<A>(source: SourceView<A>, created: nat)
    ensures
        spec_groups_to_assign(source, created) matches Ok(gs) ==> (source is Empty && gs.len() == 0) || gs.len()
            == created,
        source matches SourceView::Single(g) ==> (spec_groups_to_assign(source, created) is Ok <==> created
            == 1),
        source matches SourceView::PerSerialItem(gs) ==> (spec_groups_to_assign(source, created) is Ok
            <==> gs.len() == created),
        spec_groups_to_assign(source, created) matches Ok(gs) ==> (source matches SourceView::Single(g)
            ==> gs == seq![g]),
        spec_groups_to_assign(source, created) matches Ok(gs) ==> (source matches SourceView::PerSerialItem(
            g,
        ) ==> gs == g),
{
}

/// A rejected statement is answered by what the database reports: a unique
/// violation is a conflict, a foreign-key or check violation invalid input,
/// and anything else this server's failure, carrying the database's detail.
pub proof fn rejected_statements_are_answered_by_their_code(
    code: Option<Seq<char>>,
    constraint: Option<Seq<char>>,
    detail: Seq<char>,
)
    ensures
        code == Some("23505"@) ==> spec_map_database_error(code, constraint, detail).0 == 409,
        code == Some("23503"@) || code == Some("23514"@) ==> spec_map_database_error(code, constraint, detail).0
            == 400,
        code != Some("23505"@) && code != Some("23503"@) && code != Some("23514"@) ==> spec_map_database_error(
            code,
            constraint,
            detail,
        ) == (500u16, detail),
        code == Some("23505"@) && constraint == Some("idx_asset_inventory_items_unique_asset_serial_number"@)
            ==> spec_map_database_error(code, constraint, detail).1
            == "Inventory item serial number already exists for this asset"@,
{
    reveal_strlit("23505");
    reveal_strlit("23503");
    reveal_strlit("23514");
    assert("23505"@[4] != "23503"@[4]);
    assert("23505"@[3] != "23514"@[3]);
    assert("23503"@[3] != "23514"@[3]);
}

/// A batch update must name at least one of the fields a batch may change:
/// batch, location, status, or either note.
pub proof fn batch_updates_must_name_a_field(patch: ItemPatch)
    ensures
        spec_has_batch_updates(patch) <==> (patch.batch_number is Replace || patch.location_id is Replace
            || patch.status is Some || patch.public_notes is Replace || patch.internal_notes is Replace),
{
}

} // verus!
