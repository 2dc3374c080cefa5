use lab_inventory::errors::{CreateInventoryItemsError, MergeInventoryItemsError};
use lab_inventory::inventory::{
    check_asset_in_laboratory, plan_split_placement, SplitPlacement,
    check_adjustable, check_batch_patch, check_split_target_differs, find_row, map_database_error,
    next_serial_numbers, parse_attachments, parse_inventory_status, parse_tracking_mode,
    plan_inventory_item_patch, plan_merge, resolve_split_target, trim_optional, validate_merge_compatible,
    validate_patch_against_tracking_mode, validate_quantity_item, validate_requested_ids, validate_status,
    FieldUpdate, InventoryItemAttachmentSource, InventoryItemRow, ItemPatch, TrackingMode,
};

fn row(id: u128, mode: &str) -> InventoryItemRow {
    InventoryItemRow {
        inventory_item_id: id,
        asset_id: 7,
        laboratory_id: 9,
        tracking_mode: mode.to_string(),
        serial_number: None,
        batch_number: Some("B1".to_string()),
        location_id: Some(5),
        status: "available".to_string(),
        public_notes: Some("shelf".to_string()),
        internal_notes: None,
    }
}

fn empty_patch() -> ItemPatch {
    ItemPatch {
        serial_number: None,
        batch_number: FieldUpdate::Keep,
        location_id: FieldUpdate::Keep,
        status: None,
        sets_quantity_on_hand: false,
        sets_quantity_allocated: false,
        public_notes: FieldUpdate::Keep,
        internal_notes: FieldUpdate::Keep,
    }
}

#[test]
fn database_errors_are_classified() {
    let e = map_database_error(Some("23505"), Some("idx_asset_inventory_items_unique_asset_serial_number"), "x".into());
    assert_eq!((e.status_code(), e.message().as_str()), (409, "Inventory item serial number already exists for this asset"));
    let e = map_database_error(Some("23505"), Some("idx_asset_inventory_items_unique_quantity_aggregate"), "x".into());
    assert_eq!(e.message(), "Inventory item already exists for this quantity aggregate");
    let e = map_database_error(Some("23505"), None, "x".into());
    assert_eq!(e.message(), "Inventory item already exists");
    let e = map_database_error(Some("23503"), Some("fk"), "x".into());
    assert_eq!((e.status_code(), e.message().as_str()), (400, "Invalid referenced record"));
    let e = map_database_error(Some("23514"), None, "x".into());
    assert_eq!((e.status_code(), e.message().as_str()), (400, "Invalid inventory item data"));
    let e = map_database_error(Some("40001"), None, "serialization failure".into());
    assert_eq!((e.status_code(), e.message().as_str()), (500, "serialization failure"));
    let e = map_database_error(None, None, "pool closed".into());
    assert_eq!(e.status_code(), 500);
}

#[test]
fn requested_ids_form_a_proper_batch() {
    let e = validate_requested_ids(&vec![], 0).unwrap_err();
    assert_eq!((e.status_code(), e.message().as_str()), (400, "inventory_item_ids cannot be empty"));
    let e = validate_requested_ids(&vec![1, 2, 1], 2).unwrap_err();
    assert_eq!((e.status_code(), e.message().as_str()), (400, "inventory_item_ids cannot contain duplicates"));
    let e = validate_requested_ids(&vec![1, 2, 3], 2).unwrap_err();
    assert_eq!((e.status_code(), e.message().as_str()), (404, "One or more inventory items were not found"));
    assert!(validate_requested_ids(&vec![3, 1, 2], 3).is_ok());
}

#[test]
fn statuses_and_tracking_modes() {
    assert_eq!(parse_inventory_status(" available ").unwrap(), "available");
    for s in ["reserved", "borrowed", "maintenance", "retired", "lost", "consumed"] {
        assert_eq!(parse_inventory_status(s).unwrap(), s);
    }
    assert_eq!(parse_inventory_status("Available").unwrap_err(), "Unknown inventory status");
    assert_eq!(validate_status(None).unwrap(), None);
    assert_eq!(validate_status(Some("lost\n".to_string())).unwrap(), Some("lost".to_string()));
    assert_eq!(validate_status(Some("gone".to_string())).unwrap_err(), "Unknown inventory status");
    assert!(matches!(parse_tracking_mode("serialized"), Ok(TrackingMode::Serialized)));
    assert!(matches!(parse_tracking_mode("quantity"), Ok(TrackingMode::Quantity)));
    assert_eq!(parse_tracking_mode("bulk").unwrap_err(), "Unknown asset tracking mode");
    assert!(validate_quantity_item(&row(1, "quantity")).is_ok());
    assert_eq!(
        validate_quantity_item(&row(1, "serialized")).unwrap_err(),
        "Operation only applies to quantity-tracked inventory items"
    );
    assert!(check_adjustable("quantity").is_ok());
    assert_eq!(check_adjustable("serialized").unwrap_err(), "serialized inventory quantity cannot be adjusted");
}

#[test]
fn patches_respect_the_tracking_mode() {
    let with_quantity = ItemPatch { sets_quantity_on_hand: true, ..empty_patch() };
    let e = validate_patch_against_tracking_mode(&with_quantity, TrackingMode::Serialized).unwrap_err();
    assert_eq!((e.status_code(), e.message().as_str()), (400, "Serialized inventory items cannot update quantity fields"));
    assert!(validate_patch_against_tracking_mode(&with_quantity, TrackingMode::Quantity).is_ok());
    let with_serial = ItemPatch { serial_number: Some("S-1".to_string()), ..empty_patch() };
    let e = validate_patch_against_tracking_mode(&with_serial, TrackingMode::Quantity).unwrap_err();
    assert_eq!(e.message(), "Quantity-tracked inventory items cannot update serial_number");
    assert!(validate_patch_against_tracking_mode(&with_serial, TrackingMode::Serialized).is_ok());
}

#[test]
fn patch_keeps_what_it_does_not_name() {
    let existing = row(1, "quantity");
    let fields = plan_inventory_item_patch(&existing, empty_patch()).unwrap();
    assert_eq!(fields.batch_number, Some("B1".to_string()));
    assert_eq!(fields.location_id, Some(5));
    assert_eq!(fields.status, "available");
    assert_eq!(fields.public_notes, Some("shelf".to_string()));
    assert_eq!(fields.internal_notes, None);
    let patch = ItemPatch {
        batch_number: FieldUpdate::Replace(None),
        location_id: FieldUpdate::Replace(Some(6)),
        status: Some("reserved".to_string()),
        internal_notes: FieldUpdate::Replace(Some("fragile".to_string())),
        ..empty_patch()
    };
    let fields = plan_inventory_item_patch(&existing, patch).unwrap();
    assert_eq!(fields.batch_number, None);
    assert_eq!(fields.location_id, Some(6));
    assert_eq!(fields.status, "reserved");
    assert_eq!(fields.public_notes, Some("shelf".to_string()));
    assert_eq!(fields.internal_notes, Some("fragile".to_string()));
    let odd = InventoryItemRow { tracking_mode: "bulk".to_string(), ..row(1, "quantity") };
    let e = plan_inventory_item_patch(&odd, empty_patch()).unwrap_err();
    assert_eq!((e.status_code(), e.message().as_str()), (400, "Unknown asset tracking mode"));
}

#[test]
fn batch_updates_must_name_a_field() {
    let e = check_batch_patch(&empty_patch()).unwrap_err();
    assert_eq!((e.status_code(), e.message().as_str()), (400, "Batch update requires at least one update field"));
    let patch = ItemPatch { public_notes: FieldUpdate::Replace(None), ..empty_patch() };
    assert!(check_batch_patch(&patch).is_ok());
}

#[test]
fn split_target_must_differ() {
    let source = row(1, "quantity");
    let same = resolve_split_target(&source, FieldUpdate::Keep, FieldUpdate::Keep, None);
    assert_eq!(same.batch_number, Some("B1".to_string()));
    assert_eq!(same.location_id, Some(5));
    assert_eq!(same.status, "available");
    assert_eq!(
        check_split_target_differs(&source, &same).unwrap_err(),
        "Split target must differ by batch, location, or status"
    );
    let moved = resolve_split_target(&source, FieldUpdate::Keep, FieldUpdate::Replace(None), None);
    assert_eq!(moved.location_id, None);
    assert!(check_split_target_differs(&source, &moved).is_ok());
    let restated = resolve_split_target(&source, FieldUpdate::Replace(Some("B1".to_string())), FieldUpdate::Keep, Some("available".to_string()));
    assert!(check_split_target_differs(&source, &restated).is_err());
}

#[test]
fn merges_fold_compatible_quantity_items() {
    let rows = vec![row(10, "quantity"), row(11, "quantity"), row(12, "quantity")];
    let plan = plan_merge(11, &vec![12, 10], &rows).unwrap();
    assert_eq!(plan.target, 1);
    assert_eq!(plan.sources, vec![2, 0]);
    assert_eq!(find_row(&rows, 12, "Source").unwrap(), 2);
    let e = find_row(&rows, 13, "Target").unwrap_err();
    assert_eq!((e.status_code(), e.message().as_str()), (404, "Target inventory item not found"));
    let e = plan_merge(11, &vec![11], &rows).unwrap_err();
    assert_eq!(e.message(), "inventory_item_ids cannot contain duplicates");
    let other_rows = vec![clone_row(&rows[0]), clone_row(&rows[2])];
    let e = plan_merge(11, &vec![12], &other_rows).unwrap_err();
    assert_eq!((e.status_code(), e.message().as_str()), (404, "Target inventory item not found"));
    let e = plan_merge(10, &vec![11], &other_rows).unwrap_err();
    assert_eq!((e.status_code(), e.message().as_str()), (404, "Source inventory item not found"));
    let moved = vec![row(10, "quantity"), InventoryItemRow { location_id: None, ..row(11, "quantity") }];
    let e = plan_merge(10, &vec![11], &moved).unwrap_err();
    assert!(matches!(e, MergeInventoryItemsError::ValidationError(_)));
    assert_eq!(e.message(), "Source inventory items must match target asset, batch, location, and status");
    let serial = vec![row(10, "serialized"), row(11, "quantity")];
    let e = plan_merge(10, &vec![11], &serial).unwrap_err();
    assert_eq!(e.message(), "Operation only applies to quantity-tracked inventory items");
    assert!(validate_merge_compatible(&row(1, "quantity"), &row(2, "quantity")).is_ok());
}

fn clone_row(r: &InventoryItemRow) -> InventoryItemRow {
    InventoryItemRow {
        inventory_item_id: r.inventory_item_id,
        asset_id: r.asset_id,
        laboratory_id: r.laboratory_id,
        tracking_mode: r.tracking_mode.clone(),
        serial_number: r.serial_number.clone(),
        batch_number: r.batch_number.clone(),
        location_id: r.location_id,
        status: r.status.clone(),
        public_notes: r.public_notes.clone(),
        internal_notes: r.internal_notes.clone(),
    }
}

#[test]
fn generated_serial_numbers_continue_the_sequence() {
    assert_eq!(next_serial_numbers(0, 3), vec!["#1", "#2", "#3"]);
    assert_eq!(next_serial_numbers(41, 2), vec!["#42", "#43"]);
    assert_eq!(next_serial_numbers(i32::MAX, 1), vec!["#2147483648"]);
    assert!(next_serial_numbers(5, 0).is_empty());
    let many = next_serial_numbers(-3, 10);
    let unique: std::collections::HashSet<_> = many.iter().collect();
    assert_eq!(unique.len(), 10);
}

#[test]
fn optional_texts_are_trimmed() {
    assert_eq!(trim_optional(Some("  note ")), Some("note".to_string()));
    assert_eq!(trim_optional(Some("   ")), None);
    assert_eq!(trim_optional(None), None);
}

#[test]
fn attachments_come_in_one_spelling() {
    let ok = |v: u32| -> Result<u32, String> { Ok(v) };
    assert_eq!(parse_attachments::<u32>(None).unwrap(), Vec::<u32>::new());
    assert_eq!(parse_attachments(Some(vec![ok(1), ok(2)])).unwrap(), vec![1, 2]);
    let e = parse_attachments(Some(vec![ok(1), Err("bad upload".to_string()), Err("later".to_string())])).unwrap_err();
    assert_eq!((e.status_code(), e.message().as_str()), (400, "bad upload"));

    let single = InventoryItemAttachmentSource::parse(Some(vec![ok(1)]), vec![None, Some(vec![])]).unwrap();
    assert_eq!(single.group_count(), 1);
    assert_eq!(single.attachments(), vec![&1]);
    let e = single.groups_to_assign(2).unwrap_err();
    assert_eq!(e.message(), "attachments can only be supplied when exactly one inventory item is created");

    let per_item = InventoryItemAttachmentSource::parse(None, vec![Some(vec![ok(1)]), None, Some(vec![ok(2), ok(3)])]).unwrap();
    assert_eq!(per_item.group_count(), 3);
    assert_eq!(per_item.groups().len(), 3);
    assert_eq!(per_item.attachments(), vec![&1, &2, &3]);
    assert_eq!(per_item.groups_to_assign(3).unwrap(), vec![vec![1], vec![], vec![2, 3]]);

    let both = InventoryItemAttachmentSource::parse(Some(vec![ok(1)]), vec![Some(vec![ok(2)])]);
    assert!(matches!(both, Err(CreateInventoryItemsError::ValidationError(ref m)) if m == "attachments cannot be combined with serial_items attachments"));

    let none = InventoryItemAttachmentSource::<u32>::parse(None, vec![None, Some(vec![])]).unwrap();
    assert_eq!(none.group_count(), 0);
    assert!(none.groups_to_assign(5).unwrap().is_empty());

    let mismatch = InventoryItemAttachmentSource::parse(None, vec![Some(vec![ok(1)])]).unwrap();
    assert_eq!(
        mismatch.groups_to_assign(2).unwrap_err().message(),
        "serial_items attachments must match created inventory items"
    );
}

#[test]
fn merge_compatibility_does_not_depend_on_direction() {
    let a = row(1, "quantity");
    let b = InventoryItemRow { status: "reserved".to_string(), ..row(2, "quantity") };
    assert_eq!(validate_merge_compatible(&a, &b).is_ok(), validate_merge_compatible(&b, &a).is_ok());
    assert!(validate_merge_compatible(&a, &b).is_err());
    let c = row(3, "quantity");
    assert!(validate_merge_compatible(&a, &c).is_ok() && validate_merge_compatible(&c, &a).is_ok());
}

#[test]
fn assets_of_other_laboratories_are_not_found() {
    assert_eq!(check_asset_in_laboratory(Some(7), 7).unwrap(), 7);
    let e = check_asset_in_laboratory(Some(8), 7).unwrap_err();
    assert_eq!((e.status_code(), e.message().as_str()), (404, "Asset not found"));
    let e = check_asset_in_laboratory(None, 7).unwrap_err();
    assert_eq!((e.status_code(), e.message().as_str()), (404, "Asset not found"));
}

#[test]
fn splits_add_to_a_matching_row_or_insert_one() {
    let source = row(1, "quantity");
    let target = resolve_split_target(&source, FieldUpdate::Keep, FieldUpdate::Replace(Some(6)), None);
    match plan_split_placement(&source, target, Some(42), None, None) {
        SplitPlacement::AddTo(id) => assert_eq!(id, 42),
        SplitPlacement::Insert(_) => panic!("expected the existing row"),
    }
    let target = resolve_split_target(&source, FieldUpdate::Keep, FieldUpdate::Replace(Some(6)), None);
    match plan_split_placement(&source, target, None, None, Some("cold room".to_string())) {
        SplitPlacement::Insert(new_row) => {
            assert_eq!((new_row.asset_id, new_row.laboratory_id), (7, 9));
            assert_eq!(new_row.tracking_mode, "quantity");
            assert_eq!(new_row.serial_number, None);
            assert_eq!(new_row.batch_number, Some("B1".to_string()));
            assert_eq!(new_row.location_id, Some(6));
            assert_eq!(new_row.status, "available");
            assert_eq!(new_row.public_notes, Some("shelf".to_string()));
            assert_eq!(new_row.internal_notes, Some("cold room".to_string()));
        }
        SplitPlacement::AddTo(_) => panic!("expected a new row"),
    }
}
