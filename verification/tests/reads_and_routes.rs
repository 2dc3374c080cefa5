use lab_inventory::errors::{InventoryItemError, ParameterFilterError};
use lab_inventory::listing::{map_parameter_filter_error, push_inventory_item_filters, validate_query, ListInventoryItemsQuery};
use lab_inventory::public_data::{
    attachment_select, content_disposition_filename, content_disposition_header, download_content_type,
    id_param, includes_parameters, limit_offset, param_value, parameter_value_kind, parse_read_target,
    push_asset_filters, push_inventory_filters, query_params, split_text, FederationReadTarget,
    ParameterValueKind,
};
use lab_inventory::routing::{
    build_remote_url, check_proxy_caller, check_proxy_get, check_proxy_node, check_proxy_post,
    check_proxy_trust, check_proxy_user, inbound_route, parse_borrow_target, path_and_query,
    status_filter, FederationBorrowTarget, InboundRoute, ProxyUser, RequestMethod,
};
use lab_inventory::security::RemoteNodeRow;
use lab_inventory::sql::SqlPiece;

const ID: &str = "67e55044-10b1-426f-9247-bb680e5fe0c8";
const ID_VALUE: u128 = 0x67e55044_10b1_426f_9247_bb680e5fe0c8;

fn sql(s: &str) -> SqlPiece {
    SqlPiece::Sql(s.to_string())
}

fn describe(pieces: &[SqlPiece]) -> Vec<String> {
    pieces
        .iter()
        .map(|p| match p {
            SqlPiece::Sql(s) => format!("sql:{s}"),
            SqlPiece::BindText(t) => format!("text:{t}"),
            SqlPiece::BindId(id) => format!("id:{id:x}"),
        })
        .collect()
}

#[test]
fn read_paths_name_resources() {
    assert!(matches!(parse_read_target(""), Ok(FederationReadTarget::Laboratory)));
    assert!(matches!(parse_read_target("/"), Ok(FederationReadTarget::Laboratory)));
    assert!(matches!(parse_read_target("assets/"), Ok(FederationReadTarget::Assets)));
    assert!(matches!(parse_read_target("units"), Ok(FederationReadTarget::Units)));
    assert!(matches!(parse_read_target(&format!("//units//{ID}")), Ok(FederationReadTarget::Unit(id)) if id == ID_VALUE));
    assert!(matches!(parse_read_target(&format!("assets/{ID}/attachments")), Ok(FederationReadTarget::AssetAttachments(id)) if id == ID_VALUE));
    assert!(matches!(parse_read_target(&format!("attachments/{ID}/download")), Ok(FederationReadTarget::AttachmentDownload(_))));
    assert!(matches!(parse_read_target(&format!("inventory-items/{ID}")), Ok(FederationReadTarget::InventoryItem(_))));
    for bad in ["nothing", "assets/not-a-uuid", "assets/x/y/z", "locations/a/b"] {
        let e = parse_read_target(bad).unwrap_err();
        assert_eq!((e.status_code(), e.message().as_str()), (404, "Federation route not found"));
    }
    assert!(parse_read_target(&format!("units/{ID}/attachments")).is_err());
}

#[test]
fn splitting_keeps_empty_parts() {
    assert_eq!(split_text("a,,b", ','), vec!["a", "", "b"]);
    assert_eq!(split_text("", ','), vec![""]);
}

#[test]
fn paging_defaults_and_limits() {
    assert_eq!(limit_offset("").unwrap(), (50, 0));
    assert_eq!(limit_offset("limit=500&offset=20").unwrap(), (200, 20));
    assert_eq!(limit_offset("limit=10&limit=7").unwrap(), (7, 0));
    let e = limit_offset("limit=ten").unwrap_err();
    assert_eq!((e.status_code(), e.message().as_str()), (400, "limit must be a number"));
    assert_eq!(limit_offset("offset=x").unwrap_err().message(), "offset must be a number");
    assert_eq!(limit_offset("limit=0").unwrap_err().message(), "limit must be positive");
    assert_eq!(limit_offset("offset=-1").unwrap_err().message(), "offset must be non-negative");
}

#[test]
fn query_parameters() {
    let params = query_params("keyword=red+pump&category_id=bad&status=%20ok&keyword=blue");
    assert_eq!(param_value(&params, "keyword"), Some("blue".to_string()));
    assert_eq!(param_value(&params, "status"), Some(" ok".to_string()));
    assert_eq!(param_value(&params, "absent"), None);
    assert_eq!(id_param(&params, "category_id"), None);
    assert_eq!(id_param(&query_params(&format!("root_category_id={ID}")), "root_category_id"), Some(ID_VALUE));
    assert!(includes_parameters("include=items,%20parameters"));
    assert!(!includes_parameters("include=params"));
    assert!(!includes_parameters(""));
}

#[test]
fn download_headers_are_safe() {
    assert_eq!(content_disposition_filename("re\"port\\1\n.pdf"), "re_port_1_.pdf");
    assert_eq!(content_disposition_filename("plain.txt"), "plain.txt");
    let once = content_disposition_filename("a\"b");
    assert_eq!(content_disposition_filename(&once), once);
    assert_eq!(content_disposition_header("x\".pdf"), "attachment; filename=\"x_.pdf\"");
    assert_eq!(download_content_type(None), "application/octet-stream");
    assert_eq!(download_content_type(Some("image/png".to_string())), "image/png");
    assert!(matches!(parameter_value_kind("range"), ParameterValueKind::Range));
    assert!(matches!(parameter_value_kind("Range"), ParameterValueKind::Unknown));
}

#[test]
fn public_filters_bind_what_the_query_gives() {
    let params = query_params(&format!("keyword=%20pump%20&category_id={ID}&manufacturer=&tracking_mode=quantity"));
    let pieces = push_asset_filters(1, &params);
    assert_eq!(
        describe(&pieces),
        vec![
            "sql: WHERE assets.laboratory_id = ".to_string(),
            "id:1".to_string(),
            "sql: AND (assets.name ILIKE ".to_string(),
            "text:%pump%".to_string(),
            "sql: OR COALESCE(assets.model, '') ILIKE ".to_string(),
            "text:%pump%".to_string(),
            "sql: OR COALESCE(assets.manufacturer, '') ILIKE ".to_string(),
            "text:%pump%".to_string(),
            "sql: OR COALESCE(assets.public_notes, '') ILIKE ".to_string(),
            "text:%pump%".to_string(),
            "sql:)".to_string(),
            "sql: AND assets.category_id = ".to_string(),
            format!("id:{ID_VALUE:x}"),
            "sql: AND assets.tracking_mode = ".to_string(),
            "text:quantity".to_string(),
        ]
    );
    let pieces = push_inventory_filters(2, &query_params("asset_id=nope&status=lost"));
    assert_eq!(
        describe(&pieces),
        vec![
            "sql: WHERE asset_inventory_items.laboratory_id = ".to_string(),
            "id:2".to_string(),
            "sql: AND asset_inventory_items.status = ".to_string(),
            "text:lost".to_string(),
        ]
    );
    let sql_text = attachment_select("WHERE x");
    assert!(sql_text.contains("FROM asset_attachment_assignments AS assignments"));
    assert!(sql_text.trim_end().ends_with("WHERE x"));
}

fn query() -> ListInventoryItemsQuery {
    ListInventoryItemsQuery {
        keyword: None,
        asset_id: None,
        category_id: None,
        exact_category: None,
        tracking_mode: None,
        status: None,
        serial_number: None,
        batch_number: None,
        location_id: None,
        has_batch: None,
        has_location: None,
    }
}

#[test]
fn inventory_listing_filters() {
    let q = ListInventoryItemsQuery {
        category_id: Some(3),
        serial_number: Some("  ".to_string()),
        batch_number: Some(" B7 ".to_string()),
        has_location: Some(false),
        ..query()
    };
    let pieces = push_inventory_item_filters(1, &q);
    let d = describe(&pieces);
    assert_eq!(d[0], "sql: WHERE asset_inventory_items.laboratory_id = ");
    assert_eq!(d[1], "id:1");
    assert!(d[2].contains("AND assets.category_id IN ("));
    assert_eq!(d[3], "id:1");
    assert_eq!(d[4], "sql: AND root.category_id = ");
    assert_eq!(d[5], "id:3");
    assert_eq!(d[6], "sql:)");
    assert_eq!(d[7], "sql: AND asset_inventory_items.batch_number = ");
    assert_eq!(d[8], "text:B7");
    assert_eq!(d[9], "sql: AND asset_inventory_items.location_id IS NULL");
    assert_eq!(d.len(), 10);
    let exact = ListInventoryItemsQuery { category_id: Some(3), exact_category: Some(true), ..query() };
    assert_eq!(describe(&push_inventory_item_filters(1, &exact))[2..], ["sql: AND assets.category_id = ".to_string(), "id:3".to_string()]);
    let keyword = ListInventoryItemsQuery { keyword: Some("x".to_string()), ..query() };
    let d = describe(&push_inventory_item_filters(1, &keyword));
    assert_eq!(d.len(), 2 + 14 + 1);
    assert_eq!(d[3], "text:%x%");
    assert!(matches!(&pieces[0], SqlPiece::Sql(_)));
    let _ = sql("");
}

#[test]
fn listing_queries_are_validated() {
    assert!(validate_query(&query()).is_ok());
    let q = ListInventoryItemsQuery { tracking_mode: Some("bulk".to_string()), ..query() };
    let e = validate_query(&q).unwrap_err();
    assert_eq!((e.status_code(), e.message().as_str()), (400, "Unknown asset tracking mode"));
    let q = ListInventoryItemsQuery { status: Some("gone".to_string()), ..query() };
    assert_eq!(validate_query(&q).unwrap_err().message(), "Unknown inventory status");
    let e = map_parameter_filter_error(ParameterFilterError::Validation("bad filter".to_string()));
    assert!(matches!(e, InventoryItemError::ValidationError(ref m) if m == "bad filter"));
    assert_eq!(map_parameter_filter_error(ParameterFilterError::Unexpected("db".to_string())).status_code(), 500);
}

#[test]
fn borrow_routes_need_their_method() {
    assert!(matches!(parse_borrow_target(RequestMethod::Get, "borrow-requests"), Some(FederationBorrowTarget::ListMine)));
    assert!(parse_borrow_target(RequestMethod::Post, "borrow-requests").is_none());
    assert!(matches!(
        parse_borrow_target(RequestMethod::Post, &format!("/inventory-items/{ID}/borrow-requests/")),
        Some(FederationBorrowTarget::Create(id)) if id == ID_VALUE
    ));
    assert!(matches!(parse_borrow_target(RequestMethod::Post, &format!("borrow-requests/{ID}/cancel")), Some(FederationBorrowTarget::Cancel(_))));
    assert!(parse_borrow_target(RequestMethod::Post, "borrow-requests/x/cancel").is_none());
    assert!(parse_borrow_target(RequestMethod::Other, "borrow-requests").is_none());
}

#[test]
fn inbound_routes() {
    assert!(matches!(inbound_route(RequestMethod::Get, "borrow-requests"), Ok(InboundRoute::Borrow(FederationBorrowTarget::ListMine))));
    assert!(matches!(inbound_route(RequestMethod::Get, "assets"), Ok(InboundRoute::Read(FederationReadTarget::Assets))));
    let e = inbound_route(RequestMethod::Post, "assets").unwrap_err();
    assert_eq!((e.status_code(), e.message().as_str()), (404, "Federation route not found"));
    assert_eq!(inbound_route(RequestMethod::Get, "nowhere").unwrap_err().status_code(), 404);
    assert_eq!(status_filter("status=pending&status=approved"), Some("pending".to_string()));
    assert_eq!(status_filter("x=1"), None);
}

#[test]
fn relays_are_checked() {
    assert!(check_proxy_get("assets").is_ok());
    assert!(check_proxy_get("borrow-requests").is_ok());
    assert_eq!(check_proxy_get("nowhere").unwrap_err().status_code(), 404);
    assert!(check_proxy_post(&format!("borrow-requests/{ID}/cancel")).is_ok());
    assert_eq!(check_proxy_post("assets").unwrap_err().message(), "Federation route not found");
    assert_eq!(check_proxy_caller(false, true, false, Some(1)).unwrap_err().message(), "Federation is disabled");
    assert_eq!(
        check_proxy_caller(true, false, false, Some(1)).unwrap_err().message(),
        "Only laboratory administrators and users can use federation"
    );
    assert_eq!(check_proxy_caller(true, true, false, None).unwrap_err().message(), "Federation requires a laboratory-scoped user");
    assert_eq!(check_proxy_caller(true, false, true, Some(4)).unwrap(), 4);
    assert_eq!(check_proxy_trust(false).unwrap_err().status_code(), 403);
    let node = RemoteNodeRow {
        remote_node_id: 1,
        base_url: "https://b.example".to_string(),
        shared_secret: "s".to_string(),
        tls_certificate_sha256: None,
        status: "suspended".to_string(),
        key_version: 1,
    };
    assert_eq!(check_proxy_node(None).unwrap_err().message(), "Remote federation node not found");
    assert_eq!(check_proxy_node(Some(node)).unwrap_err().message(), "Remote federation node is not active");
    let user = |t: &str, lab: Option<u128>| ProxyUser { user_id: 1, username: "u".to_string(), user_type_name: t.to_string(), laboratory_id: lab };
    assert_eq!(check_proxy_user(None, 4).unwrap_err().message(), "Current user not found");
    assert_eq!(check_proxy_user(Some(user("guest", Some(4))), 4).unwrap_err().message(), "Current user is not allowed to use federation");
    assert!(check_proxy_user(Some(user("lab_admin", Some(5))), 4).is_err());
    assert_eq!(check_proxy_user(Some(user("user", Some(4))), 4).unwrap().username, "u");
}

#[test]
fn relayed_requests_go_to_the_partners_inbound_route() {
    let url = build_remote_url("https://b.example//", ID_VALUE, "/assets/", "limit=5").unwrap();
    assert_eq!(url.href, format!("https://b.example/api/v1/federation/inbound/laboratories/{ID}/assets?limit=5"));
    assert_eq!(path_and_query(&url), format!("/api/v1/federation/inbound/laboratories/{ID}/assets?limit=5"));
    let url = build_remote_url("https://b.example", 1, "", "").unwrap();
    assert_eq!(path_and_query(&url), "/api/v1/federation/inbound/laboratories/00000000-0000-0000-0000-000000000001");
    let e = build_remote_url("not a base", 1, "", "").unwrap_err();
    assert_eq!((e.status_code(), e.message().as_str()), (500, "Failed to build the remote federation URL"));
}
