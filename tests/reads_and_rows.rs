use garage_catalog::column::read_price;
use garage_catalog::reads::{
    brands_reply, data_info_reply, dict_reply, dicts_reply, garages_reply, vehicle_reply, vehicles_reply,
};
use garage_catalog::rows::{
    brand_from_row, brand_insert_params, garage_from_row, garage_insert_params, vehicle_from_row,
    vehicle_insert_params,
};
use garage_catalog::text::contains_text;
use garage_catalog::{
    ApiResponse, DataInfo, DbFile, FeatureTypeDict, GarageOverview, ReadFailure, ReadQuery, ReadStage,
    SqlValue, VehicleBrand, VehicleOverview,
};

fn t(s: &str) -> SqlValue {
    SqlValue::Text(s.to_string())
}

fn vehicle_row(price: SqlValue) -> Vec<SqlValue> {
    vec![t("adder"), SqlValue::Integer(7), t("Adder"), SqlValue::Null, t("super"), t("fast"), price, SqlValue::Null]
}

fn failure(stage: ReadStage, message: &str) -> ReadFailure {
    ReadFailure { stage, message: message.to_string() }
}

#[test]
fn price_reads_integers_in_range() {
    assert_eq!(read_price(&SqlValue::Integer(150_000)), Some(150_000));
    assert_eq!(read_price(&SqlValue::Integer(-3)), Some(-3));
    assert_eq!(read_price(&SqlValue::Integer(3_000_000_000)), None);
    assert_eq!(read_price(&SqlValue::Null), None);
}

#[test]
fn price_falls_back_to_numerals_in_text() {
    assert_eq!(read_price(&t("725000")), Some(725_000));
    assert_eq!(read_price(&t("-42")), Some(-42));
    assert_eq!(read_price(&t("+42")), Some(42));
    assert_eq!(read_price(&t("2147483647")), Some(i32::MAX));
    assert_eq!(read_price(&t("2147483648")), None);
    assert_eq!(read_price(&t("")), None);
    assert_eq!(read_price(&t("-")), None);
    assert_eq!(read_price(&t(" 12")), None);
    assert_eq!(read_price(&t("1,000")), None);
    assert_eq!(read_price(&SqlValue::Real), None);
    assert_eq!(read_price(&SqlValue::Blob(vec![1, 2])), None);
}

#[test]
fn vehicle_row_reads_back() {
    let v = vehicle_from_row(&vehicle_row(t("99"))).unwrap();
    assert_eq!(v.id, "adder");
    assert_eq!(v.brand_id, Some(7));
    assert_eq!(v.vehicle_name_en, None);
    assert_eq!(v.feature, Some("fast".to_string()));
    assert_eq!(v.price, Some(99));
}

#[test]
fn unreadable_price_does_not_fail_the_row() {
    let v = vehicle_from_row(&vehicle_row(t("n/a"))).unwrap();
    assert_eq!(v.price, None);
}

#[test]
fn wrong_column_type_fails_the_row() {
    let mut row = vehicle_row(SqlValue::Null);
    row[2] = SqlValue::Integer(5);
    assert_eq!(vehicle_from_row(&row), None);
    assert_eq!(vehicle_from_row(&row[..5].to_vec()), None);
}

#[test]
fn vehicle_insert_then_fetch_round_trip() {
    let v = VehicleOverview {
        id: "zentorno".to_string(),
        brand_id: Some(3),
        vehicle_name: Some("赞托诺".to_string()),
        vehicle_name_en: Some("Zentorno".to_string()),
        vehicle_type: Some("super".to_string()),
        feature: None,
        price: Some(725_000),
        remarks: Some("".to_string()),
    };
    let stored = vehicle_insert_params(&v);
    let reply = vehicle_reply(Ok(vec![stored]));
    assert_eq!(reply, Ok(ApiResponse { success: true, data: Some(v), error: None }));
}

#[test]
fn brand_insert_then_read_round_trip() {
    let b = VehicleBrand { id: 4, brand_name: None, brand_name_en: Some("Pegassi".to_string()), remarks: None };
    assert_eq!(brand_from_row(&brand_insert_params(&b)), Some(b));
}

#[test]
fn garage_insert_then_read_round_trip() {
    let g = GarageOverview {
        id: None,
        garage_name: Some("a".to_string()),
        garage_name_en: None,
        num: Some(0),
        vehicle_list: Some("[]".to_string()),
        remarks: None,
        garage_order: None,
        garage_type: Some("house".to_string()),
    };
    let mut row = vec![SqlValue::Integer(8)];
    row.extend(garage_insert_params(&g, 3));
    let back = garage_from_row(&row).unwrap();
    assert_eq!(back, GarageOverview { id: Some(8), garage_order: Some(3), ..g });
}

#[test]
fn brands_prepare_failure_is_a_failed_reply() {
    assert_eq!(
        brands_reply(Err(failure(ReadStage::Prepare, "no such table"))),
        Ok(ApiResponse { success: false, data: None, error: Some("no such table".to_string()) })
    );
    assert_eq!(
        brands_reply(Err(failure(ReadStage::Open, "unable to open"))),
        Ok(ApiResponse { success: false, data: None, error: Some("unable to open".to_string()) })
    );
}

#[test]
fn other_prepare_failures_are_failed_replies() {
    let r = garages_reply(Err(failure(ReadStage::Prepare, "no such table")));
    assert_eq!(r, Ok(ApiResponse { success: false, data: None, error: Some("no such table".to_string()) }));
}

#[test]
fn brands_listing_keeps_row_order() {
    let rows = vec![
        vec![SqlValue::Integer(2), t("b"), SqlValue::Null, SqlValue::Null],
        vec![SqlValue::Integer(1), t("a"), t("A"), t("r")],
    ];
    let r = brands_reply(Ok(rows)).unwrap();
    assert!(r.success);
    let list = r.data.unwrap();
    assert_eq!(list.len(), 2);
    assert_eq!(list[0].id, 2);
    assert_eq!(list[1].remarks, Some("r".to_string()));
}

#[test]
fn empty_listing_succeeds() {
    assert_eq!(vehicles_reply(Ok(vec![])), Ok(ApiResponse { success: true, data: Some(vec![]), error: None }));
}

#[test]
fn unreadable_row_fails_the_listing() {
    let rows = vec![vec![t("x"), t("k"), t("v")]];
    let r = dicts_reply(Ok(rows)).unwrap();
    assert!(!r.success);
    assert_eq!(r.error, Some("Invalid column type in result row".to_string()));
}

#[test]
fn lookup_without_rows_fails() {
    let r = vehicle_reply(Ok(vec![])).unwrap();
    assert_eq!(r.error, Some("Query returned no rows".to_string()));
    let r = dict_reply(Ok(vec![])).unwrap();
    assert_eq!(r.error, Some("Query returned no rows".to_string()));
}

#[test]
fn dictionary_lookup_takes_first_row() {
    let rows = vec![vec![SqlValue::Integer(1), t("super"), t("超级跑车")], vec![SqlValue::Integer(2), t("x"), t("y")]];
    let r = dict_reply(Ok(rows)).unwrap();
    assert_eq!(
        r.data,
        Some(FeatureTypeDict { id: 1, dict_key: Some("super".to_string()), dict_value: Some("超级跑车".to_string()) })
    );
}

#[test]
fn data_info_without_rows_fails() {
    let r = data_info_reply(Ok(vec![])).unwrap();
    assert_eq!(r, ApiResponse { success: false, data: None, error: Some("No data found".to_string()) });
}

#[test]
fn data_info_returns_record() {
    let r = data_info_reply(Ok(vec![vec![t("DLC"), t("DLC en"), t("2024-01-01")]])).unwrap();
    assert_eq!(
        r.data,
        Some(DataInfo {
            dlc_name: Some("DLC".to_string()),
            dlc_name_en: Some("DLC en".to_string()),
            update_time: Some("2024-01-01".to_string()),
        })
    );
}

#[test]
fn queries_bind_their_filters() {
    assert_eq!(ReadQuery::VehiclesOfBrand(5).params(), vec![SqlValue::Integer(5)]);
    assert_eq!(ReadQuery::VehicleById("adder".to_string()).params(), vec![t("adder")]);
    assert_eq!(ReadQuery::VehicleTypeByKey("super".to_string()).params(), vec![t("super")]);
    assert_eq!(ReadQuery::Brands.params(), vec![]);
    assert_eq!(ReadQuery::Garages.db_file(), DbFile::User);
    assert_eq!(ReadQuery::Vehicles.db_file(), DbFile::Common);
    assert!(ReadQuery::Garages.sql().ends_with("ORDER BY garage_order ASC"));
}

#[test]
fn text_search() {
    assert!(contains_text("duplicate column name: remarks", "duplicate column name"));
    assert!(contains_text("abc", ""));
    assert!(contains_text("xxabc", "abc"));
    assert!(!contains_text("no such table: garage_overview", "duplicate column name"));
    assert!(!contains_text("ab", "abc"));
}
