use vstd::prelude::*;
use crate::column::{
    SqlValue, SqlDatum, opt_text_datum, opt_int_datum, int_column, opt_int_column, text_column,
    opt_text_column, price_column, read_int, read_opt_int, read_text, read_opt_text, read_price,
    bind_opt_int, bind_opt_text, bind_text,
};
use crate::models::{
    VehicleBrand, BrandModel, VehicleOverview, VehicleModel, GarageOverview, GarageModel,
    FeatureTypeDict, DictModel, DataInfo, DataInfoModel,
};

verus! {

/// The data of a row of column values.
pub open spec fn row_data(row: Seq<SqlValue>) -> Seq<SqlDatum> {
    row.map_values(|v: SqlValue| v@)
}

// Stored layouts. Each one lists the columns in the order in which the
// catalog's SELECT statements name them.

/// A brand as a stored row: id, name, English name, remarks.
pub open spec fn brand_row(b: BrandModel) -> Seq<SqlDatum> {
    seq![
        SqlDatum::Integer(b.id as int),
        opt_text_datum(b.brand_name),
        opt_text_datum(b.brand_name_en),
        opt_text_datum(b.remarks),
    ]
}

/// A vehicle as a stored row: id, brand, name, English name, type, feature,
/// price, remarks.
pub open spec fn vehicle_row(v: VehicleModel) -> Seq<SqlDatum> {
    seq![
        SqlDatum::Text(v.id),
        opt_int_datum(v.brand_id),
        opt_text_datum(v.vehicle_name),
        opt_text_datum(v.vehicle_name_en),
        opt_text_datum(v.vehicle_type),
        opt_text_datum(v.feature),
        opt_int_datum(v.price),
        opt_text_datum(v.remarks),
    ]
}

/// The fields of a garage that an insert stores, after its id, with the
/// display order it is stored with: name, English name, vehicle count,
/// vehicle list, remarks, order, category.
pub open spec fn garage_fields_row(g: GarageModel, order: Option<i32>) -> Seq<SqlDatum> {
    seq![
        opt_text_datum(g.garage_name),
        opt_text_datum(g.garage_name_en),
        opt_int_datum(g.num),
        opt_text_datum(g.vehicle_list),
        opt_text_datum(g.remarks),
        opt_int_datum(order),
        opt_text_datum(g.garage_type),
    ]
}

pub open spec fn brand_of_row(r: Seq<SqlDatum>) -> Option<BrandModel> {
    if r.len() >= 4 && int_column(r[0]).is_some() && opt_text_column(r[1]).is_some()
        && opt_text_column(r[2]).is_some() && opt_text_column(r[3]).is_some() {
        Some(BrandModel {
            id: int_column(r[0]).unwrap(),
            brand_name: opt_text_column(r[1]).unwrap(),
            brand_name_en: opt_text_column(r[2]).unwrap(),
            remarks: opt_text_column(r[3]).unwrap(),
        })
    } else {
        None
    }
}

/// A vehicle read from a row; the price never makes a row unreadable.
pub open spec fn vehicle_of_row(r: Seq<SqlDatum>) -> Option<VehicleModel> {
    if r.len() >= 8 && text_column(r[0]).is_some() && opt_int_column(r[1]).is_some()
        && opt_text_column(r[2]).is_some() && opt_text_column(r[3]).is_some()
        && opt_text_column(r[4]).is_some() && opt_text_column(r[5]).is_some()
        && opt_text_column(r[7]).is_some() {
        Some(VehicleModel {
            id: text_column(r[0]).unwrap(),
            brand_id: opt_int_column(r[1]).unwrap(),
            vehicle_name: opt_text_column(r[2]).unwrap(),
            vehicle_name_en: opt_text_column(r[3]).unwrap(),
            vehicle_type: opt_text_column(r[4]).unwrap(),
            feature: opt_text_column(r[5]).unwrap(),
            price: price_column(r[6]),
            remarks: opt_text_column(r[7]).unwrap(),
        })
    } else {
        None
    }
}

pub open spec fn garage_of_row(r: Seq<SqlDatum>) -> Option<GarageModel> {
    if r.len() >= 8 && int_column(r[0]).is_some() && opt_text_column(r[1]).is_some()
        && opt_text_column(r[2]).is_some() && opt_int_column(r[3]).is_some()
        && opt_text_column(r[4]).is_some() && opt_text_column(r[5]).is_some()
        && opt_int_column(r[6]).is_some() && opt_text_column(r[7]).is_some() {
        Some(GarageModel {
            id: Some(int_column(r[0]).unwrap()),
            garage_name: opt_text_column(r[1]).unwrap(),
            garage_name_en: opt_text_column(r[2]).unwrap(),
            num: opt_int_column(r[3]).unwrap(),
            vehicle_list: opt_text_column(r[4]).unwrap(),
            remarks: opt_text_column(r[5]).unwrap(),
            garage_order: opt_int_column(r[6]).unwrap(),
            garage_type: opt_text_column(r[7]).unwrap(),
        })
    } else {
        None
    }
}

pub open spec fn dict_of_row(r: Seq<SqlDatum>) -> Option<DictModel> {
    if r.len() >= 3 && int_column(r[0]).is_some() && opt_text_column(r[1]).is_some()
        && opt_text_column(r[2]).is_some() {
        Some(DictModel {
            id: int_column(r[0]).unwrap(),
            dict_key: opt_text_column(r[1]).unwrap(),
            dict_value: opt_text_column(r[2]).unwrap(),
        })
    } else {
        None
    }
}

pub open spec fn data_info_of_row(r: Seq<SqlDatum>) -> Option<DataInfoModel> {
    if r.len() >= 3 && opt_text_column(r[0]).is_some() && opt_text_column(r[1]).is_some()
        && opt_text_column(r[2]).is_some() {
        Some(DataInfoModel {
            dlc_name: opt_text_column(r[0]).unwrap(),
            dlc_name_en: opt_text_column(r[1]).unwrap(),
            update_time: opt_text_column(r[2]).unwrap(),
        })
    } else {
        None
    }
}

/// Reads a brand from a row of `SELECT id, brand_name, brand_name_en, remarks`.
pub fn brand_from_row(row: &Vec<SqlValue>) -> (r: Option<VehicleBrand>)
    ensures
        match r {
            Some(b) => brand_of_row(row_data(row@)) == Some(b@),
            None => brand_of_row(row_data(row@)).is_none(),
        },
{
    if row.len() < 4 {
        return None;
    }
    let id = read_int(&row[0]);
    let name = read_opt_text(&row[1]);
    let name_en = read_opt_text(&row[2]);
    let remarks = read_opt_text(&row[3]);
    match (id, name, name_en, remarks) {
        (Some(id), Some(brand_name), Some(brand_name_en), Some(remarks)) => {
            Some(VehicleBrand { id, brand_name, brand_name_en, remarks })
        },
        _ => None,
    }
}

/// Reads a vehicle from a row of `SELECT id, brand_id, vehicle_name,
/// vehicle_name_en, vehicle_type, feature, price, remarks`.
pub fn vehicle_from_row(row: &Vec<SqlValue>) -> (r: Option<VehicleOverview>)
    ensures
        match r {
            Some(v) => vehicle_of_row(row_data(row@)) == Some(v@),
            None => vehicle_of_row(row_data(row@)).is_none(),
        },
{
    if row.len() < 8 {
        return None;
    }
    let id = read_text(&row[0]);
    let brand_id = read_opt_int(&row[1]);
    let name = read_opt_text(&row[2]);
    let name_en = read_opt_text(&row[3]);
    let vehicle_type = read_opt_text(&row[4]);
    let feature = read_opt_text(&row[5]);
    let price = read_price(&row[6]);
    let remarks = read_opt_text(&row[7]);
    match (id, brand_id, name, name_en, vehicle_type, feature, remarks) {
        (
            Some(id),
            Some(brand_id),
            Some(vehicle_name),
            Some(vehicle_name_en),
            Some(vehicle_type),
            Some(feature),
            Some(remarks),
        ) => Some(
            VehicleOverview {
                id,
                brand_id,
                vehicle_name,
                vehicle_name_en,
                vehicle_type,
                feature,
                price,
                remarks,
            },
        ),
        _ => None,
    }
}

/// Reads a garage from a row of `SELECT id, garage_name, garage_name_en, num,
/// vehicle_list, remarks, garage_order, garage_type`.
pub fn garage_from_row(row: &Vec<SqlValue>) -> (r: Option<GarageOverview>)
    ensures
        match r {
            Some(g) => garage_of_row(row_data(row@)) == Some(g@),
            None => garage_of_row(row_data(row@)).is_none(),
        },
{
    if row.len() < 8 {
        return None;
    }
    let id = read_int(&row[0]);
    let name = read_opt_text(&row[1]);
    let name_en = read_opt_text(&row[2]);
    let num = read_opt_int(&row[3]);
    let list = read_opt_text(&row[4]);
    let remarks = read_opt_text(&row[5]);
    let order = read_opt_int(&row[6]);
    let garage_type = read_opt_text(&row[7]);
    match (id, name, name_en, num, list, remarks, order, garage_type) {
        (
            Some(id),
            Some(garage_name),
            Some(garage_name_en),
            Some(num),
            Some(vehicle_list),
            Some(remarks),
            Some(garage_order),
            Some(garage_type),
        ) => Some(
            GarageOverview {
                id: Some(id),
                garage_name,
                garage_name_en,
                num,
                vehicle_list,
                remarks,
                garage_order,
                garage_type,
            },
        ),
        _ => None,
    }
}

/// Reads a dictionary entry from a row of `SELECT id, dict_key, dict_value`.
pub fn dict_from_row(row: &Vec<SqlValue>) -> (r: Option<FeatureTypeDict>)
    ensures
        match r {
            Some(d) => dict_of_row(row_data(row@)) == Some(d@),
            None => dict_of_row(row_data(row@)).is_none(),
        },
{
    if row.len() < 3 {
        return None;
    }
    let id = read_int(&row[0]);
    let key = read_opt_text(&row[1]);
    let value = read_opt_text(&row[2]);
    match (id, key, value) {
        (Some(id), Some(dict_key), Some(dict_value)) => Some(
            FeatureTypeDict { id, dict_key, dict_value },
        ),
        _ => None,
    }
}

/// Reads the data set record from a row of `SELECT dlc_name, dlc_name_en, update_time`.
pub fn data_info_from_row(row: &Vec<SqlValue>) -> (r: Option<DataInfo>)
    ensures
        match r {
            Some(d) => data_info_of_row(row_data(row@)) == Some(d@),
            None => data_info_of_row(row_data(row@)).is_none(),
        },
{
    if row.len() < 3 {
        return None;
    }
    let name = read_opt_text(&row[0]);
    let name_en = read_opt_text(&row[1]);
    let time = read_opt_text(&row[2]);
    match (name, name_en, time) {
        (Some(dlc_name), Some(dlc_name_en), Some(update_time)) => Some(
            DataInfo { dlc_name, dlc_name_en, update_time },
        ),
        _ => None,
    }
}

/// The parameters of `INSERT INTO vehicle_brand (id, brand_name, brand_name_en, remarks)`.
pub fn brand_insert_params(b: &VehicleBrand) -> (r: Vec<SqlValue>)
    ensures
        row_data(r@) == brand_row(b@),
{
    let mut r: Vec<SqlValue> = Vec::new();
    r.push(SqlValue::Integer(b.id as i64));
    r.push(bind_opt_text(&b.brand_name));
    r.push(bind_opt_text(&b.brand_name_en));
    r.push(bind_opt_text(&b.remarks));
    assert(row_data(r@) =~= brand_row(b@));
    r
}

/// The parameters of `UPDATE vehicle_brand SET brand_name, brand_name_en,
/// remarks WHERE id`: the stored fields after the id, then the id.
pub fn brand_update_params(b: &VehicleBrand) -> (r: Vec<SqlValue>)
    ensures
        row_data(r@) == brand_row(b@).drop_first().push(SqlDatum::Integer(b.id as int)),
{
    let mut r: Vec<SqlValue> = Vec::new();
    r.push(bind_opt_text(&b.brand_name));
    r.push(bind_opt_text(&b.brand_name_en));
    r.push(bind_opt_text(&b.remarks));
    r.push(SqlValue::Integer(b.id as i64));
    assert(row_data(r@) =~= brand_row(b@).drop_first().push(SqlDatum::Integer(b.id as int)));
    r
}

/// The parameters of `INSERT INTO vehicle_overview (id, brand_id,
/// vehicle_name, vehicle_name_en, vehicle_type, feature, price, remarks)`.
pub fn vehicle_insert_params(v: &VehicleOverview) -> (r: Vec<SqlValue>)
    ensures
        row_data(r@) == vehicle_row(v@),
{
    let mut r: Vec<SqlValue> = Vec::new();
    r.push(bind_text(&v.id));
    r.push(bind_opt_int(v.brand_id));
    r.push(bind_opt_text(&v.vehicle_name));
    r.push(bind_opt_text(&v.vehicle_name_en));
    r.push(bind_opt_text(&v.vehicle_type));
    r.push(bind_opt_text(&v.feature));
    r.push(bind_opt_int(v.price));
    r.push(bind_opt_text(&v.remarks));
    assert(row_data(r@) =~= vehicle_row(v@));
    r
}

/// The parameters of `UPDATE vehicle_overview SET ... WHERE id`: the stored
/// fields after the id, then the id.
pub fn vehicle_update_params(v: &VehicleOverview) -> (r: Vec<SqlValue>)
    ensures
        row_data(r@) == vehicle_row(v@).drop_first().push(SqlDatum::Text(v.id@)),
{
    let mut r: Vec<SqlValue> = Vec::new();
    r.push(bind_opt_int(v.brand_id));
    r.push(bind_opt_text(&v.vehicle_name));
    r.push(bind_opt_text(&v.vehicle_name_en));
    r.push(bind_opt_text(&v.vehicle_type));
    r.push(bind_opt_text(&v.feature));
    r.push(bind_opt_int(v.price));
    r.push(bind_opt_text(&v.remarks));
    r.push(bind_text(&v.id));
    assert(row_data(r@) =~= vehicle_row(v@).drop_first().push(SqlDatum::Text(v.id@)));
    r
}

/// The parameters of `INSERT INTO garage_overview (garage_name,
/// garage_name_en, num, vehicle_list, remarks, garage_order, garage_type)`,
/// stored with display order `order`.
pub fn garage_insert_params(g: &GarageOverview, order: i32) -> (r: Vec<SqlValue>)
    ensures
        row_data(r@) == garage_fields_row(g@, Some(order)),
{
    let mut r: Vec<SqlValue> = Vec::new();
    r.push(bind_opt_text(&g.garage_name));
    r.push(bind_opt_text(&g.garage_name_en));
    r.push(bind_opt_int(g.num));
    r.push(bind_opt_text(&g.vehicle_list));
    r.push(bind_opt_text(&g.remarks));
    r.push(SqlValue::Integer(order as i64));
    r.push(bind_opt_text(&g.garage_type));
    assert(row_data(r@) =~= garage_fields_row(g@, Some(order)));
    r
}

/// The parameters of `UPDATE garage_overview SET ... WHERE id`: the stored
/// fields, with the garage's own display order, then the id `id`.
pub fn garage_update_params(g: &GarageOverview, id: i32) -> (r: Vec<SqlValue>)
    ensures
        row_data(r@) == garage_fields_row(g@, g.garage_order).push(SqlDatum::Integer(id as int)),
{
    let mut r: Vec<SqlValue> = Vec::new();
    r.push(bind_opt_text(&g.garage_name));
    r.push(bind_opt_text(&g.garage_name_en));
    r.push(bind_opt_int(g.num));
    r.push(bind_opt_text(&g.vehicle_list));
    r.push(bind_opt_text(&g.remarks));
    r.push(bind_opt_int(g.garage_order));
    r.push(bind_opt_text(&g.garage_type));
    r.push(SqlValue::Integer(id as i64));
    assert(row_data(r@) =~= garage_fields_row(g@, g.garage_order).push(SqlDatum::Integer(id as int)));
    r
}

/// A brand stored by an insert reads back with identical fields.
pub proof fn lemma_brand_round_trip(b: BrandModel)
    ensures
        brand_of_row(brand_row(b)) == Some(b),
{
}

/// A vehicle stored by an insert reads back with identical fields, its
/// price included.
pub proof fn lemma_vehicle_round_trip(v: VehicleModel)
    ensures
        vehicle_of_row(vehicle_row(v)) == Some(v),
{
}

/// A garage stored by an insert reads back with identical fields, under the
/// id that the database assigned and the display order it was stored with.
pub proof fn lemma_garage_round_trip(g: GarageModel, id: i32, order: i32)
    ensures
        garage_of_row(seq![SqlDatum::Integer(id as int)] + garage_fields_row(g, Some(order)))
            == Some((GarageModel { id: Some(id), garage_order: Some(order), ..g })),
{
    let r = seq![SqlDatum::Integer(id as int)] + garage_fields_row(g, Some(order));
    assert(r[1] == opt_text_datum(g.garage_name));
    assert(r[6] == opt_int_datum(Some(order)));
    assert(r[7] == opt_text_datum(g.garage_type));
}

} // verus!
