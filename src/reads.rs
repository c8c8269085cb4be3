use vstd::prelude::*;
use crate::column::{SqlValue, SqlDatum, bind_text};
use crate::models::{
    ApiResponse, VehicleBrand, BrandModel, VehicleOverview, VehicleModel, GarageOverview,
    GarageModel, FeatureTypeDict, DictModel, DataInfo, text_view,
};
use crate::rows::{
    row_data, brand_of_row, vehicle_of_row, garage_of_row, dict_of_row, data_info_of_row,
    brand_from_row, vehicle_from_row, garage_from_row, dict_from_row, data_info_from_row,
};
use crate::schema::DbFile;

verus! {

pub const ROW_UNREADABLE: &'static str = "Invalid column type in result row";

pub const NO_ROWS: &'static str = "Query returned no rows";

pub const NO_DATA: &'static str = "No data found";

/// A query that reads the catalog.
#[derive(Clone, Debug, PartialEq, Eq)]
pub enum ReadQuery {
    Brands,
    Garages,
    Vehicles,
    VehiclesOfBrand(i32),
    VehicleById(String),
    FeatureTypes,
    FeatureTypeByKey(String),
    VehicleTypes,
    VehicleTypeByKey(String),
    DataInfo,
}

pub const BRANDS_SQL: &'static str =
    "SELECT id, brand_name, brand_name_en, remarks FROM vehicle_brand";

pub const GARAGES_SQL: &'static str =
    "SELECT id, garage_name, garage_name_en, num, vehicle_list, remarks, garage_order, garage_type FROM garage_overview ORDER BY garage_order ASC";

pub const VEHICLES_SQL: &'static str =
    "SELECT id, brand_id, vehicle_name, vehicle_name_en, vehicle_type, feature, price, remarks FROM vehicle_overview";

pub const VEHICLES_OF_BRAND_SQL: &'static str =
    "SELECT id, brand_id, vehicle_name, vehicle_name_en, vehicle_type, feature, price, remarks FROM vehicle_overview WHERE brand_id = ?1";

pub const VEHICLE_BY_ID_SQL: &'static str =
    "SELECT id, brand_id, vehicle_name, vehicle_name_en, vehicle_type, feature, price, remarks FROM vehicle_overview WHERE id = ?1";

pub const FEATURE_TYPES_SQL: &'static str =
    "SELECT id, dict_key, dict_value FROM feature_type_dict";

pub const FEATURE_TYPE_BY_KEY_SQL: &'static str =
    "SELECT id, dict_key, dict_value FROM feature_type_dict WHERE dict_key = ?1";

pub const VEHICLE_TYPES_SQL: &'static str =
    "SELECT id, dict_key, dict_value FROM vehicle_type_dict";

pub const VEHICLE_TYPE_BY_KEY_SQL: &'static str =
    "SELECT id, dict_key, dict_value FROM vehicle_type_dict WHERE dict_key = ?1";

pub const DATA_INFO_SQL: &'static str =
    "SELECT dlc_name, dlc_name_en, update_time FROM data_info LIMIT 1";

/// The SQL text of a read query.
pub open spec fn query_sql(q: ReadQuery) -> Seq<char> {
    match q {
        ReadQuery::Brands => BRANDS_SQL@,
        ReadQuery::Garages => GARAGES_SQL@,
        ReadQuery::Vehicles => VEHICLES_SQL@,
        ReadQuery::VehiclesOfBrand(_) => VEHICLES_OF_BRAND_SQL@,
        ReadQuery::VehicleById(_) => VEHICLE_BY_ID_SQL@,
        ReadQuery::FeatureTypes => FEATURE_TYPES_SQL@,
        ReadQuery::FeatureTypeByKey(_) => FEATURE_TYPE_BY_KEY_SQL@,
        ReadQuery::VehicleTypes => VEHICLE_TYPES_SQL@,
        ReadQuery::VehicleTypeByKey(_) => VEHICLE_TYPE_BY_KEY_SQL@,
        ReadQuery::DataInfo => DATA_INFO_SQL@,
    }
}

impl ReadQuery {
    pub fn db_file(&self) -> (r: DbFile)
        ensures
            r == (if self is Garages { DbFile::User } else { DbFile::Common }),
    {
        match self {
            ReadQuery::Garages => DbFile::User,
            _ => DbFile::Common,
        }
    }

    /// The SQL text, with numbered parameters.
    pub fn sql(&self) -> (r: &'static str)
        ensures
            r@ == query_sql(*self),
    {
        match self {
            ReadQuery::Brands => BRANDS_SQL,
            ReadQuery::Garages => GARAGES_SQL,
            ReadQuery::Vehicles => VEHICLES_SQL,
            ReadQuery::VehiclesOfBrand(_) => VEHICLES_OF_BRAND_SQL,
            ReadQuery::VehicleById(_) => VEHICLE_BY_ID_SQL,
            ReadQuery::FeatureTypes => FEATURE_TYPES_SQL,
            ReadQuery::FeatureTypeByKey(_) => FEATURE_TYPE_BY_KEY_SQL,
            ReadQuery::VehicleTypes => VEHICLE_TYPES_SQL,
            ReadQuery::VehicleTypeByKey(_) => VEHICLE_TYPE_BY_KEY_SQL,
            ReadQuery::DataInfo => DATA_INFO_SQL,
        }
    }

    /// The parameters of the query: the brand id, vehicle id or key it
    /// filters on, if any.
    pub fn params(&self) -> (r: Vec<SqlValue>)
        ensures
            row_data(r@) == match self {
                ReadQuery::VehiclesOfBrand(id) => seq![SqlDatum::Integer(*id as int)],
                ReadQuery::VehicleById(id) => seq![SqlDatum::Text(id@)],
                ReadQuery::FeatureTypeByKey(k) => seq![SqlDatum::Text(k@)],
                ReadQuery::VehicleTypeByKey(k) => seq![SqlDatum::Text(k@)],
                _ => Seq::<SqlDatum>::empty(),
            },
    {
        let mut r: Vec<SqlValue> = Vec::new();
        match self {
            ReadQuery::VehiclesOfBrand(id) => r.push(SqlValue::Integer(*id as i64)),
            ReadQuery::VehicleById(id) => r.push(bind_text(id)),
            ReadQuery::FeatureTypeByKey(k) => r.push(bind_text(k)),
            ReadQuery::VehicleTypeByKey(k) => r.push(bind_text(k)),
            _ => {},
        }
        proof {
            match self {
                ReadQuery::VehiclesOfBrand(id) => assert(row_data(r@) =~= seq![SqlDatum::Integer(*id as int)]),
                ReadQuery::VehicleById(id) => assert(row_data(r@) =~= seq![SqlDatum::Text(id@)]),
                ReadQuery::FeatureTypeByKey(k) => assert(row_data(r@) =~= seq![SqlDatum::Text(k@)]),
                ReadQuery::VehicleTypeByKey(k) => assert(row_data(r@) =~= seq![SqlDatum::Text(k@)]),
                _ => assert(row_data(r@) =~= Seq::<SqlDatum>::empty()),
            }
        }
        r
    }
}

/// The step of a read at which the driver failed.
#[derive(PartialEq, Eq, Structural, Clone, Copy, Debug)]
pub enum ReadStage {
    Open,
    Prepare,
    Query,
}

/// A driver failure while reading.
#[derive(Clone, Debug, PartialEq, Eq)]
pub struct ReadFailure {
    pub stage: ReadStage,
    pub message: String,
}

/// The data of fetched rows.
pub open spec fn rows_data(rows: Seq<Vec<SqlValue>>) -> Seq<Seq<SqlDatum>> {
    rows.map_values(|r: Vec<SqlValue>| row_data(r@))
}

pub open spec fn is_failure<T>(r: Result<ApiResponse<T>, String>, message: Seq<char>) -> bool {
    r is Ok && !r->Ok_0.success && r->Ok_0.data.is_none() && text_view(r->Ok_0.error) == Some(message)
}

pub open spec fn is_success<T>(r: Result<ApiResponse<T>, String>) -> bool {
    r is Ok && r->Ok_0.success && r->Ok_0.data.is_some() && r->Ok_0.error.is_none()
}

pub open spec fn brands_view(v: Seq<VehicleBrand>) -> Seq<BrandModel> {
    v.map_values(|b: VehicleBrand| b@)
}

pub open spec fn vehicles_view(v: Seq<VehicleOverview>) -> Seq<VehicleModel> {
    v.map_values(|x: VehicleOverview| x@)
}

pub open spec fn garages_view(v: Seq<GarageOverview>) -> Seq<GarageModel> {
    v.map_values(|g: GarageOverview| g@)
}

pub open spec fn dicts_view(v: Seq<FeatureTypeDict>) -> Seq<DictModel> {
    v.map_values(|d: FeatureTypeDict| d@)
}

/// Every row reads as a brand.
pub open spec fn brands_readable(rows: Seq<Seq<SqlDatum>>) -> bool {
    forall|i: int| 0 <= i < rows.len() ==> (#[trigger] brand_of_row(rows[i])).is_some()
}

pub open spec fn vehicles_readable(rows: Seq<Seq<SqlDatum>>) -> bool {
    forall|i: int| 0 <= i < rows.len() ==> (#[trigger] vehicle_of_row(rows[i])).is_some()
}

pub open spec fn garages_readable(rows: Seq<Seq<SqlDatum>>) -> bool {
    forall|i: int| 0 <= i < rows.len() ==> (#[trigger] garage_of_row(rows[i])).is_some()
}

pub open spec fn dicts_readable(rows: Seq<Seq<SqlDatum>>) -> bool {
    forall|i: int| 0 <= i < rows.len() ==> (#[trigger] dict_of_row(rows[i])).is_some()
}

pub open spec fn data_infos_readable(rows: Seq<Seq<SqlDatum>>) -> bool {
    forall|i: int| 0 <= i < rows.len() ==> (#[trigger] data_info_of_row(rows[i])).is_some()
}

/// Reads every row as a brand; `None` when a row does not read.
pub fn decode_brands(rows: &Vec<Vec<SqlValue>>) -> (r: Option<Vec<VehicleBrand>>)
    ensures
        r.is_some() <==> brands_readable(rows_data(rows@)),
        r.is_some() ==> brands_view(r.unwrap()@)
            == rows_data(rows@).map_values(|d: Seq<SqlDatum>| brand_of_row(d).unwrap()),
{
    let mut out: Vec<VehicleBrand> = Vec::new();
    let mut i: usize = 0;
    while i < rows.len()
        invariant
            i <= rows.len(),
            out@.len() == i,
            forall|j: int| 0 <= j < i ==> brand_of_row(#[trigger] rows_data(rows@)[j]) == Some(out@[j]@),
        decreases rows.len() - i,
    {
        match brand_from_row(&rows[i]) {
            Some(b) => out.push(b),
            None => {
                assert(brand_of_row(rows_data(rows@)[i as int]).is_none());
                return None;
            },
        }
        i = i + 1;
    }
    assert(brands_view(out@) =~= rows_data(rows@).map_values(|d: Seq<SqlDatum>| brand_of_row(d).unwrap()));
    Some(out)
}

pub fn decode_vehicles(rows: &Vec<Vec<SqlValue>>) -> (r: Option<Vec<VehicleOverview>>)
    ensures
        r.is_some() <==> vehicles_readable(rows_data(rows@)),
        r.is_some() ==> vehicles_view(r.unwrap()@)
            == rows_data(rows@).map_values(|d: Seq<SqlDatum>| vehicle_of_row(d).unwrap()),
{
    let mut out: Vec<VehicleOverview> = Vec::new();
    let mut i: usize = 0;
    while i < rows.len()
        invariant
            i <= rows.len(),
            out@.len() == i,
            forall|j: int| 0 <= j < i ==> vehicle_of_row(#[trigger] rows_data(rows@)[j]) == Some(out@[j]@),
        decreases rows.len() - i,
    {
        match vehicle_from_row(&rows[i]) {
            Some(v) => out.push(v),
            None => {
                assert(vehicle_of_row(rows_data(rows@)[i as int]).is_none());
                return None;
            },
        }
        i = i + 1;
    }
    assert(vehicles_view(out@) =~= rows_data(rows@).map_values(|d: Seq<SqlDatum>| vehicle_of_row(d).unwrap()));
    Some(out)
}

pub fn decode_garages(rows: &Vec<Vec<SqlValue>>) -> (r: Option<Vec<GarageOverview>>)
    ensures
        r.is_some() <==> garages_readable(rows_data(rows@)),
        r.is_some() ==> garages_view(r.unwrap()@)
            == rows_data(rows@).map_values(|d: Seq<SqlDatum>| garage_of_row(d).unwrap()),
{
    let mut out: Vec<GarageOverview> = Vec::new();
    let mut i: usize = 0;
    while i < rows.len()
        invariant
            i <= rows.len(),
            out@.len() == i,
            forall|j: int| 0 <= j < i ==> garage_of_row(#[trigger] rows_data(rows@)[j]) == Some(out@[j]@),
        decreases rows.len() - i,
    {
        match garage_from_row(&rows[i]) {
            Some(g) => out.push(g),
            None => {
                assert(garage_of_row(rows_data(rows@)[i as int]).is_none());
                return None;
            },
        }
        i = i + 1;
    }
    assert(garages_view(out@) =~= rows_data(rows@).map_values(|d: Seq<SqlDatum>| garage_of_row(d).unwrap()));
    Some(out)
}

pub fn decode_dicts(rows: &Vec<Vec<SqlValue>>) -> (r: Option<Vec<FeatureTypeDict>>)
    ensures
        r.is_some() <==> dicts_readable(rows_data(rows@)),
        r.is_some() ==> dicts_view(r.unwrap()@)
            == rows_data(rows@).map_values(|d: Seq<SqlDatum>| dict_of_row(d).unwrap()),
{
    let mut out: Vec<FeatureTypeDict> = Vec::new();
    let mut i: usize = 0;
    while i < rows.len()
        invariant
            i <= rows.len(),
            out@.len() == i,
            forall|j: int| 0 <= j < i ==> dict_of_row(#[trigger] rows_data(rows@)[j]) == Some(out@[j]@),
        decreases rows.len() - i,
    {
        match dict_from_row(&rows[i]) {
            Some(d) => out.push(d),
            None => {
                assert(dict_of_row(rows_data(rows@)[i as int]).is_none());
                return None;
            },
        }
        i = i + 1;
    }
    assert(dicts_view(out@) =~= rows_data(rows@).map_values(|d: Seq<SqlDatum>| dict_of_row(d).unwrap()));
    Some(out)
}

fn failed<T>(message: String) -> (r: Result<ApiResponse<T>, String>)
    ensures
        is_failure(r, message@),
{
    Ok(ApiResponse::failure(message))
}

/// The reply to a listing of brands; every driver failure is a failed reply.
pub fn brands_reply(fetched: Result<Vec<Vec<SqlValue>>, ReadFailure>) -> (r: Result<ApiResponse<Vec<VehicleBrand>>, String>)
    ensures
        match fetched {
            Err(f) => is_failure(r, f.message@),
            Ok(rows) => if brands_readable(rows_data(rows@)) {
                is_success(r) && brands_view(r->Ok_0.data.unwrap()@)
                    == rows_data(rows@).map_values(|d: Seq<SqlDatum>| brand_of_row(d).unwrap())
            } else {
                is_failure(r, ROW_UNREADABLE@)
            },
        },
{
    match fetched {
        Err(f) => failed(f.message),
        Ok(rows) => match decode_brands(&rows) {
            Some(list) => Ok(ApiResponse::ok(Some(list))),
            None => failed(String::from_str(ROW_UNREADABLE)),
        },
    }
}

/// The reply to a listing of garages (in the order the query returns them).
pub fn garages_reply(fetched: Result<Vec<Vec<SqlValue>>, ReadFailure>) -> (r: Result<ApiResponse<Vec<GarageOverview>>, String>)
    ensures
        match fetched {
            Err(f) => is_failure(r, f.message@),
            Ok(rows) => if garages_readable(rows_data(rows@)) {
                is_success(r) && garages_view(r->Ok_0.data.unwrap()@)
                    == rows_data(rows@).map_values(|d: Seq<SqlDatum>| garage_of_row(d).unwrap())
            } else {
                is_failure(r, ROW_UNREADABLE@)
            },
        },
{
    match fetched {
        Err(f) => failed(f.message),
        Ok(rows) => match decode_garages(&rows) {
            Some(list) => Ok(ApiResponse::ok(Some(list))),
            None => failed(String::from_str(ROW_UNREADABLE)),
        },
    }
}

/// The reply to a listing of vehicles, all of them or those of one brand.
pub fn vehicles_reply(fetched: Result<Vec<Vec<SqlValue>>, ReadFailure>) -> (r: Result<ApiResponse<Vec<VehicleOverview>>, String>)
    ensures
        match fetched {
            Err(f) => is_failure(r, f.message@),
            Ok(rows) => if vehicles_readable(rows_data(rows@)) {
                is_success(r) && vehicles_view(r->Ok_0.data.unwrap()@)
                    == rows_data(rows@).map_values(|d: Seq<SqlDatum>| vehicle_of_row(d).unwrap())
            } else {
                is_failure(r, ROW_UNREADABLE@)
            },
        },
{
    match fetched {
        Err(f) => failed(f.message),
        Ok(rows) => match decode_vehicles(&rows) {
            Some(list) => Ok(ApiResponse::ok(Some(list))),
            None => failed(String::from_str(ROW_UNREADABLE)),
        },
    }
}

/// The reply to a listing of a lookup dictionary.
pub fn dicts_reply(fetched: Result<Vec<Vec<SqlValue>>, ReadFailure>) -> (r: Result<ApiResponse<Vec<FeatureTypeDict>>, String>)
    ensures
        match fetched {
            Err(f) => is_failure(r, f.message@),
            Ok(rows) => if dicts_readable(rows_data(rows@)) {
                is_success(r) && dicts_view(r->Ok_0.data.unwrap()@)
                    == rows_data(rows@).map_values(|d: Seq<SqlDatum>| dict_of_row(d).unwrap())
            } else {
                is_failure(r, ROW_UNREADABLE@)
            },
        },
{
    match fetched {
        Err(f) => failed(f.message),
        Ok(rows) => match decode_dicts(&rows) {
            Some(list) => Ok(ApiResponse::ok(Some(list))),
            None => failed(String::from_str(ROW_UNREADABLE)),
        },
    }
}

/// The reply to a lookup of one vehicle by id: the first row returned.
pub fn vehicle_reply(fetched: Result<Vec<Vec<SqlValue>>, ReadFailure>) -> (r: Result<ApiResponse<VehicleOverview>, String>)
    ensures
        match fetched {
            Err(f) => is_failure(r, f.message@),
            Ok(rows) => if rows.len() == 0 {
                is_failure(r, NO_ROWS@)
            } else if vehicle_of_row(row_data(rows[0]@)).is_some() {
                is_success(r) && vehicle_of_row(row_data(rows[0]@)) == Some(r->Ok_0.data.unwrap()@)
            } else {
                is_failure(r, ROW_UNREADABLE@)
            },
        },
{
    match fetched {
        Err(f) => failed(f.message),
        Ok(rows) => if rows.len() == 0 {
            failed(String::from_str(NO_ROWS))
        } else {
            match vehicle_from_row(&rows[0]) {
                Some(v) => Ok(ApiResponse::ok(Some(v))),
                None => failed(String::from_str(ROW_UNREADABLE)),
            }
        },
    }
}

/// The reply to a lookup of one dictionary entry by key: the first row returned.
pub fn dict_reply(fetched: Result<Vec<Vec<SqlValue>>, ReadFailure>) -> (r: Result<ApiResponse<FeatureTypeDict>, String>)
    ensures
        match fetched {
            Err(f) => is_failure(r, f.message@),
            Ok(rows) => if rows.len() == 0 {
                is_failure(r, NO_ROWS@)
            } else if dict_of_row(row_data(rows[0]@)).is_some() {
                is_success(r) && dict_of_row(row_data(rows[0]@)) == Some(r->Ok_0.data.unwrap()@)
            } else {
                is_failure(r, ROW_UNREADABLE@)
            },
        },
{
    match fetched {
        Err(f) => failed(f.message),
        Ok(rows) => if rows.len() == 0 {
            failed(String::from_str(NO_ROWS))
        } else {
            match dict_from_row(&rows[0]) {
                Some(d) => Ok(ApiResponse::ok(Some(d))),
                None => failed(String::from_str(ROW_UNREADABLE)),
            }
        },
    }
}

/// The reply to the data set record query: every row must read, and the
/// last one is handed back.
pub fn data_info_reply(fetched: Result<Vec<Vec<SqlValue>>, ReadFailure>) -> (r: Result<ApiResponse<DataInfo>, String>)
    ensures
        match fetched {
            Err(f) => is_failure(r, f.message@),
            Ok(rows) => if !data_infos_readable(rows_data(rows@)) {
                is_failure(r, ROW_UNREADABLE@)
            } else if rows.len() == 0 {
                is_failure(r, NO_DATA@)
            } else {
                is_success(r) && data_info_of_row(row_data(rows@.last()@)) == Some(r->Ok_0.data.unwrap()@)
            },
        },
{
    match fetched {
        Err(f) => failed(f.message),
        Ok(rows) => {
            let mut last: Option<DataInfo> = None;
            let mut i: usize = 0;
            while i < rows.len()
                invariant
                    fetched is Ok && fetched->Ok_0 == rows,
                    i <= rows.len(),
                    forall|j: int| 0 <= j < i ==> (#[trigger] data_info_of_row(rows_data(rows@)[j])).is_some(),
                    i == 0 <==> last.is_none(),
                    i > 0 ==> data_info_of_row(row_data(rows@[i - 1]@)) == Some(last.unwrap()@),
                decreases rows.len() - i,
            {
                match data_info_from_row(&rows[i]) {
                    Some(d) => last = Some(d),
                    None => {
                        assert(rows_data(rows@)[i as int] == row_data(rows@[i as int]@));
                        assert(rows_data(rows@).len() == rows@.len());
                        assert(!data_infos_readable(rows_data(rows@)));
                        return failed(String::from_str(ROW_UNREADABLE));
                    },
                }
                assert(rows_data(rows@)[i as int] == row_data(rows@[i as int]@));
                i = i + 1;
            }
            match last {
                Some(d) => Ok(ApiResponse::ok(Some(d))),
                None => failed(String::from_str(NO_DATA)),
            }
        },
    }
}

} // verus!
