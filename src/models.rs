use vstd::prelude::*;

verus! {

/// The value of an optional text field, as a sequence of characters.
pub open spec fn text_view(t: Option<String>) -> Option<Seq<char>> {
    match t {
        Some(s) => Some(s@),
        None => None,
    }
}

/// A user-defined collection of vehicles.
#[derive(Clone, Debug, PartialEq, Eq)]
pub struct GarageOverview {
    pub id: Option<i32>,
    pub garage_name: Option<String>,
    pub garage_name_en: Option<String>,
    pub num: Option<i32>,
    pub vehicle_list: Option<String>,
    pub remarks: Option<String>,
    pub garage_order: Option<i32>,
    pub garage_type: Option<String>,
}

/// A garage as a mathematical value.
pub struct GarageModel {
    pub id: Option<i32>,
    pub garage_name: Option<Seq<char>>,
    pub garage_name_en: Option<Seq<char>>,
    pub num: Option<i32>,
    pub vehicle_list: Option<Seq<char>>,
    pub remarks: Option<Seq<char>>,
    pub garage_order: Option<i32>,
    pub garage_type: Option<Seq<char>>,
}

impl View for GarageOverview {
    type V = GarageModel;

    open spec fn view(&self) -> GarageModel {
        GarageModel {
            id: self.id,
            garage_name: text_view(self.garage_name),
            garage_name_en: text_view(self.garage_name_en),
            num: self.num,
            vehicle_list: text_view(self.vehicle_list),
            remarks: text_view(self.remarks),
            garage_order: self.garage_order,
            garage_type: text_view(self.garage_type),
        }
    }
}

/// A manufacturer that vehicles refer to.
#[derive(Clone, Debug, PartialEq, Eq)]
pub struct VehicleBrand {
    pub id: i32,
    pub brand_name: Option<String>,
    pub brand_name_en: Option<String>,
    pub remarks: Option<String>,
}

/// A brand as a mathematical value.
pub struct BrandModel {
    pub id: i32,
    pub brand_name: Option<Seq<char>>,
    pub brand_name_en: Option<Seq<char>>,
    pub remarks: Option<Seq<char>>,
}

impl View for VehicleBrand {
    type V = BrandModel;

    open spec fn view(&self) -> BrandModel {
        BrandModel {
            id: self.id,
            brand_name: text_view(self.brand_name),
            brand_name_en: text_view(self.brand_name_en),
            remarks: text_view(self.remarks),
        }
    }
}

/// One vehicle of the catalog.
#[derive(Clone, Debug, PartialEq, Eq)]
pub struct VehicleOverview {
    pub id: String,
    pub brand_id: Option<i32>,
    pub vehicle_name: Option<String>,
    pub vehicle_name_en: Option<String>,
    pub vehicle_type: Option<String>,
    pub feature: Option<String>,
    pub price: Option<i32>,
    pub remarks: Option<String>,
}

/// A vehicle as a mathematical value.
pub struct VehicleModel {
    pub id: Seq<char>,
    pub brand_id: Option<i32>,
    pub vehicle_name: Option<Seq<char>>,
    pub vehicle_name_en: Option<Seq<char>>,
    pub vehicle_type: Option<Seq<char>>,
    pub feature: Option<Seq<char>>,
    pub price: Option<i32>,
    pub remarks: Option<Seq<char>>,
}

impl View for VehicleOverview {
    type V = VehicleModel;

    open spec fn view(&self) -> VehicleModel {
        VehicleModel {
            id: self.id@,
            brand_id: self.brand_id,
            vehicle_name: text_view(self.vehicle_name),
            vehicle_name_en: text_view(self.vehicle_name_en),
            vehicle_type: text_view(self.vehicle_type),
            feature: text_view(self.feature),
            price: self.price,
            remarks: text_view(self.remarks),
        }
    }
}

/// One entry of a lookup dictionary (feature tags or vehicle types).
#[derive(Clone, Debug, PartialEq, Eq)]
pub struct FeatureTypeDict {
    pub id: i32,
    pub dict_key: Option<String>,
    pub dict_value: Option<String>,
}

/// A dictionary entry as a mathematical value.
pub struct DictModel {
    pub id: i32,
    pub dict_key: Option<Seq<char>>,
    pub dict_value: Option<Seq<char>>,
}

impl View for FeatureTypeDict {
    type V = DictModel;

    open spec fn view(&self) -> DictModel {
        DictModel {
            id: self.id,
            dict_key: text_view(self.dict_key),
            dict_value: text_view(self.dict_value),
        }
    }
}

/// The metadata record of the shipped data set.
#[derive(Clone, Debug, PartialEq, Eq)]
pub struct DataInfo {
    pub dlc_name: Option<String>,
    pub dlc_name_en: Option<String>,
    pub update_time: Option<String>,
}

/// The data set record as a mathematical value.
pub struct DataInfoModel {
    pub dlc_name: Option<Seq<char>>,
    pub dlc_name_en: Option<Seq<char>>,
    pub update_time: Option<Seq<char>>,
}

impl View for DataInfo {
    type V = DataInfoModel;

    open spec fn view(&self) -> DataInfoModel {
        DataInfoModel {
            dlc_name: text_view(self.dlc_name),
            dlc_name_en: text_view(self.dlc_name_en),
            update_time: text_view(self.update_time),
        }
    }
}

/// The reply envelope of every command.
#[derive(Clone, Debug, PartialEq, Eq)]
pub struct ApiResponse<T> {
    pub success: bool,
    pub data: Option<T>,
    pub error: Option<String>,
}

impl<T> ApiResponse<T> {
    /// A successful reply carrying `data`.
    pub fn ok(data: Option<T>) -> (r: Self)
        ensures
            r.success,
            r.data == data,
            r.error.is_none(),
    {
        ApiResponse { success: true, data, error: None }
    }

    /// A failed reply carrying the error text `message`.
    pub fn failure(message: String) -> (r: Self)
        ensures
            !r.success,
            r.data.is_none(),
            text_view(r.error) == Some(message@),
    {
        ApiResponse { success: false, data: None, error: Some(message) }
    }
}

} // verus!
