use garage_catalog::rules::{brand_deletable, brand_reference_valid, next_garage_order};
use garage_catalog::session::Record;
use garage_catalog::{
    Action, ApiResponse, DbFile, Event, GarageOverview, Phase, Probe, SqlValue, StatementKind,
    VehicleBrand, VehicleOverview, WriteCommand, WriteSession,
};

fn text(s: &str) -> Option<String> {
    Some(s.to_string())
}

fn brand() -> VehicleBrand {
    VehicleBrand { id: 7, brand_name: text("品牌"), brand_name_en: text("Brand"), remarks: None }
}

fn vehicle(brand_id: Option<i32>) -> VehicleOverview {
    VehicleOverview {
        id: "adder".to_string(),
        brand_id,
        vehicle_name: text("Adder"),
        vehicle_name_en: text("Adder"),
        vehicle_type: text("super"),
        feature: None,
        price: Some(1_000_000),
        remarks: None,
    }
}

fn garage(id: Option<i32>, order: Option<i32>) -> GarageOverview {
    GarageOverview {
        id,
        garage_name: text("车库"),
        garage_name_en: text("Garage"),
        num: Some(3),
        vehicle_list: text("[\"adder\"]"),
        remarks: None,
        garage_order: order,
        garage_type: text("office"),
    }
}

/// Feeds the events in turn, collecting the actions asked for, and returns
/// the reply once the session is finished.
fn drive(
    command: WriteCommand,
    events: Vec<Event>,
) -> (Vec<Action>, Result<ApiResponse<Record>, String>) {
    let mut session = WriteSession::new(command);
    let mut actions = Vec::new();
    for event in events {
        actions.push(session.action());
        assert!(session.accepts(&event), "event {:?} not accepted", event);
        session.resume(event);
    }
    assert!(session.is_finished());
    assert_eq!(session.action(), Action::Finish);
    (actions, session.into_reply())
}

#[test]
fn delete_brand_with_vehicles_fails() {
    let (actions, reply) =
        drive(WriteCommand::DeleteBrand(7), vec![Event::Done, Event::Done, Event::Count(2), Event::Done]);
    assert_eq!(actions[0], Action::Open(DbFile::Common));
    assert_eq!(actions[2], Action::Probe(Probe::VehiclesOfBrand(7)));
    assert_eq!(actions[3], Action::Rollback);
    assert!(!actions.iter().any(|a| matches!(a, Action::Execute(_))));
    assert_eq!(reply, Err("该品牌下存在载具，无法删除".to_string()));
}

#[test]
fn delete_brand_with_one_vehicle_fails() {
    let (_, reply) =
        drive(WriteCommand::DeleteBrand(7), vec![Event::Done, Event::Done, Event::Count(1), Event::Done]);
    assert!(reply.is_err());
}

#[test]
fn delete_unreferenced_brand_succeeds() {
    let (actions, reply) = drive(
        WriteCommand::DeleteBrand(7),
        vec![Event::Done, Event::Done, Event::Count(0), Event::Done, Event::Done],
    );
    match &actions[3] {
        Action::Execute(s) => {
            assert_eq!(s.kind, StatementKind::DeleteBrand);
            assert_eq!(s.params, vec![SqlValue::Integer(7)]);
        }
        other => panic!("unexpected action {:?}", other),
    }
    assert_eq!(actions[4], Action::Commit);
    assert_eq!(reply, Ok(ApiResponse { success: true, data: None, error: None }));
}

#[test]
fn delete_brand_count_failure_is_a_failed_reply() {
    let (actions, reply) = drive(
        WriteCommand::DeleteBrand(7),
        vec![Event::Done, Event::Done, Event::Failed("disk I/O error".to_string()), Event::Done],
    );
    assert_eq!(actions[3], Action::Rollback);
    assert_eq!(
        reply,
        Ok(ApiResponse { success: false, data: None, error: text("disk I/O error") })
    );
}

#[test]
fn add_vehicle_with_missing_brand_fails() {
    let (actions, reply) = drive(
        WriteCommand::AddVehicle(vehicle(Some(99))),
        vec![Event::Done, Event::Done, Event::Count(0), Event::Done],
    );
    assert_eq!(actions[2], Action::Probe(Probe::BrandsWithId(Some(99))));
    assert!(!actions.iter().any(|a| matches!(a, Action::Execute(_))));
    assert_eq!(reply, Err("指定的品牌不存在".to_string()));
}

#[test]
fn add_vehicle_without_brand_id_fails() {
    let (actions, reply) = drive(
        WriteCommand::AddVehicle(vehicle(None)),
        vec![Event::Done, Event::Done, Event::Count(0), Event::Done],
    );
    assert_eq!(actions[2], Action::Probe(Probe::BrandsWithId(None)));
    assert_eq!(Probe::BrandsWithId(None).params(), vec![SqlValue::Null]);
    assert!(reply.is_err());
}

#[test]
fn update_vehicle_with_missing_brand_fails() {
    let (actions, reply) = drive(
        WriteCommand::UpdateVehicle(vehicle(Some(99))),
        vec![Event::Done, Event::Done, Event::Count(0), Event::Done],
    );
    assert!(!actions.iter().any(|a| matches!(a, Action::Execute(_))));
    assert_eq!(reply, Err("指定的品牌不存在".to_string()));
}

#[test]
fn add_vehicle_with_brand_inserts_its_row() {
    let v = vehicle(Some(7));
    let (actions, reply) = drive(
        WriteCommand::AddVehicle(v.clone()),
        vec![Event::Done, Event::Done, Event::Count(1), Event::Done, Event::Done],
    );
    match &actions[3] {
        Action::Execute(s) => {
            assert_eq!(s.kind, StatementKind::InsertVehicle);
            assert_eq!(
                s.params,
                vec![
                    SqlValue::Text("adder".to_string()),
                    SqlValue::Integer(7),
                    SqlValue::Text("Adder".to_string()),
                    SqlValue::Text("Adder".to_string()),
                    SqlValue::Text("super".to_string()),
                    SqlValue::Null,
                    SqlValue::Integer(1_000_000),
                    SqlValue::Null,
                ]
            );
        }
        other => panic!("unexpected action {:?}", other),
    }
    assert_eq!(reply, Ok(ApiResponse { success: true, data: Some(Record::Vehicle(v)), error: None }));
}

#[test]
fn update_vehicle_puts_id_last() {
    let v = vehicle(Some(7));
    let (actions, _) = drive(
        WriteCommand::UpdateVehicle(v),
        vec![Event::Done, Event::Done, Event::Count(1), Event::Done, Event::Done],
    );
    match &actions[3] {
        Action::Execute(s) => {
            assert_eq!(s.kind, StatementKind::UpdateVehicle);
            assert_eq!(s.params.len(), 8);
            assert_eq!(s.params[0], SqlValue::Integer(7));
            assert_eq!(s.params[7], SqlValue::Text("adder".to_string()));
        }
        other => panic!("unexpected action {:?}", other),
    }
}

#[test]
fn add_brand_round_trip_reply() {
    let b = brand();
    let (actions, reply) =
        drive(WriteCommand::AddBrand(b.clone()), vec![Event::Done, Event::Done, Event::Done, Event::Done]);
    match &actions[2] {
        Action::Execute(s) => {
            assert_eq!(s.kind, StatementKind::InsertBrand);
            assert_eq!(
                s.params,
                vec![
                    SqlValue::Integer(7),
                    SqlValue::Text("品牌".to_string()),
                    SqlValue::Text("Brand".to_string()),
                    SqlValue::Null,
                ]
            );
        }
        other => panic!("unexpected action {:?}", other),
    }
    assert_eq!(reply, Ok(ApiResponse { success: true, data: Some(Record::Brand(b)), error: None }));
}

#[test]
fn add_brand_insert_failure_rolls_back() {
    let (actions, reply) = drive(
        WriteCommand::AddBrand(brand()),
        vec![Event::Done, Event::Done, Event::Failed("UNIQUE constraint failed".to_string()), Event::Done],
    );
    assert_eq!(actions[3], Action::Rollback);
    assert_eq!(
        reply,
        Ok(ApiResponse { success: false, data: None, error: text("UNIQUE constraint failed") })
    );
}

#[test]
fn update_brand_commit_failure_is_a_failed_reply() {
    let (_, reply) = drive(
        WriteCommand::UpdateBrand(brand()),
        vec![Event::Done, Event::Done, Event::Done, Event::Failed("database is locked".to_string())],
    );
    assert_eq!(
        reply,
        Ok(ApiResponse { success: false, data: None, error: text("database is locked") })
    );
}

#[test]
fn open_failure_is_a_failed_reply() {
    let (_, reply) =
        drive(WriteCommand::DeleteVehicle("adder".to_string()), vec![Event::Failed("unable to open".to_string())]);
    assert_eq!(reply, Ok(ApiResponse { success: false, data: None, error: text("unable to open") }));
}

#[test]
fn add_garage_takes_next_order() {
    let (actions, reply) = drive(
        WriteCommand::AddGarage(garage(None, None)),
        vec![
            Event::Done,
            Event::Done,
            Event::MaxOrder(Some(4)),
            Event::Done,
            Event::RowId(12),
            Event::Done,
        ],
    );
    assert_eq!(actions[0], Action::Open(DbFile::User));
    assert_eq!(actions[2], Action::Probe(Probe::MaxGarageOrder));
    match &actions[3] {
        Action::Execute(s) => {
            assert_eq!(s.kind, StatementKind::InsertGarage);
            assert_eq!(s.params[5], SqlValue::Integer(5));
        }
        other => panic!("unexpected action {:?}", other),
    }
    assert_eq!(actions[4], Action::ReadRowId);
    let expected = GarageOverview { id: Some(12), garage_order: Some(5), ..garage(None, None) };
    assert_eq!(reply, Ok(ApiResponse { success: true, data: Some(Record::Garage(expected)), error: None }));
}

#[test]
fn first_garage_takes_order_one() {
    let (_, reply) = drive(
        WriteCommand::AddGarage(garage(None, None)),
        vec![Event::Done, Event::Done, Event::MaxOrder(None), Event::Done, Event::RowId(1), Event::Done],
    );
    match reply {
        Ok(ApiResponse { data: Some(Record::Garage(g)), .. }) => {
            assert_eq!(g.garage_order, Some(1));
            assert_eq!(g.id, Some(1));
        }
        other => panic!("unexpected reply {:?}", other),
    }
}

#[test]
fn failed_order_probe_counts_as_empty() {
    let (actions, _) = drive(
        WriteCommand::AddGarage(garage(None, None)),
        vec![
            Event::Done,
            Event::Done,
            Event::Failed("no such column".to_string()),
            Event::Done,
            Event::RowId(1),
            Event::Done,
        ],
    );
    match &actions[3] {
        Action::Execute(s) => assert_eq!(s.params[5], SqlValue::Integer(1)),
        other => panic!("unexpected action {:?}", other),
    }
}

#[test]
fn explicit_garage_order_is_kept() {
    let (_, reply) = drive(
        WriteCommand::AddGarage(garage(None, Some(2))),
        vec![Event::Done, Event::Done, Event::MaxOrder(Some(9)), Event::Done, Event::RowId(3), Event::Done],
    );
    match reply {
        Ok(ApiResponse { data: Some(Record::Garage(g)), .. }) => assert_eq!(g.garage_order, Some(2)),
        other => panic!("unexpected reply {:?}", other),
    }
}

#[test]
fn garage_order_overflow_fails() {
    let (_, reply) = drive(
        WriteCommand::AddGarage(garage(None, None)),
        vec![Event::Done, Event::Done, Event::MaxOrder(Some(i32::MAX)), Event::Done],
    );
    assert_eq!(
        reply,
        Ok(ApiResponse { success: false, data: None, error: text("Garage order is out of range") })
    );
}

#[test]
fn add_garage_failures_are_failed_replies() {
    let (_, reply) =
        drive(WriteCommand::AddGarage(garage(None, None)), vec![Event::Failed("unable to open".to_string())]);
    assert_eq!(reply, Ok(ApiResponse { success: false, data: None, error: text("unable to open") }));
    let (actions, reply) = drive(
        WriteCommand::AddGarage(garage(None, None)),
        vec![
            Event::Done,
            Event::Done,
            Event::MaxOrder(Some(1)),
            Event::Failed("NOT NULL constraint failed".to_string()),
            Event::Done,
        ],
    );
    assert_eq!(actions[4], Action::Rollback);
    assert_eq!(reply, Ok(ApiResponse { success: false, data: None, error: text("NOT NULL constraint failed") }));
    let (_, reply) = drive(
        WriteCommand::AddGarage(garage(None, None)),
        vec![Event::Done, Event::Done, Event::MaxOrder(Some(1)), Event::Done, Event::RowId(2), Event::Failed("database is locked".to_string())],
    );
    assert_eq!(reply, Ok(ApiResponse { success: false, data: None, error: text("database is locked") }));
}

#[test]
fn update_garage_without_id_fails_at_once() {
    let session = WriteSession::new(WriteCommand::UpdateGarage(garage(None, Some(1))));
    assert!(session.is_finished());
    assert_eq!(session.into_reply(), Err("Garage ID is required for update".to_string()));
}

#[test]
fn update_garage_binds_id_last() {
    let g = garage(Some(4), Some(2));
    let (actions, reply) =
        drive(WriteCommand::UpdateGarage(g.clone()), vec![Event::Done, Event::Done, Event::Done, Event::Done]);
    match &actions[2] {
        Action::Execute(s) => {
            assert_eq!(s.kind, StatementKind::UpdateGarage);
            assert_eq!(s.params[5], SqlValue::Integer(2));
            assert_eq!(s.params[7], SqlValue::Integer(4));
        }
        other => panic!("unexpected action {:?}", other),
    }
    assert_eq!(reply, Ok(ApiResponse { success: true, data: Some(Record::Garage(g)), error: None }));
}

#[test]
fn delete_garage_uses_user_database() {
    let (actions, reply) =
        drive(WriteCommand::DeleteGarage(3), vec![Event::Done, Event::Done, Event::Done, Event::Done]);
    assert_eq!(actions[0], Action::Open(DbFile::User));
    assert_eq!(reply, Ok(ApiResponse { success: true, data: None, error: None }));
}

#[test]
fn session_rejects_unrelated_event() {
    let session = WriteSession::new(WriteCommand::DeleteBrand(1));
    assert_eq!(session.phase(), Phase::Open);
    assert!(!session.accepts(&Event::Count(3)));
    assert!(session.accepts(&Event::Done));
}

#[test]
fn garage_order_rule() {
    assert_eq!(next_garage_order(None), Some(1));
    assert_eq!(next_garage_order(Some(4)), Some(5));
    assert_eq!(next_garage_order(Some(-3)), Some(-2));
    assert_eq!(next_garage_order(Some(i32::MAX)), None);
    assert!(brand_deletable(0));
    assert!(!brand_deletable(1));
    assert!(brand_reference_valid(1));
    assert!(!brand_reference_valid(0));
}

#[test]
fn greeting_names_the_caller() {
    assert_eq!(
        garage_catalog::greet("Lester"),
        Ok("Hello, Lester! You've been greeted from Rust with SQLite!".to_string())
    );
}
