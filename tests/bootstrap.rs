use garage_catalog::{BootAction, BootEvent, BootPhase, Bootstrap, DbFile, Ddl, SeedLocation};

fn run(events: Vec<BootEvent>) -> (Vec<BootAction>, Result<(), String>) {
    let mut boot = Bootstrap::new();
    let mut actions = Vec::new();
    for event in events {
        actions.push(boot.action());
        assert!(boot.accepts(&event), "event {:?} not accepted", event);
        boot.resume(event);
    }
    assert_eq!(boot.action(), BootAction::Finish);
    (actions, boot.into_result())
}

#[test]
fn fresh_start_creates_every_table() {
    let (actions, result) = run(vec![
        BootEvent::SeedAbsent,
        BootEvent::SeedAbsent,
        BootEvent::SeedAbsent,
        BootEvent::Done,
        BootEvent::Done,
        BootEvent::Done,
        BootEvent::Done,
        BootEvent::Failed("no such table: garage_overview".to_string()),
        BootEvent::Done,
    ]);
    assert_eq!(
        actions,
        vec![
            BootAction::TrySeed(SeedLocation::WorkingDir),
            BootAction::TrySeed(SeedLocation::ExecutableDir),
            BootAction::TrySeed(SeedLocation::AppDataDir),
            BootAction::Open(DbFile::Common),
            BootAction::Execute(Ddl::CreateBrandTable),
            BootAction::Execute(Ddl::CreateVehicleTable),
            BootAction::Open(DbFile::User),
            BootAction::Execute(Ddl::AddGarageRemarks),
            BootAction::Execute(Ddl::CreateGarageTable),
        ]
    );
    assert_eq!(result, Ok(()));
}

#[test]
fn rerun_skips_existing_column() {
    let (actions, result) = run(vec![
        BootEvent::SeedAbsent,
        BootEvent::SeedAbsent,
        BootEvent::SeedAbsent,
        BootEvent::Done,
        BootEvent::Done,
        BootEvent::Done,
        BootEvent::Done,
        BootEvent::Failed("duplicate column name: remarks".to_string()),
    ]);
    assert_eq!(actions.len(), 8);
    assert!(!actions.contains(&BootAction::Execute(Ddl::CreateGarageTable)));
    assert_eq!(result, Ok(()));
}

#[test]
fn seed_script_replaces_default_tables() {
    let (actions, result) = run(vec![
        BootEvent::SeedUnusable,
        BootEvent::SeedApplied,
        BootEvent::Done,
        BootEvent::Done,
    ]);
    assert_eq!(actions[1], BootAction::TrySeed(SeedLocation::ExecutableDir));
    assert_eq!(actions[2], BootAction::Open(DbFile::User));
    assert!(!actions.contains(&BootAction::Execute(Ddl::CreateBrandTable)));
    assert_eq!(result, Ok(()));
}

#[test]
fn seed_open_failure_aborts() {
    let (_, result) = run(vec![BootEvent::Failed("unable to open database file".to_string())]);
    assert_eq!(result, Err("unable to open database file".to_string()));
}

#[test]
fn table_creation_failure_aborts() {
    let (actions, result) = run(vec![
        BootEvent::SeedAbsent,
        BootEvent::SeedAbsent,
        BootEvent::SeedAbsent,
        BootEvent::Done,
        BootEvent::Failed("disk full".to_string()),
    ]);
    assert!(!actions.contains(&BootAction::Open(DbFile::User)));
    assert_eq!(result, Err("disk full".to_string()));
}

#[test]
fn garage_table_failure_aborts() {
    let (_, result) = run(vec![
        BootEvent::SeedApplied,
        BootEvent::Done,
        BootEvent::Failed("no such table: garage_overview".to_string()),
        BootEvent::Failed("disk full".to_string()),
    ]);
    assert_eq!(result, Err("disk full".to_string()));
}

#[test]
fn bootstrap_starts_at_working_dir() {
    let boot = Bootstrap::new();
    assert_eq!(boot.action(), BootAction::TrySeed(SeedLocation::WorkingDir));
    assert!(!boot.accepts(&BootEvent::Done));
    assert_eq!(DbFile::Common.file_name(), "gtavm_common.db");
    assert_eq!(DbFile::User.file_name(), "gtavm_user.db");
    let _ = BootPhase::Done;
}
