use vstd::prelude::*;
use crate::column::SqlDatum;
use crate::text::{text_contains, contains_text};

verus! {

/// The two database files of the catalog.
#[derive(PartialEq, Eq, Structural, Clone, Copy, Debug)]
pub enum DbFile {
    /// Brands, vehicles and the lookup dictionaries.
    Common,
    /// The user's garages.
    User,
}

impl DbFile {
    /// The file name, inside the application data directory.
    pub fn file_name(&self) -> (r: &'static str)
        ensures
            *self == DbFile::Common ==> r@ == COMMON_DB_FILE@,
            *self == DbFile::User ==> r@ == USER_DB_FILE@,
    {
        match self {
            DbFile::Common => COMMON_DB_FILE,
            DbFile::User => USER_DB_FILE,
        }
    }
}

pub const COMMON_DB_FILE: &'static str = "gtavm_common.db";

pub const USER_DB_FILE: &'static str = "gtavm_user.db";

/// The start of SQLite's error text for a column that a table already has.
pub const DUPLICATE_COLUMN: &'static str = "duplicate column name";

/// A place where a seed script for the common database may lie, in the
/// order in which they are tried.
#[derive(PartialEq, Eq, Structural, Clone, Copy, Debug)]
pub enum SeedLocation {
    /// The working directory (development).
    WorkingDir,
    /// The directory of the executable (installed program).
    ExecutableDir,
    /// The application data directory.
    AppDataDir,
}

/// The file name of a seed script.
pub const SEED_FILE: &'static str = "init.sql";

/// A schema statement of the bootstrap.
#[derive(PartialEq, Eq, Structural, Clone, Copy, Debug)]
pub enum Ddl {
    CreateBrandTable,
    CreateVehicleTable,
    AddGarageRemarks,
    CreateGarageTable,
}

pub const CREATE_BRAND_TABLE_SQL: &'static str =
    "CREATE TABLE IF NOT EXISTS vehicle_brand (id INTEGER NOT NULL PRIMARY KEY AUTOINCREMENT, brand_name VARCHAR(255), brand_name_en VARCHAR(255), remarks VARCHAR(255))";

pub const CREATE_VEHICLE_TABLE_SQL: &'static str =
    "CREATE TABLE IF NOT EXISTS vehicle_overview (id VARCHAR(255) NOT NULL PRIMARY KEY, brand_id INTEGER, vehicle_name VARCHAR(255), vehicle_name_en VARCHAR(255), vehicle_type VARCHAR(255), feature VARCHAR(255), price INTEGER, remarks VARCHAR(255), FOREIGN KEY (brand_id) REFERENCES vehicle_brand (id))";

pub const ADD_GARAGE_REMARKS_SQL: &'static str =
    "ALTER TABLE garage_overview ADD COLUMN remarks TEXT";

pub const CREATE_GARAGE_TABLE_SQL: &'static str =
    "CREATE TABLE IF NOT EXISTS garage_overview (id INTEGER NOT NULL PRIMARY KEY AUTOINCREMENT, garage_name VARCHAR(255), garage_name_en VARCHAR(255), num INTEGER, vehicle_list TEXT, remarks TEXT, garage_order INTEGER, garage_type VARCHAR(255))";

/// The SQL text of a schema statement.
pub open spec fn ddl_sql(q: Ddl) -> Seq<char> {
    match q {
        Ddl::CreateBrandTable => CREATE_BRAND_TABLE_SQL@,
        Ddl::CreateVehicleTable => CREATE_VEHICLE_TABLE_SQL@,
        Ddl::AddGarageRemarks => ADD_GARAGE_REMARKS_SQL@,
        Ddl::CreateGarageTable => CREATE_GARAGE_TABLE_SQL@,
    }
}

impl Ddl {
    /// The database that the statement applies to.
    pub fn db_file(&self) -> (r: DbFile)
        ensures
            r == ddl_db(*self),
    {
        match self {
            Ddl::CreateBrandTable => DbFile::Common,
            Ddl::CreateVehicleTable => DbFile::Common,
            _ => DbFile::User,
        }
    }

    /// The SQL text.
    pub fn sql(&self) -> (r: &'static str)
        ensures
            r@ == ddl_sql(*self),
    {
        match self {
            Ddl::CreateBrandTable => CREATE_BRAND_TABLE_SQL,
            Ddl::CreateVehicleTable => CREATE_VEHICLE_TABLE_SQL,
            Ddl::AddGarageRemarks => ADD_GARAGE_REMARKS_SQL,
            Ddl::CreateGarageTable => CREATE_GARAGE_TABLE_SQL,
        }
    }
}

pub open spec fn ddl_db(d: Ddl) -> DbFile {
    match d {
        Ddl::CreateBrandTable => DbFile::Common,
        Ddl::CreateVehicleTable => DbFile::Common,
        _ => DbFile::User,
    }
}

/// Where the bootstrap stands.
#[derive(PartialEq, Eq, Structural, Clone, Copy, Debug)]
pub enum BootPhase {
    /// Looking for a seed script at a location.
    Seed(SeedLocation),
    OpenCommon,
    OpenUser,
    Run(Ddl),
    Done,
    Failed,
}

/// What the bootstrap asks for next.
#[derive(PartialEq, Eq, Structural, Clone, Copy, Debug)]
pub enum BootAction {
    /// Look for the seed script at a location; if it is there, open the
    /// common database, read the script and execute it.
    TrySeed(SeedLocation),
    Open(DbFile),
    Execute(Ddl),
    Finish,
}

/// What the program reports back for a bootstrap action.
#[derive(Clone, Debug, PartialEq, Eq)]
pub enum BootEvent {
    Done,
    Failed(String),
    /// No seed script lies at the location.
    SeedAbsent,
    /// The seed script could not be read, or its execution failed.
    SeedUnusable,
    /// The seed script was executed.
    SeedApplied,
}

/// A bootstrap event as a mathematical value.
pub enum BootEventModel {
    Done,
    Failed(Seq<char>),
    SeedAbsent,
    SeedUnusable,
    SeedApplied,
}

impl View for BootEvent {
    type V = BootEventModel;

    open spec fn view(&self) -> BootEventModel {
        match self {
            BootEvent::Done => BootEventModel::Done,
            BootEvent::Failed(m) => BootEventModel::Failed(m@),
            BootEvent::SeedAbsent => BootEventModel::SeedAbsent,
            BootEvent::SeedUnusable => BootEventModel::SeedUnusable,
            BootEvent::SeedApplied => BootEventModel::SeedApplied,
        }
    }
}

/// The bootstrap as a mathematical value: where it stands and the text of its failure, if any.
pub struct BootModel {
    pub phase: BootPhase,
    pub message: Seq<char>,
}

pub open spec fn next_seed(l: SeedLocation) -> BootPhase {
    match l {
        SeedLocation::WorkingDir => BootPhase::Seed(SeedLocation::ExecutableDir),
        SeedLocation::ExecutableDir => BootPhase::Seed(SeedLocation::AppDataDir),
        SeedLocation::AppDataDir => BootPhase::OpenCommon,
    }
}

pub open spec fn boot_pending(p: BootPhase) -> BootAction {
    match p {
        BootPhase::Seed(l) => BootAction::TrySeed(l),
        BootPhase::OpenCommon => BootAction::Open(DbFile::Common),
        BootPhase::OpenUser => BootAction::Open(DbFile::User),
        BootPhase::Run(d) => BootAction::Execute(d),
        _ => BootAction::Finish,
    }
}

pub open spec fn boot_answers(p: BootPhase, e: BootEventModel) -> bool {
    match p {
        BootPhase::Seed(_) => !(e is Done),
        BootPhase::Done => false,
        BootPhase::Failed => false,
        _ => e is Done || e is Failed,
    }
}

/// The bootstrap after event `e`; an event that does not answer the pending
/// action leaves it as it is.
pub open spec fn boot_next(s: BootModel, e: BootEventModel) -> BootModel {
    if !boot_answers(s.phase, e) {
        s
    } else {
        match e {
            BootEventModel::Failed(m) => match s.phase {
                BootPhase::Run(Ddl::AddGarageRemarks) => if text_contains(m, DUPLICATE_COLUMN@) {
                    BootModel { phase: BootPhase::Done, message: s.message }
                } else {
                    BootModel { phase: BootPhase::Run(Ddl::CreateGarageTable), message: s.message }
                },
                _ => BootModel { phase: BootPhase::Failed, message: m },
            },
            _ => BootModel {
                phase: match s.phase {
                    BootPhase::Seed(l) => if e is SeedApplied { BootPhase::OpenUser } else { next_seed(l) },
                    BootPhase::OpenCommon => BootPhase::Run(Ddl::CreateBrandTable),
                    BootPhase::Run(Ddl::CreateBrandTable) => BootPhase::Run(Ddl::CreateVehicleTable),
                    BootPhase::Run(Ddl::CreateVehicleTable) => BootPhase::OpenUser,
                    BootPhase::OpenUser => BootPhase::Run(Ddl::AddGarageRemarks),
                    _ => BootPhase::Done,
                },
                message: s.message,
            },
        }
    }
}

/// The start-up of the catalog: both databases and their tables made ready.
pub struct Bootstrap {
    phase: BootPhase,
    message: String,
}

impl View for Bootstrap {
    type V = BootModel;

    closed spec fn view(&self) -> BootModel {
        BootModel { phase: self.phase, message: self.message@ }
    }
}

impl Bootstrap {
    pub fn new() -> (r: Self)
        ensures
            r@.phase == BootPhase::Seed(SeedLocation::WorkingDir),
    {
        Bootstrap { phase: BootPhase::Seed(SeedLocation::WorkingDir), message: String::new() }
    }

    /// The action that the bootstrap asks for.
    pub fn action(&self) -> (r: BootAction)
        ensures
            r == boot_pending(self@.phase),
    {
        match self.phase {
            BootPhase::Seed(l) => BootAction::TrySeed(l),
            BootPhase::OpenCommon => BootAction::Open(DbFile::Common),
            BootPhase::OpenUser => BootAction::Open(DbFile::User),
            BootPhase::Run(d) => BootAction::Execute(d),
            _ => BootAction::Finish,
        }
    }

    /// Whether `event` answers the pending action.
    pub fn accepts(&self, event: &BootEvent) -> (r: bool)
        ensures
            r == boot_answers(self@.phase, event@),
    {
        match self.phase {
            BootPhase::Seed(_) => !matches!(event, BootEvent::Done),
            BootPhase::Done => false,
            BootPhase::Failed => false,
            _ => match event {
                BootEvent::Done => true,
                BootEvent::Failed(_) => true,
                _ => false,
            },
        }
    }

    /// Feeds the program's answer to the pending action into the bootstrap.
    pub fn resume(&mut self, event: BootEvent)
        requires
            boot_answers(old(self)@.phase, event@),
        ensures
            final(self)@ == boot_next(old(self)@, event@),
    {
        match event {
            BootEvent::Failed(m) => match self.phase {
                BootPhase::Run(Ddl::AddGarageRemarks) => if contains_text(m.as_str(), DUPLICATE_COLUMN) {
                    self.phase = BootPhase::Done;
                } else {
                    self.phase = BootPhase::Run(Ddl::CreateGarageTable);
                },
                _ => {
                    self.phase = BootPhase::Failed;
                    self.message = m;
                },
            },
            other => {
                let applied = matches!(other, BootEvent::SeedApplied);
                self.phase = match self.phase {
                    BootPhase::Seed(l) => if applied {
                        BootPhase::OpenUser
                    } else {
                        match l {
                            SeedLocation::WorkingDir => BootPhase::Seed(SeedLocation::ExecutableDir),
                            SeedLocation::ExecutableDir => BootPhase::Seed(SeedLocation::AppDataDir),
                            SeedLocation::AppDataDir => BootPhase::OpenCommon,
                        }
                    },
                    BootPhase::OpenCommon => BootPhase::Run(Ddl::CreateBrandTable),
                    BootPhase::Run(Ddl::CreateBrandTable) => BootPhase::Run(Ddl::CreateVehicleTable),
                    BootPhase::Run(Ddl::CreateVehicleTable) => BootPhase::OpenUser,
                    BootPhase::OpenUser => BootPhase::Run(Ddl::AddGarageRemarks),
                    _ => BootPhase::Done,
                };
            },
        }
    }

    /// The outcome of a finished bootstrap: the error text of the step that
    /// failed, if one did.
    pub fn into_result(self) -> (r: Result<(), String>)
        requires
            self@.phase == BootPhase::Done || self@.phase == BootPhase::Failed,
        ensures
            self@.phase == BootPhase::Done ==> r is Ok,
            self@.phase == BootPhase::Failed ==> r is Err && r->Err_0@ == self@.message,
    {
        match self.phase {
            BootPhase::Done => Ok(()),
            _ => Err(self.message),
        }
    }
}

/// A table of a database: its column names and its rows.
pub struct TableModel {
    pub columns: Seq<Seq<char>>,
    pub rows: Seq<Seq<SqlDatum>>,
}

/// The contents of both databases, by table name.
pub struct StoreModel {
    pub common: Map<Seq<char>, TableModel>,
    pub user: Map<Seq<char>, TableModel>,
}

pub open spec fn ddl_table(d: Ddl) -> Seq<char> {
    match d {
        Ddl::CreateBrandTable => "vehicle_brand"@,
        Ddl::CreateVehicleTable => "vehicle_overview"@,
        _ => "garage_overview"@,
    }
}

pub open spec fn remarks_column() -> Seq<char> {
    "remarks"@
}

pub open spec fn ddl_columns(d: Ddl) -> Seq<Seq<char>> {
    match d {
        Ddl::CreateBrandTable => seq!["id"@, "brand_name"@, "brand_name_en"@, "remarks"@],
        Ddl::CreateVehicleTable => seq![
            "id"@, "brand_id"@, "vehicle_name"@, "vehicle_name_en"@, "vehicle_type"@, "feature"@,
            "price"@, "remarks"@,
        ],
        _ => seq![
            "id"@, "garage_name"@, "garage_name_en"@, "num"@, "vehicle_list"@, "remarks"@,
            "garage_order"@, "garage_type"@,
        ],
    }
}

/// What a schema statement does to a database, and what SQLite reports: a
/// `CREATE TABLE IF NOT EXISTS` leaves an existing table alone, an
/// `ALTER TABLE ... ADD COLUMN` fails on a missing table and on a column
/// that the table already has, and otherwise gives each row a null in the
/// new column.
pub open spec fn apply_ddl(d: Ddl, db: Map<Seq<char>, TableModel>) -> (BootEventModel, Map<Seq<char>, TableModel>) {
    let t = ddl_table(d);
    if d == Ddl::AddGarageRemarks {
        if !db.contains_key(t) {
            (BootEventModel::Failed("no such table: "@ + t), db)
        } else if db[t].columns.contains(remarks_column()) {
            (BootEventModel::Failed(DUPLICATE_COLUMN@ + ": "@ + remarks_column()), db)
        } else {
            (
                BootEventModel::Done,
                db.insert(t, TableModel {
                    columns: db[t].columns.push(remarks_column()),
                    rows: db[t].rows.map_values(|r: Seq<SqlDatum>| r.push(SqlDatum::Null)),
                }),
            )
        }
    } else if db.contains_key(t) {
        (BootEventModel::Done, db)
    } else {
        (BootEventModel::Done, db.insert(t, TableModel { columns: ddl_columns(d), rows: Seq::empty() }))
    }
}

/// Carrying out a bootstrap action on the store, where no seed script lies
/// at any location.
pub open spec fn perform_unseeded(p: BootPhase, st: StoreModel) -> (BootEventModel, StoreModel) {
    match p {
        BootPhase::Seed(_) => (BootEventModel::SeedAbsent, st),
        BootPhase::Run(d) => if ddl_db(d) == DbFile::Common {
            let (e, db) = apply_ddl(d, st.common);
            (e, StoreModel { common: db, user: st.user })
        } else {
            let (e, db) = apply_ddl(d, st.user);
            (e, StoreModel { common: st.common, user: db })
        },
        _ => (BootEventModel::Done, st),
    }
}

/// The bootstrap driven against the store for at most `steps` actions.
pub open spec fn drive_unseeded(s: BootModel, st: StoreModel, steps: nat) -> (BootModel, StoreModel)
    decreases steps,
{
    if steps == 0 || s.phase == BootPhase::Done || s.phase == BootPhase::Failed {
        (s, st)
    } else {
        let (e, st2) = perform_unseeded(s.phase, st);
        drive_unseeded(boot_next(s, e), st2, (steps - 1) as nat)
    }
}

/// Every table that the bootstrap makes, with the column it adds.
pub open spec fn initialized(st: StoreModel) -> bool {
    &&& st.common.contains_key(ddl_table(Ddl::CreateBrandTable))
    &&& st.common.contains_key(ddl_table(Ddl::CreateVehicleTable))
    &&& st.user.contains_key(ddl_table(Ddl::CreateGarageTable))
    &&& st.user[ddl_table(Ddl::CreateGarageTable)].columns.contains(remarks_column())
}

/// Running the bootstrap again on databases that it already made ready,
/// with no seed script present, finishes successfully and changes nothing:
/// no table, column or row is lost or added.
pub proof fn lemma_bootstrap_rerun(st: StoreModel)
    requires
        initialized(st),
    ensures
        drive_unseeded(BootModel { phase: BootPhase::Seed(SeedLocation::WorkingDir), message: Seq::empty() }, st, 9)
            == (BootModel { phase: BootPhase::Done, message: Seq::<char>::empty() }, st),
{
    let dup = DUPLICATE_COLUMN@ + ": "@ + remarks_column();
    let n = DUPLICATE_COLUMN@.len() as int;
    assert(dup.subrange(0, 0 + n) =~= DUPLICATE_COLUMN@);
    assert(0 <= dup.len() - n);
    assert(text_contains(dup, DUPLICATE_COLUMN@));
    reveal_with_fuel(drive_unseeded, 10);
}

} // verus!
