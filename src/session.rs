use vstd::prelude::*;
use crate::column::{SqlValue, SqlDatum, fits_i32, bind_opt_int, bind_text};
use crate::models::{
    ApiResponse, VehicleBrand, BrandModel, VehicleOverview, VehicleModel, GarageOverview,
    GarageModel, text_view,
};
use crate::rows::{
    row_data, brand_row, vehicle_row, garage_fields_row, brand_insert_params, brand_update_params,
    vehicle_insert_params, vehicle_update_params, garage_insert_params, garage_update_params,
    brand_of_row, vehicle_of_row, lemma_brand_round_trip, lemma_vehicle_round_trip,
};
use crate::rules::{
    BRAND_IN_USE, BRAND_MISSING, GARAGE_ID_REQUIRED, GARAGE_ORDER_OUT_OF_RANGE,
    default_garage_order, next_garage_order, brand_deletable, brand_reference_valid,
};
use crate::schema::DbFile;

verus! {

/// A command that changes the catalog.
#[derive(Clone, Debug, PartialEq, Eq)]
pub enum WriteCommand {
    AddBrand(VehicleBrand),
    UpdateBrand(VehicleBrand),
    DeleteBrand(i32),
    AddVehicle(VehicleOverview),
    UpdateVehicle(VehicleOverview),
    DeleteVehicle(String),
    AddGarage(GarageOverview),
    UpdateGarage(GarageOverview),
    DeleteGarage(i32),
}

/// A write command as a mathematical value.
pub enum CommandModel {
    AddBrand(BrandModel),
    UpdateBrand(BrandModel),
    DeleteBrand(i32),
    AddVehicle(VehicleModel),
    UpdateVehicle(VehicleModel),
    DeleteVehicle(Seq<char>),
    AddGarage(GarageModel),
    UpdateGarage(GarageModel),
    DeleteGarage(i32),
}

impl View for WriteCommand {
    type V = CommandModel;

    open spec fn view(&self) -> CommandModel {
        match self {
            WriteCommand::AddBrand(b) => CommandModel::AddBrand(b@),
            WriteCommand::UpdateBrand(b) => CommandModel::UpdateBrand(b@),
            WriteCommand::DeleteBrand(id) => CommandModel::DeleteBrand(*id),
            WriteCommand::AddVehicle(v) => CommandModel::AddVehicle(v@),
            WriteCommand::UpdateVehicle(v) => CommandModel::UpdateVehicle(v@),
            WriteCommand::DeleteVehicle(id) => CommandModel::DeleteVehicle(id@),
            WriteCommand::AddGarage(g) => CommandModel::AddGarage(g@),
            WriteCommand::UpdateGarage(g) => CommandModel::UpdateGarage(g@),
            WriteCommand::DeleteGarage(id) => CommandModel::DeleteGarage(*id),
        }
    }
}

/// The statement that carries out a command.
#[derive(PartialEq, Eq, Structural, Clone, Copy, Debug)]
pub enum StatementKind {
    InsertBrand,
    UpdateBrand,
    DeleteBrand,
    InsertVehicle,
    UpdateVehicle,
    DeleteVehicle,
    InsertGarage,
    UpdateGarage,
    DeleteGarage,
}

pub const INSERT_BRAND_SQL: &'static str =
    "INSERT INTO vehicle_brand (id, brand_name, brand_name_en, remarks) VALUES (?1, ?2, ?3, ?4)";

pub const UPDATE_BRAND_SQL: &'static str =
    "UPDATE vehicle_brand SET brand_name = ?1, brand_name_en = ?2, remarks = ?3 WHERE id = ?4";

pub const DELETE_BRAND_SQL: &'static str =
    "DELETE FROM vehicle_brand WHERE id = ?1";

pub const INSERT_VEHICLE_SQL: &'static str =
    "INSERT INTO vehicle_overview (id, brand_id, vehicle_name, vehicle_name_en, vehicle_type, feature, price, remarks) VALUES (?1, ?2, ?3, ?4, ?5, ?6, ?7, ?8)";

pub const UPDATE_VEHICLE_SQL: &'static str =
    "UPDATE vehicle_overview SET brand_id = ?1, vehicle_name = ?2, vehicle_name_en = ?3, vehicle_type = ?4, feature = ?5, price = ?6, remarks = ?7 WHERE id = ?8";

pub const DELETE_VEHICLE_SQL: &'static str =
    "DELETE FROM vehicle_overview WHERE id = ?1";

pub const INSERT_GARAGE_SQL: &'static str =
    "INSERT INTO garage_overview (garage_name, garage_name_en, num, vehicle_list, remarks, garage_order, garage_type) VALUES (?1, ?2, ?3, ?4, ?5, ?6, ?7)";

pub const UPDATE_GARAGE_SQL: &'static str =
    "UPDATE garage_overview SET garage_name = ?1, garage_name_en = ?2, num = ?3, vehicle_list = ?4, remarks = ?5, garage_order = ?6, garage_type = ?7 WHERE id = ?8";

pub const DELETE_GARAGE_SQL: &'static str =
    "DELETE FROM garage_overview WHERE id = ?1";

/// The SQL text of a statement.
pub open spec fn statement_sql(q: StatementKind) -> Seq<char> {
    match q {
        StatementKind::InsertBrand => INSERT_BRAND_SQL@,
        StatementKind::UpdateBrand => UPDATE_BRAND_SQL@,
        StatementKind::DeleteBrand => DELETE_BRAND_SQL@,
        StatementKind::InsertVehicle => INSERT_VEHICLE_SQL@,
        StatementKind::UpdateVehicle => UPDATE_VEHICLE_SQL@,
        StatementKind::DeleteVehicle => DELETE_VEHICLE_SQL@,
        StatementKind::InsertGarage => INSERT_GARAGE_SQL@,
        StatementKind::UpdateGarage => UPDATE_GARAGE_SQL@,
        StatementKind::DeleteGarage => DELETE_GARAGE_SQL@,
    }
}

impl StatementKind {
    /// The SQL text, with numbered parameters.
    pub fn sql(&self) -> (r: &'static str)
        ensures
            r@ == statement_sql(*self),
    {
        match self {
            StatementKind::InsertBrand => INSERT_BRAND_SQL,
            StatementKind::UpdateBrand => UPDATE_BRAND_SQL,
            StatementKind::DeleteBrand => DELETE_BRAND_SQL,
            StatementKind::InsertVehicle => INSERT_VEHICLE_SQL,
            StatementKind::UpdateVehicle => UPDATE_VEHICLE_SQL,
            StatementKind::DeleteVehicle => DELETE_VEHICLE_SQL,
            StatementKind::InsertGarage => INSERT_GARAGE_SQL,
            StatementKind::UpdateGarage => UPDATE_GARAGE_SQL,
            StatementKind::DeleteGarage => DELETE_GARAGE_SQL,
        }
    }
}

/// A statement with its parameters.
#[derive(Clone, Debug, PartialEq, Eq)]
pub struct Statement {
    pub kind: StatementKind,
    pub params: Vec<SqlValue>,
}

/// A query that a command asks before it writes.
#[derive(PartialEq, Eq, Structural, Clone, Copy, Debug)]
pub enum Probe {
    /// How many vehicles refer to a brand.
    VehiclesOfBrand(i32),
    /// How many brands carry an id (none match a missing id).
    BrandsWithId(Option<i32>),
    /// The largest display order of the stored garages.
    MaxGarageOrder,
}

pub const VEHICLES_OF_BRAND_SQL: &'static str =
    "SELECT COUNT(*) FROM vehicle_overview WHERE brand_id = ?1";

pub const BRANDS_WITH_ID_SQL: &'static str =
    "SELECT COUNT(*) FROM vehicle_brand WHERE id = ?1";

pub const MAX_GARAGE_ORDER_SQL: &'static str =
    "SELECT MAX(garage_order) FROM garage_overview";

/// The SQL text of a probe.
pub open spec fn probe_sql(q: Probe) -> Seq<char> {
    match q {
        Probe::VehiclesOfBrand(_) => VEHICLES_OF_BRAND_SQL@,
        Probe::BrandsWithId(_) => BRANDS_WITH_ID_SQL@,
        Probe::MaxGarageOrder => MAX_GARAGE_ORDER_SQL@,
    }
}

impl Probe {
    /// The SQL text, with numbered parameters.
    pub fn sql(&self) -> (r: &'static str)
        ensures
            r@ == probe_sql(*self),
    {
        match self {
            Probe::VehiclesOfBrand(_) => VEHICLES_OF_BRAND_SQL,
            Probe::BrandsWithId(_) => BRANDS_WITH_ID_SQL,
            Probe::MaxGarageOrder => MAX_GARAGE_ORDER_SQL,
        }
    }

    /// The parameters of the query.
    pub fn params(&self) -> (r: Vec<SqlValue>)
        ensures
            row_data(r@) == probe_params(*self),
    {
        let mut r: Vec<SqlValue> = Vec::new();
        match self {
            Probe::VehiclesOfBrand(id) => r.push(SqlValue::Integer(*id as i64)),
            Probe::BrandsWithId(id) => r.push(bind_opt_int(*id)),
            Probe::MaxGarageOrder => {},
        }
        assert(row_data(r@) =~= probe_params(*self));
        r
    }
}

pub open spec fn probe_params(p: Probe) -> Seq<SqlDatum> {
    match p {
        Probe::VehiclesOfBrand(id) => seq![SqlDatum::Integer(id as int)],
        Probe::BrandsWithId(id) => seq![crate::column::opt_int_datum(id)],
        Probe::MaxGarageOrder => seq![],
    }
}

/// What the session asks the database driver to do next.
#[derive(Clone, Debug, PartialEq, Eq)]
pub enum Action {
    Open(DbFile),
    Begin,
    Probe(Probe),
    Execute(Statement),
    /// Read the row id that the last insert assigned.
    ReadRowId,
    Commit,
    Rollback,
    /// The session is over: take its reply.
    Finish,
}

/// An action as a mathematical value: a statement is its kind and the data it binds.
pub enum ActionModel {
    Open(DbFile),
    Begin,
    Probe(Probe),
    Execute(StatementKind, Seq<SqlDatum>),
    ReadRowId,
    Commit,
    Rollback,
    Finish,
}

impl View for Action {
    type V = ActionModel;

    open spec fn view(&self) -> ActionModel {
        match self {
            Action::Open(f) => ActionModel::Open(*f),
            Action::Begin => ActionModel::Begin,
            Action::Probe(p) => ActionModel::Probe(*p),
            Action::Execute(s) => ActionModel::Execute(s.kind, row_data(s.params@)),
            Action::ReadRowId => ActionModel::ReadRowId,
            Action::Commit => ActionModel::Commit,
            Action::Rollback => ActionModel::Rollback,
            Action::Finish => ActionModel::Finish,
        }
    }
}

/// What the database driver reports back for an action.
#[derive(Clone, Debug, PartialEq, Eq)]
pub enum Event {
    /// The action succeeded.
    Done,
    /// A counting probe returned this count.
    Count(i64),
    /// The order probe returned this largest order (`None`: no garage).
    MaxOrder(Option<i32>),
    /// The row id of the last insert.
    RowId(i64),
    /// The action failed with this message.
    Failed(String),
}

/// An event as a mathematical value.
pub enum EventModel {
    Done,
    Count(i64),
    MaxOrder(Option<i32>),
    RowId(i64),
    Failed(Seq<char>),
}

impl View for Event {
    type V = EventModel;

    open spec fn view(&self) -> EventModel {
        match self {
            Event::Done => EventModel::Done,
            Event::Count(n) => EventModel::Count(*n),
            Event::MaxOrder(m) => EventModel::MaxOrder(*m),
            Event::RowId(r) => EventModel::RowId(*r),
            Event::Failed(m) => EventModel::Failed(m@),
        }
    }
}

/// Where a write session stands.
///
/// A failure is `hard` when the command reports it as an error of its own
/// rather than as a failed reply envelope: only a broken business rule is
/// (a brand still in use, a missing brand, a garage update without an id);
/// every driver failure comes back in the envelope.
#[derive(PartialEq, Eq, Structural, Clone, Copy, Debug)]
pub enum Phase {
    Open,
    Begin,
    Probe,
    Execute { order: Option<i32> },
    ReadRowId { store_order: i32 },
    Commit { row_id: Option<i64>, order: Option<i32> },
    RollingBack { hard: bool },
    Failed { hard: bool },
    Committed { row_id: Option<i64>, order: Option<i32> },
}

/// A write session as a mathematical value: its command, where it stands, and the text of its failure, if any.
pub struct SessionModel {
    pub command: CommandModel,
    pub phase: Phase,
    pub message: Seq<char>,
}

pub open spec fn has_probe(c: CommandModel) -> bool {
    match c {
        CommandModel::DeleteBrand(_) => true,
        CommandModel::AddVehicle(_) => true,
        CommandModel::UpdateVehicle(_) => true,
        CommandModel::AddGarage(_) => true,
        _ => false,
    }
}

pub open spec fn db_of(c: CommandModel) -> DbFile {
    match c {
        CommandModel::AddGarage(_) => DbFile::User,
        CommandModel::UpdateGarage(_) => DbFile::User,
        CommandModel::DeleteGarage(_) => DbFile::User,
        _ => DbFile::Common,
    }
}

pub open spec fn probe_of(c: CommandModel) -> Probe {
    match c {
        CommandModel::DeleteBrand(id) => Probe::VehiclesOfBrand(id),
        CommandModel::AddVehicle(v) => Probe::BrandsWithId(v.brand_id),
        CommandModel::UpdateVehicle(v) => Probe::BrandsWithId(v.brand_id),
        _ => Probe::MaxGarageOrder,
    }
}

pub open spec fn statement_of(c: CommandModel, order: Option<i32>) -> (StatementKind, Seq<SqlDatum>) {
    match c {
        CommandModel::AddBrand(b) => (StatementKind::InsertBrand, brand_row(b)),
        CommandModel::UpdateBrand(b) => (
            StatementKind::UpdateBrand,
            brand_row(b).drop_first().push(SqlDatum::Integer(b.id as int)),
        ),
        CommandModel::DeleteBrand(id) => (StatementKind::DeleteBrand, seq![SqlDatum::Integer(id as int)]),
        CommandModel::AddVehicle(v) => (StatementKind::InsertVehicle, vehicle_row(v)),
        CommandModel::UpdateVehicle(v) => (
            StatementKind::UpdateVehicle,
            vehicle_row(v).drop_first().push(SqlDatum::Text(v.id)),
        ),
        CommandModel::DeleteVehicle(id) => (StatementKind::DeleteVehicle, seq![SqlDatum::Text(id)]),
        CommandModel::AddGarage(g) => (StatementKind::InsertGarage, garage_fields_row(g, order)),
        CommandModel::UpdateGarage(g) => (
            StatementKind::UpdateGarage,
            garage_fields_row(g, g.garage_order).push(SqlDatum::Integer(g.id.unwrap() as int)),
        ),
        CommandModel::DeleteGarage(id) => (StatementKind::DeleteGarage, seq![SqlDatum::Integer(id as int)]),
    }
}

/// The session that a command starts: an update of a garage without an id
/// fails at once, every other command first opens its database.
pub open spec fn initial(c: CommandModel) -> SessionModel {
    if c is UpdateGarage && c->UpdateGarage_0.id.is_none() {
        SessionModel { command: c, phase: Phase::Failed { hard: true }, message: GARAGE_ID_REQUIRED@ }
    } else {
        SessionModel { command: c, phase: Phase::Open, message: Seq::empty() }
    }
}

/// The action that a session asks for.
pub open spec fn pending(s: SessionModel) -> ActionModel {
    match s.phase {
        Phase::Open => ActionModel::Open(db_of(s.command)),
        Phase::Begin => ActionModel::Begin,
        Phase::Probe => ActionModel::Probe(probe_of(s.command)),
        Phase::Execute { order } => {
            let (k, d) = statement_of(s.command, order);
            ActionModel::Execute(k, d)
        },
        Phase::ReadRowId { .. } => ActionModel::ReadRowId,
        Phase::Commit { .. } => ActionModel::Commit,
        Phase::RollingBack { .. } => ActionModel::Rollback,
        Phase::Failed { .. } => ActionModel::Finish,
        Phase::Committed { .. } => ActionModel::Finish,
    }
}

/// Whether an event answers the action that the session asks for.
pub open spec fn answers(s: SessionModel, e: EventModel) -> bool {
    match s.phase {
        Phase::Probe => if probe_of(s.command) is MaxGarageOrder {
            e is MaxOrder || e is Failed
        } else {
            e is Count || e is Failed
        },
        Phase::ReadRowId { .. } => e is RowId,
        Phase::Failed { .. } => false,
        Phase::Committed { .. } => false,
        _ => e is Done || e is Failed,
    }
}

pub open spec fn fail(s: SessionModel, phase: Phase, message: Seq<char>) -> SessionModel {
    SessionModel { command: s.command, phase, message }
}

pub open spec fn goto(s: SessionModel, phase: Phase) -> SessionModel {
    SessionModel { command: s.command, phase, message: s.message }
}

/// The decision after a probe answered with `e`.
pub open spec fn after_probe(s: SessionModel, e: EventModel) -> SessionModel {
    match s.command {
        CommandModel::DeleteBrand(_) => match e {
            EventModel::Count(n) => if n > 0 {
                fail(s, Phase::RollingBack { hard: true }, BRAND_IN_USE@)
            } else {
                goto(s, Phase::Execute { order: None })
            },
            EventModel::Failed(m) => fail(s, Phase::RollingBack { hard: false }, m),
            _ => s,
        },
        CommandModel::AddVehicle(_) | CommandModel::UpdateVehicle(_) => match e {
            EventModel::Count(n) => if n == 0 {
                fail(s, Phase::RollingBack { hard: true }, BRAND_MISSING@)
            } else {
                goto(s, Phase::Execute { order: None })
            },
            EventModel::Failed(m) => fail(s, Phase::RollingBack { hard: false }, m),
            _ => s,
        },
        CommandModel::AddGarage(g) => {
            // A failed order probe counts as an empty table.
            let max = match e {
                EventModel::MaxOrder(m) => m,
                _ => None,
            };
            match g.garage_order {
                Some(o) => goto(s, Phase::Execute { order: Some(o) }),
                None => if fits_i32(default_garage_order(max)) {
                    goto(s, Phase::Execute { order: Some(default_garage_order(max) as i32) })
                } else {
                    fail(s, Phase::RollingBack { hard: false }, GARAGE_ORDER_OUT_OF_RANGE@)
                },
            }
        },
        _ => s,
    }
}

/// The session after event `e`; an event that does not answer the pending
/// action leaves it as it is.
pub open spec fn next(s: SessionModel, e: EventModel) -> SessionModel {
    if !answers(s, e) {
        s
    } else {
        match s.phase {
            Phase::Open => match e {
                EventModel::Failed(m) => fail(s, Phase::Failed { hard: false }, m),
                _ => goto(s, Phase::Begin),
            },
            Phase::Begin => match e {
                EventModel::Failed(m) => fail(s, Phase::Failed { hard: false }, m),
                _ => if has_probe(s.command) {
                    goto(s, Phase::Probe)
                } else {
                    goto(s, Phase::Execute { order: None })
                },
            },
            Phase::Probe => after_probe(s, e),
            Phase::Execute { order } => match e {
                EventModel::Failed(m) => fail(s, Phase::RollingBack { hard: false }, m),
                _ => if s.command is AddGarage {
                    goto(s, Phase::ReadRowId { store_order: order.unwrap() })
                } else {
                    goto(s, Phase::Commit { row_id: None, order })
                },
            },
            Phase::ReadRowId { store_order } => match e {
                EventModel::RowId(r) => goto(s, Phase::Commit { row_id: Some(r), order: Some(store_order) }),
                _ => s,
            },
            Phase::Commit { row_id, order } => match e {
                EventModel::Failed(m) => fail(s, Phase::Failed { hard: false }, m),
                _ => goto(s, Phase::Committed { row_id, order }),
            },
            Phase::RollingBack { hard } => goto(s, Phase::Failed { hard }),
            _ => s,
        }
    }
}

/// The session after a run of events.
pub open spec fn run(s: SessionModel, events: Seq<EventModel>) -> SessionModel
    decreases events.len(),
{
    if events.len() == 0 {
        s
    } else {
        run(next(s, events[0]), events.drop_first())
    }
}

/// A record that a write hands back.
#[derive(Clone, Debug, PartialEq, Eq)]
pub enum Record {
    Brand(VehicleBrand),
    Vehicle(VehicleOverview),
    Garage(GarageOverview),
}

/// A handed-back record as a mathematical value.
pub enum RecordModel {
    Brand(BrandModel),
    Vehicle(VehicleModel),
    Garage(GarageModel),
}

impl View for Record {
    type V = RecordModel;

    open spec fn view(&self) -> RecordModel {
        match self {
            Record::Brand(b) => RecordModel::Brand(b@),
            Record::Vehicle(v) => RecordModel::Vehicle(v@),
            Record::Garage(g) => RecordModel::Garage(g@),
        }
    }
}

pub open spec fn record_view(r: Option<Record>) -> Option<RecordModel> {
    match r {
        Some(x) => Some(x@),
        None => None,
    }
}

/// The id under which an inserted garage is handed back: the assigned row id
/// when it fits the record's id field.
pub open spec fn assigned_id(row_id: Option<i64>) -> Option<i32> {
    match row_id {
        Some(r) => if fits_i32(r as int) { Some(r as i32) } else { None },
        None => None,
    }
}

/// The record that a committed command hands back.
pub open spec fn committed_record(c: CommandModel, row_id: Option<i64>, order: Option<i32>) -> Option<RecordModel> {
    match c {
        CommandModel::AddBrand(b) => Some(RecordModel::Brand(b)),
        CommandModel::UpdateBrand(b) => Some(RecordModel::Brand(b)),
        CommandModel::AddVehicle(v) => Some(RecordModel::Vehicle(v)),
        CommandModel::UpdateVehicle(v) => Some(RecordModel::Vehicle(v)),
        CommandModel::AddGarage(g) => Some(
            RecordModel::Garage(GarageModel { id: assigned_id(row_id), garage_order: order, ..g }),
        ),
        CommandModel::UpdateGarage(g) => Some(RecordModel::Garage(g)),
        _ => None,
    }
}

pub open spec fn is_finished(p: Phase) -> bool {
    p is Failed || p is Committed
}

/// The reply of a finished session.
pub open spec fn reply_matches(s: SessionModel, r: Result<ApiResponse<Record>, String>) -> bool {
    match s.phase {
        Phase::Failed { hard } => if hard {
            r is Err && r->Err_0@ == s.message
        } else {
            r is Ok && !r->Ok_0.success && r->Ok_0.data.is_none()
                && text_view(r->Ok_0.error) == Some(s.message)
        },
        Phase::Committed { row_id, order } => r is Ok && r->Ok_0.success
            && r->Ok_0.error.is_none()
            && record_view(r->Ok_0.data) == committed_record(s.command, row_id, order),
        _ => false,
    }
}

/// A write command in progress: the decisions of one transaction.
pub struct WriteSession {
    command: WriteCommand,
    phase: Phase,
    message: String,
}

impl View for WriteSession {
    type V = SessionModel;

    closed spec fn view(&self) -> SessionModel {
        SessionModel { command: self.command@, phase: self.phase, message: self.message@ }
    }
}

impl WriteSession {
    /// The states that a session reaches.
    pub closed spec fn wf(&self) -> bool {
        &&& (self.phase is Probe ==> has_probe(self.command@))
        &&& (self.phase is ReadRowId ==> self.command is AddGarage)
        &&& (self.command is AddGarage ==> match self.phase {
            Phase::Execute { order } => order.is_some(),
            _ => true,
        })
        &&& (self.command is UpdateGarage && self.command->UpdateGarage_0.id.is_none()
            ==> self.phase is Failed)
    }

    pub fn new(command: WriteCommand) -> (r: Self)
        ensures
            r.wf(),
            r@ == initial(command@),
    {
        let missing_id = match &command {
            WriteCommand::UpdateGarage(g) => g.id.is_none(),
            _ => false,
        };
        if missing_id {
            WriteSession {
                command,
                phase: Phase::Failed { hard: true },
                message: String::from_str(GARAGE_ID_REQUIRED),
            }
        } else {
            WriteSession { command, phase: Phase::Open, message: String::new() }
        }
    }

    pub fn phase(&self) -> (r: Phase)
        ensures
            r == self@.phase,
    {
        self.phase
    }

    pub fn is_finished(&self) -> (r: bool)
        ensures
            r == is_finished(self@.phase),
    {
        match self.phase {
            Phase::Failed { .. } => true,
            Phase::Committed { .. } => true,
            _ => false,
        }
    }

    fn statement(&self, order: Option<i32>) -> (r: Statement)
        requires
            self.wf(),
            self.command is AddGarage ==> order.is_some(),
            !(self.command is UpdateGarage && self.command->UpdateGarage_0.id.is_none()),
        ensures
            (r.kind, row_data(r.params@)) == statement_of(self@.command, order),
    {
        match &self.command {
            WriteCommand::AddBrand(b) => Statement {
                kind: StatementKind::InsertBrand,
                params: brand_insert_params(b),
            },
            WriteCommand::UpdateBrand(b) => Statement {
                kind: StatementKind::UpdateBrand,
                params: brand_update_params(b),
            },
            WriteCommand::DeleteBrand(id) => {
                let mut params: Vec<SqlValue> = Vec::new();
                params.push(SqlValue::Integer(*id as i64));
                assert(row_data(params@) =~= seq![SqlDatum::Integer(*id as int)]);
                Statement { kind: StatementKind::DeleteBrand, params }
            },
            WriteCommand::AddVehicle(v) => Statement {
                kind: StatementKind::InsertVehicle,
                params: vehicle_insert_params(v),
            },
            WriteCommand::UpdateVehicle(v) => Statement {
                kind: StatementKind::UpdateVehicle,
                params: vehicle_update_params(v),
            },
            WriteCommand::DeleteVehicle(id) => {
                let mut params: Vec<SqlValue> = Vec::new();
                params.push(bind_text(id));
                assert(row_data(params@) =~= seq![SqlDatum::Text(id@)]);
                Statement { kind: StatementKind::DeleteVehicle, params }
            },
            WriteCommand::AddGarage(g) => {
                let o = order.unwrap();
                Statement { kind: StatementKind::InsertGarage, params: garage_insert_params(g, o) }
            },
            WriteCommand::UpdateGarage(g) => {
                let id = g.id.unwrap();
                Statement { kind: StatementKind::UpdateGarage, params: garage_update_params(g, id) }
            },
            WriteCommand::DeleteGarage(id) => {
                let mut params: Vec<SqlValue> = Vec::new();
                params.push(SqlValue::Integer(*id as i64));
                assert(row_data(params@) =~= seq![SqlDatum::Integer(*id as int)]);
                Statement { kind: StatementKind::DeleteGarage, params }
            },
        }
    }

    /// The action that the session asks the driver to carry out.
    pub fn action(&self) -> (r: Action)
        requires
            self.wf(),
        ensures
            r@ == pending(self@),
    {
        match self.phase {
            Phase::Open => Action::Open(self.db_file()),
            Phase::Begin => Action::Begin,
            Phase::Probe => Action::Probe(self.probe()),
            Phase::Execute { order } => Action::Execute(self.statement(order)),
            Phase::ReadRowId { .. } => Action::ReadRowId,
            Phase::Commit { .. } => Action::Commit,
            Phase::RollingBack { .. } => Action::Rollback,
            Phase::Failed { .. } => Action::Finish,
            Phase::Committed { .. } => Action::Finish,
        }
    }

    fn db_file(&self) -> (r: DbFile)
        ensures
            r == db_of(self@.command),
    {
        match &self.command {
            WriteCommand::AddGarage(_) => DbFile::User,
            WriteCommand::UpdateGarage(_) => DbFile::User,
            WriteCommand::DeleteGarage(_) => DbFile::User,
            _ => DbFile::Common,
        }
    }

    fn probe(&self) -> (r: Probe)
        ensures
            r == probe_of(self@.command),
    {
        match &self.command {
            WriteCommand::DeleteBrand(id) => Probe::VehiclesOfBrand(*id),
            WriteCommand::AddVehicle(v) => Probe::BrandsWithId(v.brand_id),
            WriteCommand::UpdateVehicle(v) => Probe::BrandsWithId(v.brand_id),
            _ => Probe::MaxGarageOrder,
        }
    }

    /// Whether `event` answers the pending action.
    pub fn accepts(&self, event: &Event) -> (r: bool)
        ensures
            r == answers(self@, event@),
    {
        match self.phase {
            Phase::Probe => {
                let wants_order = match &self.command {
                    WriteCommand::DeleteBrand(_) => false,
                    WriteCommand::AddVehicle(_) => false,
                    WriteCommand::UpdateVehicle(_) => false,
                    _ => true,
                };
                match event {
                    Event::MaxOrder(_) => wants_order,
                    Event::Count(_) => !wants_order,
                    Event::Failed(_) => true,
                    _ => false,
                }
            },
            Phase::ReadRowId { .. } => matches!(event, Event::RowId(_)),
            Phase::Failed { .. } => false,
            Phase::Committed { .. } => false,
            _ => match event {
                Event::Done => true,
                Event::Failed(_) => true,
                _ => false,
            },
        }
    }

    fn set(&mut self, phase: Phase)
        ensures
            final(self)@ == goto(old(self)@, phase),
            final(self).command == old(self).command,
    {
        self.phase = phase;
    }

    fn set_failed(&mut self, phase: Phase, message: String)
        ensures
            final(self)@ == fail(old(self)@, phase, message@),
            final(self).command == old(self).command,
    {
        self.phase = phase;
        self.message = message;
    }

    /// Feeds the driver's answer to the pending action into the session.
    pub fn resume(&mut self, event: Event)
        requires
            old(self).wf(),
            answers(old(self)@, event@),
        ensures
            final(self).wf(),
            final(self)@ == next(old(self)@, event@),
    {
        let inserts_garage = match &self.command {
            WriteCommand::AddGarage(_) => true,
            _ => false,
        };
        match self.phase {
            Phase::Open => match event {
                Event::Failed(m) => self.set_failed(Phase::Failed { hard: false }, m),
                _ => self.set(Phase::Begin),
            },
            Phase::Begin => match event {
                Event::Failed(m) => self.set_failed(Phase::Failed { hard: false }, m),
                _ => {
                    let probing = match &self.command {
                        WriteCommand::DeleteBrand(_) => true,
                        WriteCommand::AddVehicle(_) => true,
                        WriteCommand::UpdateVehicle(_) => true,
                        WriteCommand::AddGarage(_) => true,
                        _ => false,
                    };
                    if probing {
                        self.set(Phase::Probe);
                    } else {
                        self.set(Phase::Execute { order: None });
                    }
                },
            },
            Phase::Probe => self.after_probe(event),
            Phase::Execute { order } => match event {
                Event::Failed(m) => self.set_failed(Phase::RollingBack { hard: false }, m),
                _ => if inserts_garage {
                    self.set(Phase::ReadRowId { store_order: order.unwrap() });
                } else {
                    self.set(Phase::Commit { row_id: None, order });
                },
            },
            Phase::ReadRowId { store_order } => match event {
                Event::RowId(r) => self.set(Phase::Commit { row_id: Some(r), order: Some(store_order) }),
                _ => {},
            },
            Phase::Commit { row_id, order } => match event {
                Event::Failed(m) => self.set_failed(Phase::Failed { hard: false }, m),
                _ => self.set(Phase::Committed { row_id, order }),
            },
            Phase::RollingBack { hard } => self.set(Phase::Failed { hard }),
            _ => {},
        }
    }

    fn after_probe(&mut self, event: Event)
        requires
            old(self).wf(),
            old(self).phase is Probe,
            answers(old(self)@, event@),
        ensures
            final(self).wf(),
            final(self)@ == after_probe(old(self)@, event@),
    {
        let explicit_order = match &self.command {
            WriteCommand::AddGarage(g) => g.garage_order,
            _ => None,
        };
        match &self.command {
            WriteCommand::DeleteBrand(_) => match event {
                Event::Count(n) => if !brand_deletable(n) {
                    self.set_failed(Phase::RollingBack { hard: true }, String::from_str(BRAND_IN_USE));
                } else {
                    self.set(Phase::Execute { order: None });
                },
                Event::Failed(m) => self.set_failed(Phase::RollingBack { hard: false }, m),
                _ => {},
            },
            WriteCommand::AddVehicle(_) | WriteCommand::UpdateVehicle(_) => match event {
                Event::Count(n) => if !brand_reference_valid(n) {
                    self.set_failed(Phase::RollingBack { hard: true }, String::from_str(BRAND_MISSING));
                } else {
                    self.set(Phase::Execute { order: None });
                },
                Event::Failed(m) => self.set_failed(Phase::RollingBack { hard: false }, m),
                _ => {},
            },
            WriteCommand::AddGarage(_) => {
                let max = match event {
                    Event::MaxOrder(m) => m,
                    _ => None,
                };
                match explicit_order {
                    Some(o) => self.set(Phase::Execute { order: Some(o) }),
                    None => match next_garage_order(max) {
                        Some(o) => self.set(Phase::Execute { order: Some(o) }),
                        None => self.set_failed(
                            Phase::RollingBack { hard: false },
                            String::from_str(GARAGE_ORDER_OUT_OF_RANGE),
                        ),
                    },
                }
            },
            _ => {},
        }
    }

    /// The reply of a finished session.
    pub fn into_reply(self) -> (r: Result<ApiResponse<Record>, String>)
        requires
            is_finished(self@.phase),
        ensures
            reply_matches(self@, r),
    {
        match self.phase {
            Phase::Failed { hard } => if hard {
                Err(self.message)
            } else {
                Ok(ApiResponse::failure(self.message))
            },
            Phase::Committed { row_id, order } => {
                let data = match self.command {
                    WriteCommand::AddBrand(b) => Some(Record::Brand(b)),
                    WriteCommand::UpdateBrand(b) => Some(Record::Brand(b)),
                    WriteCommand::AddVehicle(v) => Some(Record::Vehicle(v)),
                    WriteCommand::UpdateVehicle(v) => Some(Record::Vehicle(v)),
                    WriteCommand::AddGarage(g) => {
                        let id = match row_id {
                            Some(r) => if i32::MIN as i64 <= r && r <= i32::MAX as i64 {
                                Some(r as i32)
                            } else {
                                None
                            },
                            None => None,
                        };
                        Some(Record::Garage(GarageOverview { id, garage_order: order, ..g }))
                    },
                    WriteCommand::UpdateGarage(g) => Some(Record::Garage(g)),
                    _ => None,
                };
                Ok(ApiResponse::ok(data))
            },
            _ => Err(self.message),
        }
    }
}

/// Running two event sequences in turn is running their concatenation.
pub proof fn lemma_run_concat(s: SessionModel, a: Seq<EventModel>, b: Seq<EventModel>)
    ensures
        run(s, a + b) == run(run(s, a), b),
    decreases a.len(),
{
    if a.len() == 0 {
        assert(a + b =~= b);
    } else {
        assert((a + b).drop_first() =~= a.drop_first() + b);
        lemma_run_concat(next(s, a[0]), a.drop_first(), b);
    }
}

/// Running three events is taking three steps.
pub proof fn lemma_run_three(s: SessionModel, a: EventModel, b: EventModel, c: EventModel)
    ensures
        run(s, seq![a, b, c]) == next(next(next(s, a), b), c),
{
    let s1 = next(s, a);
    let s2 = next(s1, b);
    let s3 = next(s2, c);
    assert(seq![a, b, c].drop_first() =~= seq![b, c]);
    assert(seq![b, c].drop_first() =~= seq![c]);
    assert(seq![c].drop_first() =~= Seq::<EventModel>::empty());
    assert(run(s3, Seq::<EventModel>::empty()) == s3);
    assert(run(s2, seq![c]) == s3);
    assert(run(s1, seq![b, c]) == s3);
}

/// A session that is rolling back or has failed ends failed, with the same
/// failure, whatever the driver reports.
pub proof fn lemma_failure_is_final(s: SessionModel, hard: bool, events: Seq<EventModel>)
    requires
        s.phase == (Phase::RollingBack { hard }) || s.phase == (Phase::Failed { hard }),
    ensures
        run(s, events).phase == (Phase::RollingBack { hard }) || run(s, events).phase == (Phase::Failed { hard }),
        run(s, events).message == s.message,
        run(s, events).command == s.command,
    decreases events.len(),
{
    if events.len() > 0 {
        lemma_failure_is_final(next(s, events[0]), hard, events.drop_first());
    }
}

/// The events of a command whose database opens and whose transaction
/// begins, followed by the answer `probe` to its probe.
pub open spec fn opened_then(probe: EventModel) -> Seq<EventModel> {
    seq![EventModel::Done, EventModel::Done, probe]
}

/// Deleting a brand that a vehicle refers to fails: once the count of
/// referring vehicles is positive the session never reaches the delete, and
/// whatever follows it ends with the brand-in-use error. With no referring
/// vehicle, and no failure of the driver, the delete is executed and committed.
pub proof fn lemma_brand_delete_guard(id: i32, count: i64, rest: Seq<EventModel>)
    ensures
        count >= 1 ==> {
            let s = run(initial(CommandModel::DeleteBrand(id)), opened_then(EventModel::Count(count)) + rest);
            &&& s.phase == (Phase::RollingBack { hard: true }) || s.phase == (Phase::Failed { hard: true })
            &&& s.message == BRAND_IN_USE@
            &&& !(pending(s) is Execute)
        },
        count == 0 ==> {
            let s = run(initial(CommandModel::DeleteBrand(id)), opened_then(EventModel::Count(count)));
            &&& pending(s) == ActionModel::Execute(StatementKind::DeleteBrand, seq![SqlDatum::Integer(id as int)])
            &&& run(s, seq![EventModel::Done, EventModel::Done]).phase
                == (Phase::Committed { row_id: None, order: None })
        },
{
    let c = CommandModel::DeleteBrand(id);
    let s0 = initial(c);
    let ev = opened_then(EventModel::Count(count));
    lemma_run_three(s0, EventModel::Done, EventModel::Done, EventModel::Count(count));
    let s = run(s0, ev);
    lemma_run_concat(s0, ev, rest);
    if count >= 1 {
        lemma_failure_is_final(s, true, rest);
    } else if count == 0 {
        let done = seq![EventModel::Done, EventModel::Done];
        assert(done.drop_first() =~= seq![EventModel::Done]);
        assert(done.drop_first().drop_first() =~= Seq::<EventModel>::empty());
        let s1 = next(s, EventModel::Done);
        let s2 = next(s1, EventModel::Done);
        assert(run(s2, Seq::<EventModel>::empty()) == s2);
        assert(run(s1, seq![EventModel::Done]) == s2);
    }
}

/// Adding or updating a vehicle whose brand id matches no brand fails: once
/// the brand count is zero the session never reaches the write, and whatever
/// follows it ends with the missing-brand error as the command's own error.
pub proof fn lemma_vehicle_brand_guard(v: VehicleModel, rest: Seq<EventModel>)
    ensures
        ({
            let s = run(initial(CommandModel::AddVehicle(v)), opened_then(EventModel::Count(0)) + rest);
            &&& s.phase == (Phase::RollingBack { hard: true }) || s.phase == (Phase::Failed { hard: true })
            &&& s.message == BRAND_MISSING@
            &&& !(pending(s) is Execute)
        }),
        ({
            let s = run(initial(CommandModel::UpdateVehicle(v)), opened_then(EventModel::Count(0)) + rest);
            &&& s.phase == (Phase::RollingBack { hard: true }) || s.phase == (Phase::Failed { hard: true })
            &&& s.message == BRAND_MISSING@
            &&& !(pending(s) is Execute)
        }),
{
    let ev = opened_then(EventModel::Count(0));
    let a0 = initial(CommandModel::AddVehicle(v));
    let u0 = initial(CommandModel::UpdateVehicle(v));
    lemma_run_three(a0, EventModel::Done, EventModel::Done, EventModel::Count(0));
    lemma_run_three(u0, EventModel::Done, EventModel::Done, EventModel::Count(0));
    lemma_run_concat(a0, ev, rest);
    lemma_failure_is_final(run(a0, ev), true, rest);
    lemma_run_concat(u0, ev, rest);
    lemma_failure_is_final(run(u0, ev), true, rest);
}

/// A garage added without a display order is stored with one past the
/// largest stored order, or 1 when no garage is stored (also when the order
/// probe fails), and is handed back with that order.
pub proof fn lemma_garage_default_order(g: GarageModel, max: Option<i32>, row_id: i64)
    requires
        g.garage_order.is_none(),
        fits_i32(default_garage_order(max)),
    ensures
        ({
            let s = run(initial(CommandModel::AddGarage(g)), opened_then(EventModel::MaxOrder(max)));
            let order = default_garage_order(max) as i32;
            &&& pending(s) == ActionModel::Execute(StatementKind::InsertGarage, garage_fields_row(g, Some(order)))
            &&& committed_record(
                run(s, seq![EventModel::Done, EventModel::RowId(row_id), EventModel::Done]).command,
                Some(row_id),
                Some(order),
            ) == Some(RecordModel::Garage(GarageModel { id: assigned_id(Some(row_id)), garage_order: Some(order), ..g }))
            &&& run(s, seq![EventModel::Done, EventModel::RowId(row_id), EventModel::Done]).phase
                == (Phase::Committed { row_id: Some(row_id), order: Some(order) })
        }),
        run(initial(CommandModel::AddGarage(g)), opened_then(EventModel::Failed(Seq::empty()))).phase
            == (Phase::Execute { order: Some(1) }),
{
    let g0 = initial(CommandModel::AddGarage(g));
    lemma_run_three(g0, EventModel::Done, EventModel::Done, EventModel::MaxOrder(max));
    lemma_run_three(g0, EventModel::Done, EventModel::Done, EventModel::Failed(Seq::empty()));
    let s = run(g0, opened_then(EventModel::MaxOrder(max)));
    lemma_run_three(s, EventModel::Done, EventModel::RowId(row_id), EventModel::Done);
}

/// Inserting a vehicle and then fetching it by its id returns identical
/// fields: the add command stores exactly the vehicle's row, keyed by its id,
/// and that row reads back as the same vehicle. Likewise a brand stores the
/// row that reads back as itself.
pub proof fn lemma_insert_then_fetch(v: VehicleModel, b: BrandModel, count: i64)
    requires
        count != 0,
    ensures
        pending(run(initial(CommandModel::AddVehicle(v)), opened_then(EventModel::Count(count))))
            == ActionModel::Execute(StatementKind::InsertVehicle, vehicle_row(v)),
        vehicle_row(v)[0] == SqlDatum::Text(v.id),
        vehicle_of_row(vehicle_row(v)) == Some(v),
        pending(run(initial(CommandModel::AddBrand(b)), seq![EventModel::Done, EventModel::Done]))
            == ActionModel::Execute(StatementKind::InsertBrand, brand_row(b)),
        brand_of_row(brand_row(b)) == Some(b),
{
    lemma_run_three(initial(CommandModel::AddVehicle(v)), EventModel::Done, EventModel::Done, EventModel::Count(count));
    let b0 = initial(CommandModel::AddBrand(b));
    let b1 = next(b0, EventModel::Done);
    let b2 = next(b1, EventModel::Done);
    assert(seq![EventModel::Done, EventModel::Done].drop_first() =~= seq![EventModel::Done]);
    assert(seq![EventModel::Done].drop_first() =~= Seq::<EventModel>::empty());
    assert(run(b2, Seq::<EventModel>::empty()) == b2);
    assert(run(b1, seq![EventModel::Done]) == b2);
    lemma_vehicle_round_trip(v);
    lemma_brand_round_trip(b);
}

} // verus!
