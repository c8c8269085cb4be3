//! Catalog backend for vehicles, brands, lookup dictionaries and garages.
//!
//! The library holds the decisions of every catalog command: how records
//! become statement parameters, how result rows become records, which
//! business rules guard a write, and what reply the caller receives. The
//! database work itself is carried out by the embedding program, which feeds
//! each outcome back into the verified sessions of this crate.

pub mod column;
pub mod greeting;
pub mod models;
pub mod reads;
pub mod rows;
pub mod rules;
pub mod schema;
pub mod session;
pub mod text;

pub use column::SqlValue;
pub use greeting::greet;
pub use models::{ApiResponse, DataInfo, FeatureTypeDict, GarageOverview, VehicleBrand, VehicleOverview};
pub use reads::{ReadFailure, ReadQuery, ReadStage};
pub use schema::{BootAction, BootEvent, BootPhase, Bootstrap, DbFile, Ddl, SeedLocation};
pub use session::{Action, Event, Phase, Probe, Record, Statement, StatementKind, WriteCommand, WriteSession};
