//! A deterministic 2D gravitational N-body simulation engine core.
//!
//! Every floating-point quantity is carried through this crate as its IEEE-754
//! double-precision bit pattern (`u64`).  All of the engine's decision logic —
//! validation, the configuration digest, solver selection, collision
//! bookkeeping, edits, snapshots and the per-tick orchestration — reads floats
//! only through exact bit-level predicates (finiteness, sign, magnitude
//! ordering), so the whole orchestrator is verified here.  The floating-point
//! arithmetic itself (force solvers, integrators, collision impulses) is
//! supplied by the caller as a per-tick kernel function.

pub mod body;
pub mod clock;
pub mod collision;
pub mod engine;
pub mod config;
pub mod errors;
pub mod fbits;
pub mod solver;
pub mod types;

pub use body::{Body, BodyEdit, BodyMetadata, BodyUpdate};
pub use collision::CollisionStats;
pub use config::{CollisionMode, DtPolicy, EngineConfig, GravitySolver, IntegratorKind};
pub use engine::{SimulationEngine, TickOutcome};
pub use errors::EngineError;
pub use fbits::Vec2Bits;
pub use solver::SolverRuntimeMode;
pub use types::{Scenario, ScenarioMetadata, SimulationState, Snapshot, StepSummary};
