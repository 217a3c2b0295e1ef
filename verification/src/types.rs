//! Value objects the engine exchanges with its host: the per-call step
//! summary, the full state, and the scenario and snapshot transport records.

use vstd::prelude::*;
use vstd::string::{StrSliceExecFns, StringExecFns};

use crate::body::Body;
use crate::config::EngineConfig;

verus! {

/// What one `step` call reports.  `sim_time_bits` carries the IEEE-754 bit
/// pattern of the accumulated simulated time.
#[derive(Clone, Debug, PartialEq)]
pub struct StepSummary {
    pub ticks_applied: u32,
    pub final_tick: u64,
    pub sim_time_bits: u64,
    pub collision_events: u64,
    pub merged_events: u64,
    pub warnings: Vec<String>,
    pub pairwise_ticks: u32,
    pub barnes_hut_ticks: u32,
    pub step_wall_time_micros: u64,
    pub average_tick_micros: u64,
    pub max_body_count: usize,
    pub last_solver_mode: String,
}

impl Default for StepSummary {
    /// An all-zero summary; the solver label starts as "pairwise".
    fn default() -> (r: StepSummary)
        ensures
            r.ticks_applied == 0,
            r.final_tick == 0,
            r.sim_time_bits == 0,
            r.collision_events == 0,
            r.merged_events == 0,
            r.warnings@ == Seq::<String>::empty(),
            r.pairwise_ticks == 0,
            r.barnes_hut_ticks == 0,
            r.step_wall_time_micros == 0,
            r.average_tick_micros == 0,
            r.max_body_count == 0,
            r.last_solver_mode@ == "pairwise"@,
    {
        StepSummary {
            ticks_applied: 0,
            final_tick: 0,
            sim_time_bits: 0,
            collision_events: 0,
            merged_events: 0,
            warnings: Vec::new(),
            pairwise_ticks: 0,
            barnes_hut_ticks: 0,
            step_wall_time_micros: 0,
            average_tick_micros: 0,
            max_body_count: 0,
            last_solver_mode: "pairwise".to_owned(),
        }
    }
}

/// A deep copy of the engine's observable state.
#[derive(Clone, Debug, PartialEq)]
pub struct SimulationState {
    pub tick: u64,
    pub sim_time_bits: u64,
    pub config: EngineConfig,
    pub bodies: Vec<Body>,
}

/// Annotations carried by a scenario document.
#[derive(Clone, Debug, PartialEq)]
pub struct ScenarioMetadata {
    pub name: String,
    pub description: Option<String>,
    pub author: Option<String>,
    pub created_at: String,
    pub tags: Vec<String>,
}

/// A loadable initial condition: configuration plus bodies.
#[derive(Clone, Debug, PartialEq)]
pub struct Scenario {
    pub schema_version: String,
    pub metadata: ScenarioMetadata,
    pub engine_config: EngineConfig,
    pub bodies: Vec<Body>,
}

/// A restorable point-in-time capture of the engine.
#[derive(Clone, Debug, PartialEq)]
pub struct Snapshot {
    pub schema_version: String,
    pub created_at: String,
    pub tick: u64,
    pub sim_time_bits: u64,
    pub config_hash: String,
    pub bodies: Vec<Body>,
}

/// The fixed sentinel timestamp used everywhere a created-at field is
/// emitted, so deterministic replays can compare documents byte for byte.
pub fn deterministic_timestamp_iso8601() -> (r: String)
    ensures
        r@ == "1970-01-01T00:00:00Z"@,
{
    "1970-01-01T00:00:00Z".to_owned()
}

/// The schema string `s` names a major version 1 document: it begins with
/// the character '1'.
pub open spec fn schema_is_v1(s: Seq<char>) -> bool {
    s.len() >= 1 && s[0] == '1'
}

/// Exec check for `schema_is_v1`.
pub fn check_schema_v1(s: &str) -> (r: bool)
    ensures
        r == schema_is_v1(s@),
{
    let n = s.unicode_len();
    if n == 0 {
        return false;
    }
    s.get_char(0) == '1'
}

} // verus!
