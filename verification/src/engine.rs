//! The engine orchestrator: owns the body population, the tick counter and
//! the simulated time, and enforces the unique-id and validity invariants at
//! every observable boundary.

use vstd::prelude::*;
use vstd::string::StrSliceExecFns;

use crate::body::{body_msg, is_body_error, patch_body, patched, Body, BodyEdit, BodyUpdate};
use crate::clock::wall_clock_micros;
use crate::collision::CollisionStats;
use crate::config::{
    digest_bytes, fnv1a64, hex16, is_config_error, CollisionMode, EngineConfig, GravitySolver,
};
use crate::errors::EngineError;
use crate::solver::{
    alive_count, alive_ids, choose_runtime_mode, count_alive, lemma_alive_count_compact,
    lemma_alive_count_monotone, lemma_alive_ids_compact, lemma_alive_ids_pointwise,
    lemma_filter_take_step, SolverRuntimeMode,
};
use crate::types::{
    check_schema_v1, deterministic_timestamp_iso8601, schema_is_v1, Scenario, ScenarioMetadata,
    SimulationState, Snapshot, StepSummary,
};

verus! {

/// No two bodies of `s` share an id.
pub open spec fn unique_ids(s: Seq<Body>) -> bool {
    forall|i: int, j: int| 0 <= i < j < s.len() ==> s[i].id@ != s[j].id@
}

/// Every body of `s` satisfies the body invariants.
pub open spec fn all_valid(s: Seq<Body>) -> bool {
    forall|i: int| 0 <= i < s.len() ==> (#[trigger] s[i]).valid()
}

/// Some body of `s` has the id `id`.
pub open spec fn contains_id(s: Seq<Body>, id: Seq<char>) -> bool {
    exists|i: int| 0 <= i < s.len() && (#[trigger] s[i]).id@ == id
}

/// The index of the body of `s` with id `id` (unique when `unique_ids(s)`).
pub open spec fn id_index(s: Seq<Body>, id: Seq<char>) -> int {
    choose|i: int| 0 <= i < s.len() && (#[trigger] s[i]).id@ == id
}

/// Body `j` of `s` repeats the id of an earlier body.
pub open spec fn has_earlier_same_id(s: Seq<Body>, j: int) -> bool {
    exists|i: int| 0 <= i < j && (#[trigger] s[i]).id@ == s[j].id@
}

/// `e` is the duplicate-id error for the first body of `s` that repeats an
/// earlier id.
pub open spec fn is_dup_error(e: EngineError, s: Seq<Body>) -> bool {
    exists|j: int|
        {
            &&& 0 <= j < s.len()
            &&& #[trigger] has_earlier_same_id(s, j)
            &&& forall|k: int| 0 <= k < j ==> !has_earlier_same_id(s, k)
            &&& e matches EngineError::DuplicateBodyId(m) && m@ == s[j].id@
        }
}

/// `e` is the body error for the first invalid body of `s`.
pub open spec fn is_first_invalid_body_error(e: EngineError, s: Seq<Body>) -> bool {
    exists|i: int|
        {
            &&& 0 <= i < s.len()
            &&& !(#[trigger] s[i]).valid()
            &&& forall|k: int| 0 <= k < i ==> (#[trigger] s[k]).valid()
            &&& is_body_error(e, s[i])
        }
}

/// Rejects the first body that repeats an earlier id.
pub fn validate_unique_body_ids(bodies: &Vec<Body>) -> (r: Result<(), EngineError>)
    ensures
        r is Ok <==> unique_ids(bodies@),
        r matches Err(e) ==> is_dup_error(e, bodies@),
{
    let n = bodies.len();
    let mut i: usize = 0;
    while i < n
        invariant
            i <= n,
            n == bodies@.len(),
            forall|k: int| 0 <= k < i ==> !has_earlier_same_id(bodies@, k),
        decreases n - i,
    {
        let mut j: usize = 0;
        while j < i
            invariant
                j <= i < n,
                n == bodies@.len(),
                forall|k: int| 0 <= k < i ==> !has_earlier_same_id(bodies@, k),
                forall|l: int| 0 <= l < j ==> bodies@[l].id@ != bodies@[i as int].id@,
            decreases i - j,
        {
            if bodies[j].id == bodies[i].id {
                let dup = EngineError::DuplicateBodyId(bodies[i].id.clone());
                proof {
                    assert(has_earlier_same_id(bodies@, i as int));
                    assert(dup matches EngineError::DuplicateBodyId(m) && m@
                        == bodies@[i as int].id@);
                    assert(is_dup_error(dup, bodies@));
                }
                return Err(dup);
            }
            j += 1;
        }
        proof {
            assert(!has_earlier_same_id(bodies@, i as int));
        }
        i += 1;
    }
    proof {
        assert forall|a: int, b: int| 0 <= a < b < bodies@.len() implies bodies@[a].id@
            != bodies@[b].id@ by {
            assert(!has_earlier_same_id(bodies@, b));
        }
    }
    Ok(())
}

/// Validates every body in storage order, reporting the first failure.
fn validate_all_bodies(bodies: &Vec<Body>) -> (r: Result<(), EngineError>)
    ensures
        r is Ok <==> all_valid(bodies@),
        r matches Err(e) ==> is_first_invalid_body_error(e, bodies@),
{
    let n = bodies.len();
    let mut i: usize = 0;
    while i < n
        invariant
            i <= n,
            n == bodies@.len(),
            forall|k: int| 0 <= k < i ==> (#[trigger] bodies@[k]).valid(),
        decreases n - i,
    {
        match bodies[i].validate() {
            Ok(()) => {},
            Err(e) => {
                return Err(e);
            },
        }
        i += 1;
    }
    Ok(())
}

/// A deep copy of a body list that is provably equal to the original.
pub fn clone_bodies(bodies: &Vec<Body>) -> (r: Vec<Body>)
    ensures
        r@ == bodies@,
{
    let mut out: Vec<Body> = Vec::new();
    let mut i: usize = 0;
    while i < bodies.len()
        invariant
            i <= bodies@.len(),
            out@ == bodies@.take(i as int),
        decreases bodies@.len() - i,
    {
        out.push(bodies[i].duplicate());
        proof {
            assert(bodies@.take((i + 1) as int) =~= bodies@.take(i as int).push(
                bodies@[i as int],
            ));
        }
        i += 1;
    }
    proof {
        assert(bodies@.take(bodies@.len() as int) =~= bodies@);
    }
    out
}

/// Character-by-character string equality.
pub fn str_eq(a: &str, b: &str) -> (r: bool)
    ensures
        r == (a@ == b@),
{
    let n = a.unicode_len();
    let m = b.unicode_len();
    if n != m {
        return false;
    }
    let mut i: usize = 0;
    while i < n
        invariant
            i <= n,
            n == a@.len(),
            n == b@.len(),
            forall|j: int| 0 <= j < i ==> a@[j] == b@[j],
        decreases n - i,
    {
        if a.get_char(i) != b.get_char(i) {
            return false;
        }
        i += 1;
    }
    proof {
        assert(a@ =~= b@);
    }
    true
}

/// The simulation engine.  The orchestrator exclusively owns the body list;
/// hosts observe and mutate it only through these operations.
#[derive(Clone, Debug)]
pub struct SimulationEngine {
    pub config: EngineConfig,
    pub bodies: Vec<Body>,
    pub tick: u64,
    pub sim_time_bits: u64,
}

impl SimulationEngine {
    /// The engine's own invariant: body ids are unique.
    pub open spec fn wf(self) -> bool {
        unique_ids(self.bodies@)
    }

    /// An empty engine with a validated configuration.
    pub fn initialize(config: EngineConfig) -> (r: Result<SimulationEngine, EngineError>)
        ensures
            r is Ok <==> config.valid(),
            r matches Ok(e) ==> {
                &&& e.config == config
                &&& e.bodies@ == Seq::<Body>::empty()
                &&& e.tick == 0
                &&& e.sim_time_bits == 0
                &&& e.wf()
            },
            r matches Err(e) ==> is_config_error(e, config),
    {
        config.validate()?;
        Ok(SimulationEngine { config, bodies: Vec::new(), tick: 0, sim_time_bits: 0 })
    }

    /// An engine over an initial population; the configuration, the
    /// uniqueness of the ids and every body are validated, in that order.
    pub fn with_bodies(config: EngineConfig, bodies: Vec<Body>) -> (r: Result<
        SimulationEngine,
        EngineError,
    >)
        ensures
            r is Ok <==> config.valid() && unique_ids(bodies@) && all_valid(bodies@),
            r matches Ok(e) ==> {
                &&& e.config == config
                &&& e.bodies@ == bodies@
                &&& e.tick == 0
                &&& e.sim_time_bits == 0
                &&& e.wf()
            },
            !config.valid() ==> (r matches Err(e) && is_config_error(e, config)),
            config.valid() && !unique_ids(bodies@) ==> (r matches Err(e) && is_dup_error(
                e,
                bodies@,
            )),
            config.valid() && unique_ids(bodies@) && !all_valid(bodies@) ==> (r matches Err(e)
                && is_first_invalid_body_error(e, bodies@)),
    {
        config.validate()?;
        validate_unique_body_ids(&bodies)?;
        validate_all_bodies(&bodies)?;
        Ok(SimulationEngine { config, bodies, tick: 0, sim_time_bits: 0 })
    }

    /// The current configuration.
    pub fn config(&self) -> (r: &EngineConfig)
        ensures
            *r == self.config,
    {
        &self.config
    }

    /// The current body storage.
    pub fn bodies(&self) -> (r: &Vec<Body>)
        ensures
            r@ == self.bodies@,
    {
        &self.bodies
    }

    /// Replaces the configuration after validating it; the population, tick
    /// and simulated time are untouched.
    pub fn set_config(&mut self, config: EngineConfig) -> (r: Result<(), EngineError>)
        ensures
            r is Ok <==> config.valid(),
            config.valid() ==> {
                &&& final(self).config == config
                &&& final(self).bodies@ == old(self).bodies@
                &&& final(self).tick == old(self).tick
                &&& final(self).sim_time_bits == old(self).sim_time_bits
            },
            !config.valid() ==> *final(self) == *old(self) && (r matches Err(e)
                && is_config_error(e, config)),
    {
        config.validate()?;
        self.config = config;
        Ok(())
    }

    /// Adds a host-created body; rejects an invalid body or a duplicate id.
    #[verifier::loop_isolation(false)]
    pub fn create_body(&mut self, body: Body) -> (r: Result<(), EngineError>)
        requires
            old(self).wf(),
        ensures
            create_result(*old(self), *final(self), body, r),
            final(self).wf(),
    {
        match body.validate() {
            Ok(()) => {},
            Err(e) => {
                return Err(e);
            },
        }
        let n = self.bodies.len();
        let mut i: usize = 0;
        while i < n
            invariant
                i <= n,
                n == self.bodies@.len(),
                forall|k: int| 0 <= k < i ==> (#[trigger] self.bodies@[k]).id@ != body.id@,
            decreases n - i,
        {
            if self.bodies[i].id == body.id {
                return Err(EngineError::DuplicateBodyId(body.id));
            }
            i += 1;
        }
        proof {
            assert(!contains_id(self.bodies@, body.id@));
        }
        self.bodies.push(body);
        proof {
            assert forall|a: int, b: int|
                0 <= a < b < self.bodies@.len() implies self.bodies@[a].id@
                != self.bodies@[b].id@ by {
                if b + 1 < self.bodies@.len() {
                    assert(old(self).bodies@[a].id@ != old(self).bodies@[b].id@);
                }
            }
        }
        Ok(())
    }

    /// Partially mutates the body with the given id, then revalidates it.
    /// As in the rest of the engine, a failed revalidation reports the error
    /// but leaves the mutation in place.
    #[verifier::loop_isolation(false)]
    pub fn update_body(&mut self, update: BodyUpdate) -> (r: Result<(), EngineError>)
        requires
            old(self).wf(),
        ensures
            update_result(*old(self), *final(self), update, r),
            final(self).wf(),
    {
        let n = self.bodies.len();
        let mut i: usize = 0;
        while i < n
            invariant
                *self == *old(self),
                i <= n,
                n == self.bodies@.len(),
                forall|k: int| 0 <= k < i ==> (#[trigger] self.bodies@[k]).id@ != update.id@,
            decreases n - i,
        {
            if self.bodies[i].id == update.id {
                proof {
                    assert(unique_ids(self.bodies@));
                    assert(contains_id(self.bodies@, update.id@));
                    let j = id_index(self.bodies@, update.id@);
                    assert(0 <= j < self.bodies@.len() && self.bodies@[j].id@ == update.id@);
                    assert(self.bodies@[i as int].id@ == update.id@);
                    if j < i {
                        assert(self.bodies@[j].id@ != self.bodies@[i as int].id@);
                    }
                    if i < j {
                        assert(self.bodies@[i as int].id@ != self.bodies@[j].id@);
                    }
                    assert(j == i);
                }
                let p = patch_body(&self.bodies[i], update);
                let res = p.validate();
                self.bodies[i] = p;
                proof {
                    assert(unique_ids(old(self).bodies@));
                    assert forall|a: int, b: int|
                        0 <= a < b < self.bodies@.len() implies self.bodies@[a].id@
                        != self.bodies@[b].id@ by {
                        assert(old(self).bodies@[a].id@ != old(self).bodies@[b].id@);
                    }
                }
                return res;
            }
            i += 1;
        }
        proof {
            assert(!contains_id(self.bodies@, update.id@));
        }
        Err(EngineError::BodyNotFound(update.id))
    }

    /// Removes the body with the given id, preserving the order of the
    /// remaining bodies.
    #[verifier::loop_isolation(false)]
    pub fn delete_body(&mut self, id: &str) -> (r: Result<(), EngineError>)
        requires
            old(self).wf(),
        ensures
            delete_result(*old(self), *final(self), id@, r),
            final(self).wf(),
    {
        let n = self.bodies.len();
        let mut i: usize = 0;
        while i < n
            invariant
                *self == *old(self),
                i <= n,
                n == self.bodies@.len(),
                forall|k: int| 0 <= k < i ==> (#[trigger] self.bodies@[k]).id@ != id@,
            decreases n - i,
        {
            if str_eq(self.bodies[i].id.as_str(), id) {
                proof {
                    assert(unique_ids(self.bodies@));
                    assert(contains_id(self.bodies@, id@));
                    let j = id_index(self.bodies@, id@);
                    assert(0 <= j < self.bodies@.len() && self.bodies@[j].id@ == id@);
                    assert(self.bodies@[i as int].id@ == id@);
                    if j < i {
                        assert(self.bodies@[j].id@ != self.bodies@[i as int].id@);
                    }
                    if i < j {
                        assert(self.bodies@[i as int].id@ != self.bodies@[j].id@);
                    }
                    assert(j == i);
                }
                let mut out: Vec<Body> = Vec::new();
                let mut a: usize = 0;
                while a < i
                    invariant
                        a <= i < n,
                        n == self.bodies@.len(),
                        out@ == self.bodies@.take(a as int),
                    decreases i - a,
                {
                    out.push(self.bodies[a].duplicate());
                    proof {
                        assert(self.bodies@.take((a + 1) as int) =~= self.bodies@.take(
                            a as int,
                        ).push(self.bodies@[a as int]));
                    }
                    a += 1;
                }
                proof {
                    assert(self.bodies@.take(i as int) + self.bodies@.subrange(
                        (i + 1) as int,
                        (i + 1) as int,
                    ) =~= self.bodies@.take(i as int));
                }
                let mut b: usize = i + 1;
                while b < n
                    invariant
                        i < b <= n,
                        n == self.bodies@.len(),
                        out@ == self.bodies@.take(i as int) + self.bodies@.subrange(
                            (i + 1) as int,
                            b as int,
                        ),
                    decreases n - b,
                {
                    out.push(self.bodies[b].duplicate());
                    proof {
                        assert(self.bodies@.subrange((i + 1) as int, (b + 1) as int)
                            =~= self.bodies@.subrange((i + 1) as int, b as int).push(
                            self.bodies@[b as int],
                        ));
                        assert(self.bodies@.take(i as int) + self.bodies@.subrange(
                            (i + 1) as int,
                            (b + 1) as int,
                        ) =~= (self.bodies@.take(i as int) + self.bodies@.subrange(
                            (i + 1) as int,
                            b as int,
                        )).push(self.bodies@[b as int]));
                    }
                    b += 1;
                }
                proof {
                    assert(unique_ids(old(self).bodies@));
                    let pre = old(self).bodies@;
                    let post = pre.take(i as int) + pre.skip((i + 1) as int);
                    assert(pre.subrange((i + 1) as int, n as int) =~= pre.skip((i + 1) as int));
                    assert(out@ =~= post);
                    assert forall|x: int, y: int|
                        0 <= x < y < post.len() implies post[x].id@ != post[y].id@ by {
                        let px: int = if x < i {
                            x
                        } else {
                            x + 1
                        };
                        let py: int = if y < i {
                            y
                        } else {
                            y + 1
                        };
                        assert(post[x] == pre[px]);
                        assert(post[y] == pre[py]);
                        assert(pre[px].id@ != pre[py].id@);
                    }
                }
                self.bodies = out;
                return Ok(());
            }
            i += 1;
        }
        proof {
            assert(!contains_id(self.bodies@, id@));
        }
        Err(EngineError::BodyNotFound(id.to_owned()))
    }

    /// A deep copy of the observable state.
    pub fn get_state(&self) -> (r: SimulationState)
        ensures
            r.tick == self.tick,
            r.sim_time_bits == self.sim_time_bits,
            r.config == self.config,
            r.bodies@ == self.bodies@,
    {
        SimulationState {
            tick: self.tick,
            sim_time_bits: self.sim_time_bits,
            config: self.config,
            bodies: clone_bodies(&self.bodies),
        }
    }

    /// A restorable capture of the engine: schema "1.0", the sentinel
    /// timestamp, the current tick and simulated time, the configuration
    /// digest and a deep copy of the bodies.
    pub fn snapshot(&self) -> (r: Snapshot)
        ensures
            snapshot_of(*self, r),
    {
        Snapshot {
            schema_version: "1.0".to_owned(),
            created_at: deterministic_timestamp_iso8601(),
            tick: self.tick,
            sim_time_bits: self.sim_time_bits,
            config_hash: self.config.stable_hash(),
            bodies: clone_bodies(&self.bodies),
        }
    }

    /// Replaces tick, simulated time and bodies from a snapshot after
    /// checking its schema and body set; the configuration is untouched.
    pub fn restore_snapshot(&mut self, snapshot: Snapshot) -> (r: Result<(), EngineError>)
        requires
            old(self).wf(),
        ensures
            final(self).wf(),
            final(self).config == old(self).config,
            r is Ok <==> schema_is_v1(snapshot.schema_version@) && unique_ids(snapshot.bodies@)
                && all_valid(snapshot.bodies@),
            r is Ok ==> {
                &&& final(self).tick == snapshot.tick
                &&& final(self).sim_time_bits == snapshot.sim_time_bits
                &&& final(self).bodies@ == snapshot.bodies@
            },
            r is Err ==> *final(self) == *old(self),
            !schema_is_v1(snapshot.schema_version@) ==> (r matches Err(e)
                && e matches EngineError::SchemaValidationFailed(m) && m@
                == "only snapshot schema v1.x is supported"@),
            schema_is_v1(snapshot.schema_version@) && !unique_ids(snapshot.bodies@) ==> (
            r matches Err(e) && is_dup_error(e, snapshot.bodies@)),
            schema_is_v1(snapshot.schema_version@) && unique_ids(snapshot.bodies@) && !all_valid(
                snapshot.bodies@,
            ) ==> (r matches Err(e) && is_first_invalid_body_error(e, snapshot.bodies@)),
    {
        if !check_schema_v1(snapshot.schema_version.as_str()) {
            return Err(
                EngineError::SchemaValidationFailed(
                    "only snapshot schema v1.x is supported".to_owned(),
                ),
            );
        }
        validate_unique_body_ids(&snapshot.bodies)?;
        validate_all_bodies(&snapshot.bodies)?;
        self.tick = snapshot.tick;
        self.sim_time_bits = snapshot.sim_time_bits;
        self.bodies = snapshot.bodies;
        Ok(())
    }

    /// Replaces the configuration and bodies from a scenario after full
    /// validation, and resets tick and simulated time to zero.
    pub fn load_scenario(&mut self, scenario: Scenario) -> (r: Result<(), EngineError>)
        requires
            old(self).wf(),
        ensures
            final(self).wf(),
            r is Ok <==> schema_is_v1(scenario.schema_version@) && scenario.engine_config.valid()
                && unique_ids(scenario.bodies@) && all_valid(scenario.bodies@),
            r is Ok ==> {
                &&& final(self).config == scenario.engine_config
                &&& final(self).bodies@ == scenario.bodies@
                &&& final(self).tick == 0
                &&& final(self).sim_time_bits == 0
            },
            r is Err ==> *final(self) == *old(self),
            !schema_is_v1(scenario.schema_version@) ==> (r matches Err(e)
                && e matches EngineError::SchemaValidationFailed(m) && m@
                == "only scenario schema v1.x is supported"@),
            schema_is_v1(scenario.schema_version@) && !scenario.engine_config.valid() ==> (
            r matches Err(e) && is_config_error(e, scenario.engine_config)),
            schema_is_v1(scenario.schema_version@) && scenario.engine_config.valid()
                && !unique_ids(scenario.bodies@) ==> (r matches Err(e) && is_dup_error(
                e,
                scenario.bodies@,
            )),
            schema_is_v1(scenario.schema_version@) && scenario.engine_config.valid()
                && unique_ids(scenario.bodies@) && !all_valid(scenario.bodies@) ==> (
            r matches Err(e) && is_first_invalid_body_error(e, scenario.bodies@)),
    {
        if !check_schema_v1(scenario.schema_version.as_str()) {
            return Err(
                EngineError::SchemaValidationFailed(
                    "only scenario schema v1.x is supported".to_owned(),
                ),
            );
        }
        scenario.engine_config.validate()?;
        validate_unique_body_ids(&scenario.bodies)?;
        validate_all_bodies(&scenario.bodies)?;
        self.config = scenario.engine_config;
        self.bodies = scenario.bodies;
        self.tick = 0;
        self.sim_time_bits = 0;
        Ok(())
    }

    /// Packages the current configuration and bodies as a scenario document
    /// with fixed metadata.
    pub fn save_scenario(&self) -> (r: Scenario)
        ensures
            r.schema_version@ == "1.0"@,
            r.metadata.name@ == "Untitled"@,
            r.metadata.description is None,
            r.metadata.author is None,
            r.metadata.created_at@ == "1970-01-01T00:00:00Z"@,
            r.metadata.tags@ == Seq::<String>::empty(),
            r.engine_config == self.config,
            r.bodies@ == self.bodies@,
    {
        Scenario {
            schema_version: "1.0".to_owned(),
            metadata: ScenarioMetadata {
                name: "Untitled".to_owned(),
                description: None,
                author: None,
                created_at: deterministic_timestamp_iso8601(),
                tags: Vec::new(),
            },
            engine_config: self.config,
            bodies: clone_bodies(&self.bodies),
        }
    }

    /// Dispatches a tagged edit.
    pub fn apply_edit(&mut self, edit: BodyEdit) -> (r: Result<(), EngineError>)
        requires
            old(self).wf(),
        ensures
            final(self).wf(),
            edit matches BodyEdit::Create(body) ==> create_result(
                *old(self),
                *final(self),
                body,
                r,
            ),
            edit matches BodyEdit::Update(update) ==> update_result(
                *old(self),
                *final(self),
                update,
                r,
            ),
            edit matches BodyEdit::Delete { id } ==> delete_result(
                *old(self),
                *final(self),
                id@,
                r,
            ),
    {
        match edit {
            BodyEdit::Create(body) => self.create_body(body),
            BodyEdit::Update(update) => self.update_body(update),
            BodyEdit::Delete { id } => self.delete_body(id.as_str()),
        }
    }

    /// Advances the simulation by `ticks` ticks, one kernel call per tick.
    ///
    /// The kernel performs the tick's physics: it integrates, resolves
    /// contacts, accumulates the simulated time, and reports its collision
    /// counts, or an error that aborts the tick.  The kernel is only assumed
    /// to meet the structural obligations of `kernel_tick_ok`; everything
    /// else here — solver selection and the per-solver tick counters, event
    /// accounting, merge compaction, the tick counter, the zero-tick
    /// summary, the preservation of alive ids in event-free runs, that every
    /// surviving id was present at the start, that the only error kind is
    /// numerical instability, and the final finiteness gate — is proved for
    /// every such kernel.
    #[verifier::loop_isolation(false)]
    pub fn step_with<K: Fn(EngineConfig, Vec<Body>, u64) -> TickOutcome>(
        &mut self,
        ticks: u32,
        kernel: K,
    ) -> (r: Result<StepSummary, EngineError>)
        requires
            old(self).wf(),
            old(self).tick + ticks <= u64::MAX,
            forall|args: (EngineConfig, Vec<Body>, u64)| #[trigger] call_requires(kernel, args),
            forall|args: (EngineConfig, Vec<Body>, u64), out: TickOutcome|
                #[trigger] call_ensures(kernel, args, out) ==> kernel_tick_ok(
                    args.0,
                    args.1@,
                    out,
                ),
        ensures
            final(self).wf(),
            final(self).config == old(self).config,
            old(self).tick <= final(self).tick <= old(self).tick + ticks,
            final(self).bodies@.len() <= old(self).bodies@.len(),
            alive_count(final(self).bodies@) <= alive_count(old(self).bodies@),
            ids_preserved(final(self).bodies@, old(self).bodies@),
            ticks == 0 ==> r is Ok && *final(self) == *old(self),
            r matches Err(e) ==> e is NumericalInstability,
            r matches Err(e) ==> (final(self).tick == old(self).tick + ticks
                ==> is_instability_error(e, final(self).bodies@)),
            r matches Ok(s) ==> {
                &&& s.ticks_applied == ticks
                &&& final(self).tick == old(self).tick + ticks
                &&& s.final_tick == final(self).tick
                &&& s.sim_time_bits == final(self).sim_time_bits
                &&& s.pairwise_ticks + s.barnes_hut_ticks == ticks
                &&& (ticks > 0 ==> s.max_body_count == old(self).bodies@.len())
                &&& (ticks == 0 ==> s.max_body_count == 0 && s.collision_events == 0
                    && s.merged_events == 0 && s.step_wall_time_micros == 0
                    && s.average_tick_micros == 0 && s.last_solver_mode@ == "pairwise"@)
                &&& (ticks > 0 ==> s.average_tick_micros == s.step_wall_time_micros / (
                ticks as u64))
                &&& s.warnings@ == Seq::<String>::empty()
                &&& (ticks > 0 ==> all_finite(final(self).bodies@))
                &&& (s.collision_events == 0 && s.merged_events == 0 ==> alive_ids(
                    final(self).bodies@,
                ) == alive_ids(old(self).bodies@))
                &&& (old(self).config.collision_mode is Ignore ==> s.collision_events == 0
                    && s.merged_events == 0 && alive_count(final(self).bodies@) == alive_count(
                    old(self).bodies@,
                ))
                &&& (s.last_solver_mode@ == "pairwise"@ || s.last_solver_mode@ == "barnesHut"@)
                &&& (old(self).config.gravity_solver is Pairwise ==> s.pairwise_ticks == ticks
                    && s.barnes_hut_ticks == 0 && s.last_solver_mode@ == "pairwise"@)
                &&& (old(self).config.gravity_solver is Auto
                    && old(self).config.barnes_hut_threshold <= alive_count(final(self).bodies@)
                    ==> s.barnes_hut_ticks == ticks && s.pairwise_ticks == 0 && (ticks > 0
                    ==> s.last_solver_mode@ == "barnesHut"@))
                &&& (old(self).config.gravity_solver is Auto
                    && old(self).config.barnes_hut_threshold > alive_count(old(self).bodies@)
                    ==> s.pairwise_ticks == ticks && s.barnes_hut_ticks == 0
                    && s.last_solver_mode@ == "pairwise"@)
                &&& (old(self).config.gravity_solver is BarnesHut && 2 <= alive_count(
                    final(self).bodies@,
                ) ==> s.barnes_hut_ticks == ticks && s.pairwise_ticks == 0 && (ticks > 0
                    ==> s.last_solver_mode@ == "barnesHut"@))
                &&& (old(self).config.gravity_solver is BarnesHut && alive_count(
                    old(self).bodies@,
                ) < 2 ==> s.pairwise_ticks == ticks && s.barnes_hut_ticks == 0
                    && s.last_solver_mode@ == "pairwise"@)
            },
    {
        let mut summary = StepSummary::default();
        if ticks == 0 {
            summary.final_tick = self.tick;
            summary.sim_time_bits = self.sim_time_bits;
            proof {
                assert forall|k: int|
                    0 <= k < self.bodies@.len() implies contains_id(
                    old(self).bodies@,
                    (#[trigger] self.bodies@[k]).id@,
                ) by {
                    assert(old(self).bodies@[k].id@ == self.bodies@[k].id@);
                }
            }
            return Ok(summary);
        }
        summary.max_body_count = self.bodies.len();
        proof {
            assert forall|k: int|
                0 <= k < self.bodies@.len() implies contains_id(
                old(self).bodies@,
                (#[trigger] self.bodies@[k]).id@,
            ) by {
                assert(old(self).bodies@[k].id@ == self.bodies@[k].id@);
            }
        }
        let wall_start = wall_clock_micros();
        let mut t: u32 = 0;
        while t < ticks
            invariant
                t <= ticks,
                self.config == old(self).config,
                self.wf(),
                self.tick == old(self).tick + t,
                self.bodies@.len() <= old(self).bodies@.len(),
                alive_count(self.bodies@) <= alive_count(old(self).bodies@),
                summary.ticks_applied == t,
                summary.pairwise_ticks + summary.barnes_hut_ticks == t,
                summary.max_body_count == old(self).bodies@.len(),
                summary.warnings@ == Seq::<String>::empty(),
                summary.last_solver_mode@ == "pairwise"@ || summary.last_solver_mode@
                    == "barnesHut"@,
                summary.collision_events == 0 && summary.merged_events == 0 ==> alive_ids(
                    self.bodies@,
                ) == alive_ids(old(self).bodies@),
                ids_preserved(self.bodies@, old(self).bodies@),
                self.config.collision_mode is Ignore ==> summary.collision_events == 0
                    && summary.merged_events == 0 && alive_count(self.bodies@) == alive_count(
                    old(self).bodies@,
                ),
                self.config.gravity_solver is Pairwise ==> summary.pairwise_ticks == t
                    && summary.barnes_hut_ticks == 0 && summary.last_solver_mode@
                    == "pairwise"@,
                self.config.gravity_solver is Auto && self.config.barnes_hut_threshold
                    <= alive_count(self.bodies@) ==> summary.barnes_hut_ticks == t
                    && summary.pairwise_ticks == 0 && (t > 0 ==> summary.last_solver_mode@
                    == "barnesHut"@),
                self.config.gravity_solver is Auto && self.config.barnes_hut_threshold
                    > alive_count(old(self).bodies@) ==> summary.pairwise_ticks == t
                    && summary.barnes_hut_ticks == 0 && summary.last_solver_mode@
                    == "pairwise"@,
                self.config.gravity_solver is BarnesHut && 2 <= alive_count(self.bodies@)
                    ==> summary.barnes_hut_ticks == t && summary.pairwise_ticks == 0 && (t > 0
                    ==> summary.last_solver_mode@ == "barnesHut"@),
                self.config.gravity_solver is BarnesHut && alive_count(old(self).bodies@) < 2
                    ==> summary.pairwise_ticks == t && summary.barnes_hut_ticks == 0
                    && summary.last_solver_mode@ == "pairwise"@,
            decreases ticks - t,
        {
            let alive_now = count_alive(&self.bodies);
            let mode = choose_runtime_mode(alive_now, &self.config);
            let mut taken: Vec<Body> = Vec::new();
            core::mem::swap(&mut self.bodies, &mut taken);
            let ghost before = taken@;
            let out = kernel(self.config, taken, self.sim_time_bits);
            proof {
                assert(kernel_tick_ok(self.config, before, out));
            }
            let TickOutcome { bodies: new_bodies, sim_time_after_bits, stats, error } = out;
            let ghost stepped = new_bodies@;
            proof {
                assert(unique_ids(before));
                assert(ids_preserved(before, old(self).bodies@));
                lemma_unique_ids_pointwise(before, stepped);
                lemma_alive_count_monotone(before, stepped);
                assert forall|k: int|
                    0 <= k < stepped.len() implies contains_id(
                    old(self).bodies@,
                    (#[trigger] stepped[k]).id@,
                ) by {
                    assert(stepped[k].id@ == before[k].id@);
                    assert(contains_id(old(self).bodies@, before[k].id@));
                }
                if self.config.collision_mode is Ignore {
                    assert(stats.collisions == 0 && stats.merges == 0);
                    if error is None {
                        lemma_alive_count_monotone(stepped, before);
                    }
                }
            }
            match error {
                Some(e) => {
                    self.bodies = new_bodies;
                    proof {
                        assert(ids_preserved(self.bodies@, old(self).bodies@));
                    }
                    return Err(e);
                },
                None => {},
            }
            self.sim_time_bits = sim_time_after_bits;
            summary.collision_events = summary.collision_events.saturating_add(stats.collisions);
            summary.merged_events = summary.merged_events.saturating_add(stats.merges);
            proof {
                if stats.collisions == 0 && stats.merges == 0 {
                    lemma_alive_ids_pointwise(before, stepped);
                }
            }
            if matches!(self.config.collision_mode, CollisionMode::InelasticMerge) {
                self.bodies = compact_alive(new_bodies);
                proof {
                    lemma_compact_unique_ids(stepped);
                    lemma_alive_count_compact(stepped);
                    lemma_alive_ids_compact(stepped);
                    assert(self.bodies@ == compacted(stepped));
                    assert forall|k: int|
                        0 <= k < self.bodies@.len() implies contains_id(
                        old(self).bodies@,
                        (#[trigger] self.bodies@[k]).id@,
                    ) by {
                        assert(contains_id(stepped, compacted(stepped)[k].id@));
                        let l = id_index(stepped, compacted(stepped)[k].id@);
                        assert(0 <= l < stepped.len() && stepped[l].id@ == compacted(
                            stepped,
                        )[k].id@);
                        assert(contains_id(old(self).bodies@, stepped[l].id@));
                    }
                }
            } else {
                self.bodies = new_bodies;
                proof {
                    assert(ids_preserved(self.bodies@, old(self).bodies@));
                }
            }
            summary.ticks_applied = summary.ticks_applied + 1;
            if self.bodies.len() > summary.max_body_count {
                summary.max_body_count = self.bodies.len();
            }
            match mode {
                SolverRuntimeMode::BarnesHut => {
                    summary.barnes_hut_ticks = summary.barnes_hut_ticks + 1;
                    summary.last_solver_mode = "barnesHut".to_owned();
                },
                SolverRuntimeMode::Pairwise => {
                    summary.pairwise_ticks = summary.pairwise_ticks + 1;
                    summary.last_solver_mode = "pairwise".to_owned();
                },
            }
            self.tick = self.tick + 1;
            t += 1;
        }
        let wall_end = wall_clock_micros();
        summary.step_wall_time_micros = wall_end.saturating_sub(wall_start);
        if summary.ticks_applied > 0 {
            summary.average_tick_micros = summary.step_wall_time_micros / (
            summary.ticks_applied as u64);
        }
        check_all_finite(&self.bodies)?;
        summary.final_tick = self.tick;
        summary.sim_time_bits = self.sim_time_bits;
        Ok(summary)
    }
}

/// Every body's position and velocity encode finite doubles.
pub open spec fn all_finite(s: Seq<Body>) -> bool {
    forall|i: int|
        0 <= i < s.len() ==> (#[trigger] s[i]).position.finite() && s[i].velocity.finite()
}

/// `e` is the instability error for the first body of `s` whose position or
/// velocity is not finite.
pub open spec fn is_instability_error(e: EngineError, s: Seq<Body>) -> bool {
    exists|i: int|
        {
            &&& 0 <= i < s.len()
            &&& !((#[trigger] s[i]).position.finite() && s[i].velocity.finite())
            &&& forall|k: int|
                0 <= k < i ==> ((#[trigger] s[k]).position.finite() && s[k].velocity.finite())
            &&& e matches EngineError::NumericalInstability(m) && m@ == "body '"@ + s[i].id@
                + "' produced non-finite values after stepping"@
        }
}

/// Scans every body once and reports the first non-finite one.
fn check_all_finite(bodies: &Vec<Body>) -> (r: Result<(), EngineError>)
    ensures
        r is Ok <==> all_finite(bodies@),
        r matches Err(e) ==> is_instability_error(e, bodies@) && e is NumericalInstability,
{
    let n = bodies.len();
    let mut i: usize = 0;
    while i < n
        invariant
            i <= n,
            n == bodies@.len(),
            forall|k: int|
                0 <= k < i ==> ((#[trigger] bodies@[k]).position.finite()
                    && bodies@[k].velocity.finite()),
        decreases n - i,
    {
        if !(bodies[i].position.is_finite() && bodies[i].velocity.is_finite()) {
            return Err(
                EngineError::NumericalInstability(
                    body_msg(&bodies[i].id, "' produced non-finite values after stepping"),
                ),
            );
        }
        i += 1;
    }
    Ok(())
}

/// Drops the non-alive bodies, preserving the relative order of the
/// survivors.
pub fn compact_alive(v: Vec<Body>) -> (r: Vec<Body>)
    ensures
        r@ == v@.filter(|b: Body| b.alive),
{
    let mut out: Vec<Body> = Vec::new();
    let mut i: usize = 0;
    while i < v.len()
        invariant
            i <= v@.len(),
            out@ == v@.take(i as int).filter(|b: Body| b.alive),
        decreases v@.len() - i,
    {
        proof {
            lemma_filter_take_step(v@, |b: Body| b.alive, i as int);
        }
        if v[i].alive {
            out.push(v[i].duplicate());
        }
        i += 1;
    }
    proof {
        assert(v@.take(v@.len() as int) =~= v@);
    }
    out
}

/// Two populations that agree on their ids, index by index, are equally
/// free of duplicates.
pub proof fn lemma_unique_ids_pointwise(s1: Seq<Body>, s2: Seq<Body>)
    requires
        s1.len() == s2.len(),
        forall|i: int| 0 <= i < s1.len() ==> (#[trigger] s2[i]).id@ == s1[i].id@,
        unique_ids(s1),
    ensures
        unique_ids(s2),
{
    assert forall|a: int, b: int| 0 <= a < b < s2.len() implies s2[a].id@ != s2[b].id@ by {
        assert(s1[a].id@ != s1[b].id@);
    }
}

/// The population after merge compaction: the alive bodies, in order.
pub open spec fn compacted(s: Seq<Body>) -> Seq<Body> {
    s.filter(|b: Body| b.alive)
}

/// Compacting away the non-alive bodies preserves the uniqueness of ids;
/// every surviving id was already present.
pub proof fn lemma_compact_unique_ids(s: Seq<Body>)
    requires
        unique_ids(s),
    ensures
        unique_ids(compacted(s)),
        forall|k: int|
            0 <= k < compacted(s).len() ==> contains_id(s, (#[trigger] compacted(s)[k]).id@),
    decreases s.len(),
{
    reveal(Seq::filter);
    let p = |b: Body| b.alive;
    if s.len() > 0 {
        let dl = s.drop_last();
        assert(unique_ids(dl)) by {
            assert forall|a: int, b: int| 0 <= a < b < dl.len() implies dl[a].id@
                != dl[b].id@ by {
                assert(unique_ids(s));
                assert(dl[a] == s[a]);
                assert(dl[b] == s[b]);
                assert(s[a].id@ != s[b].id@);
            }
        }
        lemma_compact_unique_ids(dl);
        assert(s.last() == s[s.len() - 1]);
        assert forall|k: int|
            0 <= k < compacted(s).len() implies contains_id(
            s,
            (#[trigger] compacted(s)[k]).id@,
        ) by {
            assert(compacted(s) == s.filter(p));
            assert(compacted(dl) == dl.filter(p));
            if p(s.last()) && k == compacted(s).len() - 1 {
                assert(s.filter(p)[k] == s.last());
                assert(s[s.len() - 1].id@ == s.filter(p)[k].id@);
            } else {
                assert(s.filter(p)[k] == dl.filter(p)[k]);
                assert(contains_id(dl, (compacted(dl)[k]).id@));
                let l = id_index(dl, dl.filter(p)[k].id@);
                assert(contains_id(dl, dl.filter(p)[k].id@));
                assert(0 <= l < dl.len() && dl[l].id@ == dl.filter(p)[k].id@);
                assert(dl[l] == s[l]);
                assert(s[l].id@ == s.filter(p)[k].id@);
            }
        }
        assert forall|x: int, y: int|
            0 <= x < y < s.filter(p).len() implies s.filter(p)[x].id@ != s.filter(
            p,
        )[y].id@ by {
            if p(s.last()) && y == s.filter(p).len() - 1 {
                assert(s.filter(p)[x] == dl.filter(p)[x]);
                assert(contains_id(dl, dl.filter(p)[x].id@));
                let l = id_index(dl, dl.filter(p)[x].id@);
                assert(0 <= l < dl.len() && dl[l].id@ == dl.filter(p)[x].id@);
                assert(unique_ids(s));
                assert(s[l].id@ != s[s.len() - 1].id@);
                assert(s.filter(p)[y] == s.last());
            } else {
                assert(s.filter(p)[x] == dl.filter(p)[x]);
                assert(s.filter(p)[y] == dl.filter(p)[y]);
                assert(unique_ids(dl.filter(p)));
                assert(dl.filter(p)[x].id@ != dl.filter(p)[y].id@);
            }
        }
    }
}

/// What one tick of a caller-supplied physics kernel hands back: the stepped
/// population, the accumulated simulated time, the collision bookkeeping,
/// and the error that aborted the tick, if any.
pub struct TickOutcome {
    pub bodies: Vec<Body>,
    pub sim_time_after_bits: u64,
    pub stats: CollisionStats,
    pub error: Option<EngineError>,
}

/// The structural obligations of a physics kernel, whatever arithmetic it
/// performs: the population neither grows nor is reordered, ids never
/// change, liveness only flips from alive to not-alive, a tick that reports
/// no collision and no merge leaves liveness untouched, the only error a
/// tick may raise is numerical instability, and a tick run with collisions
/// ignored reports no events.
pub open spec fn kernel_tick_ok(cfg: EngineConfig, before: Seq<Body>, out: TickOutcome) -> bool {
    &&& out.bodies@.len() == before.len()
    &&& forall|i: int| 0 <= i < before.len() ==> (#[trigger] out.bodies@[i]).id@ == before[i].id@
    &&& forall|i: int|
        0 <= i < before.len() ==> ((#[trigger] out.bodies@[i]).alive ==> before[i].alive)
    &&& (out.error is None && out.stats.collisions == 0 && out.stats.merges == 0
        ==> forall|i: int|
        0 <= i < before.len() ==> (#[trigger] out.bodies@[i]).alive == before[i].alive)
    &&& (out.error matches Some(e) ==> e is NumericalInstability)
    &&& (cfg.collision_mode is Ignore ==> out.stats.collisions == 0 && out.stats.merges == 0)
}

/// Every id of `s` already names a body of `base`.
pub open spec fn ids_preserved(s: Seq<Body>, base: Seq<Body>) -> bool {
    forall|k: int| 0 <= k < s.len() ==> contains_id(base, (#[trigger] s[k]).id@)
}

/// `s` is the snapshot of the engine state `e`: schema "1.0", the sentinel
/// timestamp, `e`'s tick and simulated time, the digest of `e`'s
/// configuration, and `e`'s bodies.
pub open spec fn snapshot_of(e: SimulationEngine, s: Snapshot) -> bool {
    &&& s.schema_version@ == "1.0"@
    &&& s.created_at@ == "1970-01-01T00:00:00Z"@
    &&& s.tick == e.tick
    &&& s.sim_time_bits == e.sim_time_bits
    &&& s.config_hash@ == hex16(fnv1a64(digest_bytes(e.config)))
    &&& s.bodies@ == e.bodies@
}

/// Snapshots are deterministic: two engines in the same observable state —
/// whatever sequence of operations brought each of them there — yield
/// snapshots that agree on every field.  `snapshot_of` pins every snapshot
/// field to the state alone: the timestamp is the fixed sentinel and the
/// digest is a fixed function of the configuration, so no wall clock and no
/// per-process hash seed can leak in.
pub proof fn lemma_snapshot_deterministic(
    e1: SimulationEngine,
    e2: SimulationEngine,
    s1: Snapshot,
    s2: Snapshot,
)
    requires
        e1.tick == e2.tick,
        e1.sim_time_bits == e2.sim_time_bits,
        e1.config == e2.config,
        e1.bodies@ == e2.bodies@,
        snapshot_of(e1, s1),
        snapshot_of(e2, s2),
    ensures
        s1.schema_version@ == s2.schema_version@,
        s1.created_at@ == s2.created_at@,
        s1.tick == s2.tick,
        s1.sim_time_bits == s2.sim_time_bits,
        s1.config_hash@ == s2.config_hash@,
        s1.bodies@ == s2.bodies@,
{
}

/// Everything but the body list is untouched.
pub open spec fn non_body_state_preserved(pre: SimulationEngine, post: SimulationEngine) -> bool {
    &&& post.config == pre.config
    &&& post.tick == pre.tick
    &&& post.sim_time_bits == pre.sim_time_bits
}

/// The exact outcome of `create_body`.
pub open spec fn create_result(
    pre: SimulationEngine,
    post: SimulationEngine,
    body: Body,
    r: Result<(), EngineError>,
) -> bool {
    &&& non_body_state_preserved(pre, post)
    &&& (r is Ok <==> body.valid() && !contains_id(pre.bodies@, body.id@))
    &&& (r is Ok ==> post.bodies@ == pre.bodies@.push(body))
    &&& (!body.valid() ==> post == pre && (r matches Err(e) && is_body_error(e, body)))
    &&& (body.valid() && contains_id(pre.bodies@, body.id@) ==> post == pre && (r matches Err(e)
        && e matches EngineError::DuplicateBodyId(m) && m@ == body.id@))
}

/// The exact outcome of `update_body`.
pub open spec fn update_result(
    pre: SimulationEngine,
    post: SimulationEngine,
    update: BodyUpdate,
    r: Result<(), EngineError>,
) -> bool {
    &&& non_body_state_preserved(pre, post)
    &&& (!contains_id(pre.bodies@, update.id@) ==> post == pre && (r matches Err(e)
        && e matches EngineError::BodyNotFound(m) && m@ == update.id@))
    &&& (contains_id(pre.bodies@, update.id@) ==> ({
        let i = id_index(pre.bodies@, update.id@);
        let p = patched(pre.bodies@[i], update);
        &&& post.bodies@ == pre.bodies@.update(i, p)
        &&& (r is Ok <==> p.valid())
        &&& (!p.valid() ==> (r matches Err(e) && is_body_error(e, p)))
    }))
}

/// The exact outcome of `delete_body`.  With unique ids the deleted body is
/// the one at `id_index`; the order of the others is preserved.
pub open spec fn delete_result(
    pre: SimulationEngine,
    post: SimulationEngine,
    id: Seq<char>,
    r: Result<(), EngineError>,
) -> bool {
    &&& non_body_state_preserved(pre, post)
    &&& (r is Ok <==> contains_id(pre.bodies@, id))
    &&& (r is Ok ==> ({
        let i = id_index(pre.bodies@, id);
        post.bodies@ == pre.bodies@.take(i) + pre.bodies@.skip(i + 1)
    }))
    &&& (!contains_id(pre.bodies@, id) ==> post == pre && (r matches Err(e)
        && e matches EngineError::BodyNotFound(m) && m@ == id))
}

} // verus!
