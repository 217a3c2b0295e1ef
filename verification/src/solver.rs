//! Per-step selection between the exact pairwise solver and the Barnes-Hut
//! tree solver.
//!
//! The selection is a pure function of the configured mode, the configured
//! threshold and the number of alive bodies; it never looks at a coordinate.

use vstd::prelude::*;

use crate::body::Body;
use crate::config::{EngineConfig, GravitySolver};

verus! {

/// The solver a concrete tick actually runs.
#[derive(Clone, Copy, Debug, PartialEq, Eq, Structural)]
pub enum SolverRuntimeMode {
    Pairwise,
    BarnesHut,
}

/// The solver selection rule: `Pairwise` is always exact; `BarnesHut` uses
/// the tree only when at least two bodies are alive; `Auto` uses the tree
/// once the alive count reaches the threshold.
pub open spec fn spec_runtime_mode(
    solver: GravitySolver,
    alive_count: int,
    threshold: int,
) -> SolverRuntimeMode {
    match solver {
        GravitySolver::Pairwise => SolverRuntimeMode::Pairwise,
        GravitySolver::BarnesHut => if alive_count >= 2 {
            SolverRuntimeMode::BarnesHut
        } else {
            SolverRuntimeMode::Pairwise
        },
        GravitySolver::Auto => if alive_count >= threshold {
            SolverRuntimeMode::BarnesHut
        } else {
            SolverRuntimeMode::Pairwise
        },
    }
}

/// Exec form of the selection rule.
pub fn choose_runtime_mode(alive_count: usize, config: &EngineConfig) -> (r: SolverRuntimeMode)
    ensures
        r == spec_runtime_mode(
            config.gravity_solver,
            alive_count as int,
            config.barnes_hut_threshold as int,
        ),
{
    match config.gravity_solver {
        GravitySolver::Pairwise => SolverRuntimeMode::Pairwise,
        GravitySolver::BarnesHut => {
            if alive_count >= 2 {
                SolverRuntimeMode::BarnesHut
            } else {
                SolverRuntimeMode::Pairwise
            }
        },
        GravitySolver::Auto => {
            if alive_count >= config.barnes_hut_threshold {
                SolverRuntimeMode::BarnesHut
            } else {
                SolverRuntimeMode::Pairwise
            }
        },
    }
}

/// The number of alive bodies in `s`.
pub open spec fn alive_count(s: Seq<Body>) -> int {
    s.filter(|b: Body| b.alive).len() as int
}

/// Exec count of the alive bodies.
pub fn count_alive(bodies: &Vec<Body>) -> (r: usize)
    ensures
        r == alive_count(bodies@),
{
    let mut c: usize = 0;
    let mut i: usize = 0;
    while i < bodies.len()
        invariant
            i <= bodies@.len(),
            c == alive_count(bodies@.take(i as int)),
            c <= i,
        decreases bodies@.len() - i,
    {
        proof {
            lemma_filter_take_step(bodies@, |b: Body| b.alive, i as int);
        }
        if bodies[i].alive {
            c = c + 1;
        }
        i += 1;
    }
    proof {
        assert(bodies@.take(bodies@.len() as int) =~= bodies@);
    }
    c
}

/// The ids of the alive bodies of `s`, in storage order.
pub open spec fn alive_ids(s: Seq<Body>) -> Seq<Seq<char>>
    decreases s.len(),
{
    if s.len() == 0 {
        Seq::empty()
    } else if s.last().alive {
        alive_ids(s.drop_last()).push(s.last().id@)
    } else {
        alive_ids(s.drop_last())
    }
}

/// `alive_ids` depends only on the id and liveness columns: two populations
/// that agree on both, index by index, have the same alive ids.
pub proof fn lemma_alive_ids_pointwise(s1: Seq<Body>, s2: Seq<Body>)
    requires
        s1.len() == s2.len(),
        forall|i: int|
            0 <= i < s1.len() ==> (#[trigger] s1[i]).id@ == s2[i].id@ && s1[i].alive
                == s2[i].alive,
    ensures
        alive_ids(s1) == alive_ids(s2),
    decreases s1.len(),
{
    if s1.len() > 0 {
        let d1 = s1.drop_last();
        let d2 = s2.drop_last();
        assert forall|i: int|
            0 <= i < d1.len() implies (#[trigger] d1[i]).id@ == d2[i].id@ && d1[i].alive
            == d2[i].alive by {
            assert(d1[i] == s1[i]);
            assert(d2[i] == s2[i]);
        }
        lemma_alive_ids_pointwise(d1, d2);
        assert(s1.last() == s1[s1.len() - 1]);
        assert(s2.last() == s2[s2.len() - 1]);
    }
}

/// Compacting away the non-alive bodies does not change the alive ids.
pub proof fn lemma_alive_ids_compact(s: Seq<Body>)
    ensures
        alive_ids(s.filter(|b: Body| b.alive)) == alive_ids(s),
    decreases s.len(),
{
    reveal(Seq::filter);
    let p = |b: Body| b.alive;
    if s.len() == 0 {
    } else {
        let dl = s.drop_last();
        lemma_alive_ids_compact(dl);
        if s.last().alive {
            let f = dl.filter(p).push(s.last());
            assert(s.filter(p) == f);
            assert(f.drop_last() =~= dl.filter(p));
            assert(f.last() == s.last());
        } else {
            assert(s.filter(p) == dl.filter(p));
        }
    }
}

/// There are as many alive ids as alive bodies.
pub proof fn lemma_alive_ids_len(s: Seq<Body>)
    ensures
        alive_ids(s).len() == alive_count(s),
    decreases s.len(),
{
    reveal(Seq::filter);
    if s.len() > 0 {
        lemma_alive_ids_len(s.drop_last());
    }
}

/// Flipping liveness only from alive to not-alive cannot increase the alive
/// count.
pub proof fn lemma_alive_count_monotone(s1: Seq<Body>, s2: Seq<Body>)
    requires
        s1.len() == s2.len(),
        forall|i: int| 0 <= i < s1.len() ==> ((#[trigger] s2[i]).alive ==> s1[i].alive),
    ensures
        alive_count(s2) <= alive_count(s1),
    decreases s1.len(),
{
    reveal(Seq::filter);
    if s1.len() > 0 {
        let d1 = s1.drop_last();
        let d2 = s2.drop_last();
        assert forall|i: int| 0 <= i < d1.len() implies ((#[trigger] d2[i]).alive
            ==> d1[i].alive) by {
            assert(d1[i] == s1[i]);
            assert(d2[i] == s2[i]);
        }
        lemma_alive_count_monotone(d1, d2);
        assert(s1.last() == s1[s1.len() - 1]);
        assert(s2.last() == s2[s2.len() - 1]);
    }
}

/// Compacting away the non-alive bodies does not change the alive count.
pub proof fn lemma_alive_count_compact(s: Seq<Body>)
    ensures
        alive_count(s.filter(|b: Body| b.alive)) == alive_count(s),
{
    lemma_alive_ids_compact(s);
    lemma_alive_ids_len(s);
    lemma_alive_ids_len(s.filter(|b: Body| b.alive));
}

/// One step of the recursion behind `Seq::filter`, phrased over prefixes:
/// filtering the first `i + 1` elements extends filtering the first `i`
/// elements with `s[i]` exactly when the predicate accepts it.
pub proof fn lemma_filter_take_step<A>(s: Seq<A>, pred: spec_fn(A) -> bool, i: int)
    requires
        0 <= i < s.len(),
    ensures
        s.take(i + 1).filter(pred) == if pred(s[i]) {
            s.take(i).filter(pred).push(s[i])
        } else {
            s.take(i).filter(pred)
        },
{
    reveal(Seq::filter);
    assert(s.take(i + 1).drop_last() =~= s.take(i));
    assert(s.take(i + 1).last() == s[i]);
}

} // verus!
