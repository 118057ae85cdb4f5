//! The life of one sample ray, as a state machine.
//!
//! A ray starts tracing with no hits. At each step the caller says whether
//! the ray's throughput has fallen to zero and, if not, whether the ray hit a
//! surface. The ray stops when it is absorbed, when it misses, or once it has
//! hit `max_bounces + 1` surfaces.
use vstd::prelude::*;

verus! {

/// Where a sample ray stands.
#[derive(Clone, Copy, Debug, PartialEq, Eq, Structural)]
pub enum TracePhase {
    /// The ray goes on; it has hit `hits` surfaces so far.
    Tracing { hits: usize },
    /// The ray hit nothing and left the scene.
    Missed,
    /// The ray's throughput is zero: no more light can reach the pixel.
    Absorbed,
    /// The ray has made all the bounces it may make.
    Exhausted,
}

/// The phase after one step of a ray that is tracing with `hits` hits so
/// far. A ray found `absorbed` stops before any hit test; otherwise `hit`
/// says whether the test found a surface.
pub open spec fn step(hits: nat, max_bounces: nat, absorbed: bool, hit: bool) -> TracePhase {
    if absorbed {
        TracePhase::Absorbed
    } else if !hit {
        TracePhase::Missed
    } else if hits >= max_bounces {
        TracePhase::Exhausted
    } else {
        TracePhase::Tracing { hits: (hits + 1) as usize }
    }
}

/// The phase that a fresh ray starts in.
pub fn start_trace() -> (r: TracePhase)
    ensures
        r == (TracePhase::Tracing { hits: 0 }),
{
    TracePhase::Tracing { hits: 0 }
}

/// One step of a ray that is tracing with `hits` hits so far.
pub fn next_phase(hits: usize, max_bounces: usize, absorbed: bool, hit: bool) -> (r: TracePhase)
    requires
        hits <= max_bounces,
    ensures
        r == step(hits as nat, max_bounces as nat, absorbed, hit),
        r matches TracePhase::Tracing { hits: h } ==> h == hits + 1 && h <= max_bounces,
{
    if absorbed {
        TracePhase::Absorbed
    } else if !hit {
        TracePhase::Missed
    } else if hits == max_bounces {
        TracePhase::Exhausted
    } else {
        TracePhase::Tracing { hits: hits + 1 }
    }
}

/// How many hit tests a ray in `phase` makes when nothing absorbs it and
/// the tests come out as `outcomes` say, until it stops or the outcomes run
/// out.
pub open spec fn tests_made(phase: TracePhase, max_bounces: nat, outcomes: Seq<bool>) -> nat
    decreases outcomes.len(),
{
    match phase {
        TracePhase::Tracing { hits } => {
            if outcomes.len() == 0 {
                0
            } else {
                1 + tests_made(
                    step(hits as nat, max_bounces, false, outcomes[0]),
                    max_bounces,
                    outcomes.drop_first(),
                )
            }
        },
        _ => 0,
    }
}

/// A ray that starts with `hits` hits makes at most `max_bounces + 1 - hits`
/// hit tests, whatever they find; a fresh ray makes at most
/// `max_bounces + 1`.
pub proof fn lemma_bounce_limit(hits: usize, max_bounces: usize, outcomes: Seq<bool>)
    requires
        hits <= max_bounces,
    ensures
        tests_made(TracePhase::Tracing { hits }, max_bounces as nat, outcomes) <= max_bounces + 1
            - hits,
    decreases outcomes.len(),
{
    if outcomes.len() > 0 {
        let next = step(hits as nat, max_bounces as nat, false, outcomes[0]);
        if let TracePhase::Tracing { hits: h } = next {
            assert(h == hits + 1);
            lemma_bounce_limit(h, max_bounces, outcomes.drop_first());
        } else {
            assert(tests_made(next, max_bounces as nat, outcomes.drop_first()) == 0);
        }
    }
}

} // verus!
