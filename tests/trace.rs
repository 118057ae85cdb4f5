use rtx::trace::{next_phase, start_trace, TracePhase};

#[test]
fn fresh_ray_is_tracing() {
    assert_eq!(start_trace(), TracePhase::Tracing { hits: 0 });
}

#[test]
fn absorbed_wins_over_hit() {
    assert_eq!(next_phase(0, 10, true, true), TracePhase::Absorbed);
    assert_eq!(next_phase(3, 10, true, false), TracePhase::Absorbed);
}

#[test]
fn miss_stops() {
    assert_eq!(next_phase(0, 10, false, false), TracePhase::Missed);
}

#[test]
fn hit_counts_up() {
    assert_eq!(next_phase(0, 10, false, true), TracePhase::Tracing { hits: 1 });
    assert_eq!(next_phase(9, 10, false, true), TracePhase::Tracing { hits: 10 });
}

#[test]
fn last_bounce_exhausts() {
    assert_eq!(next_phase(10, 10, false, true), TracePhase::Exhausted);
    assert_eq!(next_phase(0, 0, false, true), TracePhase::Exhausted);
    assert_eq!(next_phase(usize::MAX, usize::MAX, false, true), TracePhase::Exhausted);
}

#[test]
fn always_hitting_ray_makes_max_bounces_plus_one_tests() {
    for max_bounces in [0usize, 1, 5] {
        let mut phase = start_trace();
        let mut tests = 0usize;
        while let TracePhase::Tracing { hits } = phase {
            tests += 1;
            phase = next_phase(hits, max_bounces, false, true);
        }
        assert_eq!(tests, max_bounces + 1);
        assert_eq!(phase, TracePhase::Exhausted);
    }
}
