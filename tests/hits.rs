use rtx::hit::{closest_hit, hit_distance};

fn d(v: f64) -> Option<u64> {
    Some(v.to_bits())
}

#[test]
fn nearest_positive_distance_wins() {
    let ds = vec![d(4.0), None, d(2.5), d(7.0)];
    assert_eq!(closest_hit(&ds), Some(2));
}

#[test]
fn no_objects_means_no_hit() {
    assert_eq!(closest_hit(&vec![]), None);
    assert_eq!(closest_hit(&vec![None, None]), None);
}

#[test]
fn invalid_distances_are_ignored() {
    let ds = vec![
        d(-1.0),
        d(0.0),
        d(-0.0),
        d(f64::NAN),
        d(f64::INFINITY),
        d(f64::MIN_POSITIVE / 2.0),
        d(3.0),
    ];
    assert_eq!(closest_hit(&ds), Some(6));
    assert_eq!(closest_hit(&ds[..6].to_vec()), None);
}

#[test]
fn first_of_equal_distances_wins() {
    let ds = vec![d(5.0), d(1.0), d(1.0)];
    assert_eq!(closest_hit(&ds), Some(1));
}

#[test]
fn hit_distance_classes() {
    assert!(hit_distance(1.0f64.to_bits()));
    assert!(hit_distance(f64::MIN_POSITIVE.to_bits()));
    assert!(hit_distance(f64::MAX.to_bits()));
    assert!(!hit_distance(0.0f64.to_bits()));
    assert!(!hit_distance((-2.0f64).to_bits()));
    assert!(!hit_distance(f64::NAN.to_bits()));
    assert!(!hit_distance(f64::INFINITY.to_bits()));
    assert!(!hit_distance(1e-310f64.to_bits()));
}

#[test]
fn bit_order_matches_total_order() {
    let vals: [f64; 5] = [1e-300, 0.5, 1.0, 4.0, 1e300];
    for w in vals.windows(2) {
        assert_eq!(w[0].total_cmp(&w[1]), std::cmp::Ordering::Less);
        assert!(w[0].to_bits() < w[1].to_bits());
    }
}
