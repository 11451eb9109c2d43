use particle_sandbox::diagnostics::DiagnosticsAggregator;

const MILLI: u64 = 1_000_000;

#[test]
fn diagnostics_refuses_zero_period() {
    assert!(DiagnosticsAggregator::new(0).is_none());
}

#[test]
fn diagnostics_samples_once_per_period() {
    let mut aggregator = DiagnosticsAggregator::new(50 * MILLI).unwrap();
    let mut sampled = Vec::new();
    for tick in 0..6usize {
        let reading = aggregator.sample(20 * MILLI, Some(60.0f64), tick);
        sampled.push(reading.map(|r| r.particle_count));
    }
    // elapsed after each tick: 20, 40, 10, 30, 0, 20
    assert_eq!(sampled, vec![None, None, Some(2), None, Some(4), None]);
}

#[test]
fn diagnostics_hands_the_counters_on_unchanged() {
    let mut aggregator = DiagnosticsAggregator::new(50 * MILLI).unwrap();
    let reading = aggregator.sample(50 * MILLI, Some(143.25f64), 17).unwrap();
    assert_eq!(reading.frame_rate, Some(143.25));
    assert_eq!(reading.particle_count, 17);
}

#[test]
fn diagnostics_reports_the_count_without_a_frame_rate() {
    let mut aggregator = DiagnosticsAggregator::new(50 * MILLI).unwrap();
    let reading = aggregator.sample(2_000 * MILLI, None::<f64>, 0).unwrap();
    assert_eq!(reading.frame_rate, None);
    assert_eq!(reading.particle_count, 0);
}
