use port_blaster::engine::{
    classify, make_target, run_sweep, ConfigError, IpAddress, PortState, ScanTarget, Sweep,
};

fn localhost() -> IpAddress {
    IpAddress::V4(127, 0, 0, 1)
}

fn valid_target(start: u16, end: u16, timeout_ms: u64) -> ScanTarget {
    make_target(localhost(), start, end, timeout_ms).expect("configuration should be valid")
}

#[test]
fn valid_configuration_is_accepted_unchanged() {
    let t = valid_target(1, 1000, 1000);
    assert_eq!(t.ip, localhost());
    assert_eq!(t.start, 1);
    assert_eq!(t.end, 1000);
    assert_eq!(t.timeout_ms, 1000);
}

#[test]
fn inverted_range_is_rejected_before_any_probing() {
    let r = make_target(localhost(), 5000, 4990, 1000);
    assert_eq!(r, Err(ConfigError::InvalidRange));
}

#[test]
fn zero_timeout_is_rejected_before_any_probing() {
    let r = make_target(localhost(), 1, 1000, 0);
    assert_eq!(r, Err(ConfigError::InvalidTimeout));
}

#[test]
fn inverted_range_is_reported_before_zero_timeout() {
    let r = make_target(localhost(), 9, 8, 0);
    assert_eq!(r, Err(ConfigError::InvalidRange));
}

#[test]
fn config_errors_carry_fixed_messages() {
    assert_eq!(
        ConfigError::InvalidRange.message(),
        "end port must not be below start port"
    );
    assert_eq!(ConfigError::InvalidTimeout.message(), "timeout must be positive");
}

#[test]
fn completed_handshake_classifies_as_open_with_label() {
    let o = classify(80, true);
    assert_eq!(o.port, 80);
    assert_eq!(o.state, PortState::Open);
    assert_eq!(o.service.as_deref(), Some("HTTP"));
}

#[test]
fn failed_handshake_classifies_as_closed_without_label() {
    let o = classify(80, false);
    assert_eq!(o.port, 80);
    assert_eq!(o.state, PortState::ClosedFiltered);
    assert_eq!(o.service, None);
}

#[test]
fn open_port_without_catalog_entry_is_labelled_unknown() {
    let o = classify(12345, true);
    assert_eq!(o.state, PortState::Open);
    assert_eq!(o.service.as_deref(), Some("Unknown"));
}

#[test]
fn sweep_walks_the_range_in_ascending_order() {
    let t = valid_target(79, 82, 1000);
    let mut sweep = Sweep::new(t);
    let mut seen = Vec::new();
    while !sweep.done() {
        seen.push(sweep.next_port());
        sweep.record(false);
    }
    assert_eq!(seen, vec![79, 80, 81, 82]);
}

#[test]
fn local_listener_on_port_80_scenario() {
    // Ports 79..=82 against a host whose only listener is bound to port 80:
    // the handshake with port 80 completes, the rest are refused.
    let t = valid_target(79, 82, 1000);
    let connected = vec![false, true, false, false];
    let (outcomes, summary) = run_sweep(t, &connected, 12);

    assert_eq!(outcomes.len(), 4);
    assert_eq!(outcomes[0].port, 79);
    assert_eq!(outcomes[0].state, PortState::ClosedFiltered);
    assert_eq!(outcomes[0].service, None);
    assert_eq!(outcomes[1].port, 80);
    assert_eq!(outcomes[1].state, PortState::Open);
    assert_eq!(outcomes[1].service.as_deref(), Some("HTTP"));
    assert_eq!(outcomes[2].port, 81);
    assert_eq!(outcomes[2].state, PortState::ClosedFiltered);
    assert_eq!(outcomes[3].port, 82);
    assert_eq!(outcomes[3].state, PortState::ClosedFiltered);

    assert_eq!(summary.total, 4);
    assert_eq!(summary.open_count, 1);
    assert_eq!(summary.elapsed_ms, 12);
}

#[test]
fn listeners_on_both_80_and_81_scenario() {
    // The same range when port 81 also accepts: its outcome is Open with the
    // catalog's label for 81.
    let t = valid_target(79, 82, 1000);
    let connected = vec![false, true, true, false];
    let (outcomes, summary) = run_sweep(t, &connected, 30);

    assert_eq!(outcomes[2].port, 81);
    assert_eq!(outcomes[2].state, PortState::Open);
    assert_eq!(outcomes[2].service.as_deref(), Some("TOR"));
    assert_eq!(summary.total, 4);
    assert_eq!(summary.open_count, 2);
}

#[test]
fn every_port_gets_exactly_one_outcome_at_the_loop_index() {
    let t = valid_target(100, 131, 50);
    let connected: Vec<bool> = (0..32).map(|i| i % 3 == 0).collect();
    let (outcomes, _) = run_sweep(t, &connected, 0);
    assert_eq!(outcomes.len(), 32);
    for (i, o) in outcomes.iter().enumerate() {
        assert_eq!(o.port, 100 + i as u16);
    }
}

#[test]
fn summary_total_matches_the_range_size() {
    for (start, end) in [(1u16, 1u16), (1, 1000), (65535, 65535), (0, 999)] {
        let t = valid_target(start, end, 1);
        let size = (end - start + 1) as usize;
        let connected = vec![false; size];
        let (_, summary) = run_sweep(t, &connected, 0);
        assert_eq!(summary.total, (end - start + 1) as u32);
    }
}

#[test]
fn summary_open_count_matches_the_open_outcomes() {
    let t = valid_target(20, 29, 1);
    let connected = vec![true, false, true, true, false, false, true, false, true, true];
    let (outcomes, summary) = run_sweep(t, &connected, 0);
    let open = outcomes
        .iter()
        .filter(|o| o.state == PortState::Open)
        .count();
    assert_eq!(open, 6);
    assert_eq!(summary.open_count, 6);
}

#[test]
fn single_port_range_sweeps_one_port() {
    let t = valid_target(443, 443, 10);
    let connected = vec![true];
    let (outcomes, summary) = run_sweep(t, &connected, 1);
    assert_eq!(outcomes.len(), 1);
    assert_eq!(outcomes[0].port, 443);
    assert_eq!(outcomes[0].service.as_deref(), Some("HTTPS"));
    assert_eq!(summary.total, 1);
    assert_eq!(summary.open_count, 1);
}

#[test]
fn all_closed_sweep_has_zero_open_count() {
    let t = valid_target(1, 64, 1);
    let connected = vec![false; 64];
    let (outcomes, summary) = run_sweep(t, &connected, 5);
    assert_eq!(summary.open_count, 0);
    assert!(outcomes.iter().all(|o| o.state == PortState::ClosedFiltered));
    assert!(outcomes.iter().all(|o| o.service.is_none()));
}

#[test]
fn full_port_space_sweep_stays_consistent() {
    let t = valid_target(0, 65535, 1);
    let connected: Vec<bool> = (0..65536u32).map(|i| i % 1000 == 0).collect();
    let (outcomes, summary) = run_sweep(t, &connected, 99);
    assert_eq!(outcomes.len(), 65536);
    assert_eq!(summary.total, 65536);
    assert_eq!(summary.open_count, 66);
    assert_eq!(outcomes[65535].port, 65535);
}

#[test]
fn incremental_sweep_agrees_with_run_sweep() {
    let t = valid_target(5430, 5434, 200);
    let connected = vec![false, false, true, false, true];

    let mut sweep = Sweep::new(t);
    let mut k = 0;
    while !sweep.done() {
        sweep.record(connected[k]);
        k += 1;
    }
    let incremental = sweep.summary(77);

    let (outcomes, whole) = run_sweep(t, &connected, 77);
    assert_eq!(incremental, whole);
    assert_eq!(sweep.outcomes.len(), outcomes.len());
    assert_eq!(outcomes[2].service.as_deref(), Some("POSTGRESQL"));
    assert_eq!(whole.open_count, 2);
}
