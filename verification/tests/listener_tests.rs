use hostmon::listener::{
    run_acquisition, PortSearch, ProbeStep, DEFAULT_PORT, MAX_PORT_ATTEMPTS,
};

#[test]
fn constants() {
    assert_eq!(DEFAULT_PORT, 9527);
    assert_eq!(MAX_PORT_ATTEMPTS, 100);
}

#[test]
fn machine_walks_ports_one_by_one() {
    let mut search = PortSearch::new(9527);
    assert_eq!(search.next_attempt(), ProbeStep::TryPort(9527));
    search.record_failure();
    assert_eq!(search.next_attempt(), ProbeStep::TryPort(9528));
    search.record_failure();
    search.record_failure();
    assert_eq!(search.next_attempt(), ProbeStep::TryPort(9530));
}

#[test]
fn machine_exhausts_after_budget() {
    let mut search = PortSearch::new(9527);
    for _ in 0..MAX_PORT_ATTEMPTS {
        assert!(matches!(search.next_attempt(), ProbeStep::TryPort(_)));
        search.record_failure();
    }
    assert_eq!(search.next_attempt(), ProbeStep::Exhausted);
}

#[test]
fn binds_first_free_port_after_occupied_run() {
    // Ports P..P+2 occupied, P+3 free: the bound port is exactly P+3.
    let free = vec![false, false, false, true];
    assert_eq!(run_acquisition(9527, &free), Some(9530));
}

#[test]
fn binds_start_port_when_free() {
    let free = vec![true];
    assert_eq!(run_acquisition(8080, &free), Some(8080));
}

#[test]
fn fails_when_every_port_in_budget_is_occupied() {
    let free = vec![false; MAX_PORT_ATTEMPTS as usize];
    assert_eq!(run_acquisition(9527, &free), None);
}

#[test]
fn fails_when_nothing_answers() {
    assert_eq!(run_acquisition(9527, &Vec::new()), None);
}

#[test]
fn a_port_beyond_the_budget_does_not_count() {
    let mut free = vec![false; MAX_PORT_ATTEMPTS as usize];
    free.push(true);
    assert_eq!(run_acquisition(9527, &free), None);
}

#[test]
fn skips_exactly_the_occupied_prefix() {
    let mut free = vec![false; 99];
    free.push(true);
    assert_eq!(run_acquisition(1000, &free), Some(1099));
}
