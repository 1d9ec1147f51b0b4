use backend_supervisor::ports::{last_port, PortScan, ScanAction, SCAN_WIDTH};

fn allocate(base: u16, busy: &[u16]) -> (u16, u32) {
    let mut scan = PortScan::new(base);
    let mut probes: u32 = 0;
    loop {
        match scan.pending() {
            ScanAction::Done(port) => return (port, probes),
            ScanAction::Probe(port) => {
                probes += 1;
                scan.step(busy.contains(&port));
            }
        }
    }
}

#[test]
fn free_range_allocates_base() {
    assert_eq!(allocate(37999, &[]), (37999, 1));
    assert_eq!(allocate(0, &[]), (0, 1));
    assert_eq!(allocate(65535, &[]), (65535, 1));
}

#[test]
fn listener_outside_range_is_ignored() {
    assert_eq!(allocate(8000, &[7999, 8020, 9000]).0, 8000);
}

#[test]
fn taken_prefix_is_skipped() {
    assert_eq!(allocate(8000, &[8000]), (8001, 2));
    assert_eq!(allocate(8000, &[8000, 8001, 8002]), (8003, 4));
    let busy: Vec<u16> = (8000..8019).collect();
    assert_eq!(allocate(8000, &busy), (8019, 20));
}

#[test]
fn first_gap_wins() {
    assert_eq!(allocate(8000, &[8000, 8001, 8003, 8004]).0, 8002);
}

#[test]
fn full_range_falls_back_to_base() {
    let busy: Vec<u16> = (8000..8020).collect();
    assert_eq!(allocate(8000, &busy), (8000, 20));
    let wider: Vec<u16> = (8000..8100).collect();
    assert_eq!(allocate(8000, &wider), (8000, 20));
}

#[test]
fn scan_stops_at_top_of_port_range() {
    assert_eq!(last_port(65530), 65535);
    let busy: Vec<u16> = (65530..=65535).collect();
    assert_eq!(allocate(65530, &busy), (65530, 6));
    assert_eq!(allocate(65530, &[65530, 65531]), (65532, 3));
    assert_eq!(allocate(65535, &[65535]), (65535, 1));
}

#[test]
fn last_candidate_is_nineteen_above_base() {
    assert_eq!(SCAN_WIDTH, 20);
    assert_eq!(last_port(0), 19);
    assert_eq!(last_port(37999), 38018);
    assert_eq!(last_port(65516), 65535);
    assert_eq!(last_port(65517), 65535);
}

#[test]
fn settled_scan_ignores_further_results() {
    let mut scan = PortScan::new(9000);
    assert_eq!(scan.pending(), ScanAction::Probe(9000));
    scan.step(true);
    assert_eq!(scan.pending(), ScanAction::Probe(9001));
    scan.step(false);
    assert_eq!(scan.pending(), ScanAction::Done(9001));
    scan.step(true);
    scan.step(false);
    assert_eq!(scan.pending(), ScanAction::Done(9001));
}
