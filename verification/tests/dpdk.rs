use packetgraph::{set_dpdk_params, Dpdk};

#[test]
fn default_params_start_once() {
    let mut d = Dpdk::new();
    assert_eq!(d.params(), "-c1 -n1 --no-huge --no-shconf --lcores 0,1 -l 0,1");
    assert!(!d.started());
    assert_eq!(d.start_request(), Some("-c1 -n1 --no-huge --no-shconf --lcores 0,1 -l 0,1".to_string()));
    assert!(d.start_done(0).is_ok());
    assert!(d.started());
    assert_eq!(d.start_request(), None);
    set_dpdk_params(&mut d, "-c3".to_string());
    assert_eq!(d.start_request(), None);
}

#[test]
fn start_uses_last_params() {
    let mut d = Dpdk::new();
    set_dpdk_params(&mut d, "-c1".to_string());
    set_dpdk_params(&mut d, "-c2 -n4".to_string());
    assert_eq!(d.start_request(), Some("-c2 -n4".to_string()));
}

#[test]
fn failed_start_is_reported_and_retried() {
    let mut d = Dpdk::new();
    set_dpdk_params(&mut d, "--bad".to_string());
    let msg = d.start_done(-1).unwrap_err();
    assert_eq!(msg, "Cannot init packetgraph with dpdk parameters --bad, adjust with set_dpdk_params()");
    assert!(!d.started());
    assert_eq!(d.start_request(), Some("--bad".to_string()));
}
