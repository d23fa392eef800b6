// The engine's own answers (whether it accepted a brick, a link, a rule)
// are handed to the graph the way a caller hands them after the call.
use packetgraph::brick::Type;
use packetgraph::error::Error;
use packetgraph::table::BrickInfo;
use packetgraph::{Dpdk, Graph, Side};

fn s(x: &str) -> String {
    x.to_string()
}

/// The engine after a successful start, which a graph needs.
fn engine() -> Dpdk {
    let mut d = Dpdk::new();
    d.start_done(0).unwrap();
    d
}

/// An error into which the engine reported a failure.
fn engine_failure() -> Error {
    let mut e = Error::new();
    e.record(true);
    e
}

/// What the engine reports after a call that went well.
fn engine_success() -> Error {
    Error::new()
}

#[test]
fn lib_link_unlink() {
    let mut g = Graph::new(s("graph"), &engine());
    g.nop_new(s("nop1"), 1, Ok(())).expect("nop1 creation ok");
    g.nop_new(s("nop2"), 2, Ok(())).expect("nop2 creation ok");
    // The engine refuses a second brick named nop2.
    assert!(g.nop_new(s("nop2"), 3, Err(engine_failure())).is_err());
    let (w, e) = g.link(s("nop1"), s("nop2")).expect("link [nop1]--[nop2] ok");
    assert_eq!((w, e), (1, 2));
    engine_success().into_result().expect("link [nop1]--[nop2] ok");
    assert!(g.link(s("?"), s("nop2")).is_err());
    engine_success().check_code(0).expect("poll ok");
    let (w, e) = g.unlink(s("nop1"), s("nop2")).expect("unlink [nop1]--[nop2] ok");
    assert_eq!((w, e), (1, 2));
    engine_success().into_result().expect("unlink [nop1]--[nop2] ok");
    g.link(s("nop1"), s("nop2")).expect("link [nop1]--[nop2] ok");
    engine_success().into_result().expect("link [nop1]--[nop2] ok");
    // Both bricks exist: the engine answers that there is no such edge.
    let (w, e) = g.unlink(s("nop2"), s("nop1")).unwrap();
    assert_eq!((w, e), (2, 1));
    assert!(engine_failure().into_result().is_err());
    let (w, e) = g.unlink(s("nop2"), s("nop2")).unwrap();
    assert_eq!((w, e), (2, 2));
    assert!(engine_failure().into_result().is_err());
}

#[test]
fn lib_poll() {
    let mut g = Graph::new(s("graph"), &engine());
    g.tap_new(s("tap1"), 1, Ok(())).unwrap();
    g.fw_new(s("fw"), 2, Ok(())).unwrap();
    let rule = g.fw_rule_add(s("fw"), s("src host 10::1"), Side::WEST).unwrap();
    assert_eq!(rule.brick, 2);
    assert_eq!(rule.rule, "src host 10::1");
    assert_eq!(rule.side, Side::WEST);
    engine_success().into_result().unwrap();
    g.tap_new(s("tap2"), 3, Ok(())).unwrap();
    assert_eq!(g.link(s("tap1"), s("fw")).unwrap(), (1, 2));
    engine_success().into_result().unwrap();
    assert_eq!(g.link(s("fw"), s("tap2")).unwrap(), (2, 3));
    engine_success().into_result().unwrap();
    // The engine refuses a second edge on a side that has one.
    g.link(s("fw"), s("tap2")).unwrap();
    assert!(engine_failure().into_result().is_err());
    g.link(s("tap2"), s("fw")).unwrap();
    assert!(engine_failure().into_result().is_err());
    for _ in 0..100 {
        engine_success().check_code(0).expect("poll ok");
    }
}

#[test]
fn firewall() {
    let mut g = Graph::new(s("graph"), &engine());
    g.fw_new(s("fw"), 1, Ok(())).unwrap();
    g.nop_new(s("nop"), 2, Ok(())).unwrap();
    assert!(g.fw_rule_add(s("nop"), s("c host 10::1"), Side::WEST).is_err());
    g.fw_rule_add(s("fw"), s("src host 10::1"), Side::WEST).unwrap();
    engine_success().into_result().unwrap();
    g.fw_rule_add(s("fw"), s("src host 10::1"), Side::WEST).unwrap();
    engine_success().into_result().unwrap();
    g.fw_rule_add(s("fw"), s("src host 10::2"), Side::EAST).unwrap();
    engine_success().into_result().unwrap();
    assert!(g.fw_rule_add(s("invalid brick"), s("src host 10::2"), Side::EAST).is_err());
    // The engine refuses a rule it cannot parse.
    g.fw_rule_add(s("fw"), s("invalid rule"), Side::WEST).unwrap();
    assert!(engine_failure().into_result().is_err());
    assert_eq!(g.fw_flush(s("fw")).unwrap(), 1);
    assert_eq!(g.fw_flush(s("fw")).unwrap(), 1);
    assert!(g.fw_flush(s("nop")).is_err());
}

#[test]
fn new_graph_is_empty() {
    let g = Graph::new(s("graph"), &engine());
    assert_eq!(g.name, "graph");
    assert!(g.brick_names().is_empty());
    assert_eq!(g.get(&s("nop")), None);
}

#[test]
fn registered_brick_is_found() {
    let mut g = Graph::new(s("g"), &engine());
    assert_eq!(g.tap_new(s("t"), 10, Ok(())).unwrap(), None);
    assert_eq!(g.nop_new(s("n"), 11, Ok(())).unwrap(), None);
    assert_eq!(g.get(&s("t")), Some(BrickInfo { kind: Type::TAP, brick: 10 }));
    assert_eq!(g.get(&s("n")), Some(BrickInfo { kind: Type::NOP, brick: 11 }));
    assert_eq!(g.get(&s("x")), None);
}

#[test]
fn registration_under_a_taken_name_replaces() {
    let mut g = Graph::new(s("g"), &engine());
    g.nop_new(s("b"), 1, Ok(())).unwrap();
    g.tap_new(s("c"), 2, Ok(())).unwrap();
    assert_eq!(g.fw_new(s("b"), 5, Ok(())).unwrap(), Some(1));
    assert_eq!(g.get(&s("b")), Some(BrickInfo { kind: Type::FIREWALL, brick: 5 }));
    assert_eq!(g.get(&s("c")), Some(BrickInfo { kind: Type::TAP, brick: 2 }));
    let names = g.brick_names();
    assert_eq!(names, vec![s("b"), s("c")]);
}

#[test]
fn refused_registration_leaves_graph_unchanged() {
    let mut g = Graph::new(s("g"), &engine());
    g.nop_new(s("a"), 1, Ok(())).unwrap();
    let r = g.tap_new(s("b"), 2, Err(engine_failure()));
    let mut e = r.unwrap_err();
    assert!(e.is_set());
    assert_eq!(g.get(&s("b")), None);
    assert_eq!(g.brick_names(), vec![s("a")]);
}

#[test]
fn link_refusal_comments() {
    let mut g = Graph::new(s("g"), &engine());
    g.nop_new(s("a"), 1, Ok(())).unwrap();
    let mut e = g.link(s("x"), s("y")).unwrap_err();
    assert_eq!(e.comment(), "West brick x does not exists in graph");
    assert!(!e.is_set());
    let e = g.link(s("a"), s("y")).unwrap_err();
    assert_eq!(e.comment(), "East brick y does not exists in graph");
    let e = g.unlink(s("x"), s("a")).unwrap_err();
    assert_eq!(e.comment(), "West brick x does not exists in graph");
    let e = g.unlink(s("a"), s("z")).unwrap_err();
    assert_eq!(e.comment(), "East brick z does not exists in graph");
}

#[test]
fn firewall_refusal_comments() {
    let mut g = Graph::new(s("g"), &engine());
    g.tap_new(s("t"), 1, Ok(())).unwrap();
    let mut e = g.fw_rule_add(s("f"), s("src host 10::1"), Side::EAST).unwrap_err();
    assert_eq!(e.comment(), "Brick f does not exists in graph");
    assert!(!e.is_set());
    let e = g.fw_rule_add(s("t"), s("src host 10::1"), Side::EAST).unwrap_err();
    assert_eq!(e.comment(), "Brick t is not a firewall");
    let e = g.fw_flush(s("f")).unwrap_err();
    assert_eq!(e.comment(), "Brick f does not exists in graph");
    let e = g.fw_flush(s("t")).unwrap_err();
    assert_eq!(e.comment(), "Brick t is not a firewall");
}

#[test]
fn firewall_rule_handed_unchanged() {
    let mut g = Graph::new(s("g"), &engine());
    g.fw_new(s("f"), 42, Ok(())).unwrap();
    let r = g.fw_rule_add(s("f"), s("dst port 80"), Side::EAST).unwrap();
    assert_eq!(r.brick, 42);
    assert_eq!(r.rule, "dst port 80");
    assert_eq!(r.side, Side::EAST);
}
