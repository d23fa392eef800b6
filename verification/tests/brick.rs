use packetgraph::brick::{self, Brick, Type};
use packetgraph::error::Error;
use packetgraph::firewall::Firewall;
use packetgraph::nop::Nop;
use packetgraph::tap::Tap;

#[test]
fn brick_poll() {
    let tap1 = Tap::new("tap1".to_string(), 1);
    let nop1 = Nop::new(2);
    let nop2 = Nop::new(3);
    let tap2 = Tap::new("tap2".to_string(), 4);
    assert!(tap1.pollable());
    assert!(tap2.pollable());
    assert!(!nop1.pollable());
    assert!(!nop2.pollable());
    assert_eq!(brick::poll(&tap1).unwrap(), 1);
    brick::polled(0, Error::new()).unwrap();
    assert_eq!(brick::poll(&tap2).unwrap(), 4);
    brick::polled(0, Error::new()).unwrap();
}

#[test]
fn polling_a_brick_that_cannot_be_polled_is_refused() {
    let nop = Nop::new(7);
    let fw = Firewall::new("fw".to_string(), 8);
    let mut e = brick::poll(&nop).unwrap_err();
    assert_eq!(e.comment(), "Brick is not pollable");
    assert!(!e.is_set());
    assert!(brick::poll(&fw).is_err());
}

#[test]
fn polled_counts_packets_unless_reported() {
    assert_eq!(brick::polled(17, Error::new()).unwrap(), 17);
    let mut e = Error::new();
    e.record(true);
    assert!(brick::polled(17, e).is_err());
}

#[test]
fn bricks_know_their_kind_and_handle() {
    let n = Nop::new(1);
    let f = Firewall::new("f".to_string(), 2);
    let t = Tap::new("t".to_string(), 3);
    assert_eq!(n.get_type(), Type::NOP);
    assert_eq!(f.get_type(), Type::FIREWALL);
    assert_eq!(t.get_type(), Type::TAP);
    assert_eq!((n.brick(), f.brick(), t.brick()), (1, 2, 3));
    assert_eq!(f.name(), "f");
    assert_eq!(t.name(), "t");
    assert!(Type::TAP.pollable());
    assert!(!Type::NOP.pollable());
    assert!(!Type::FIREWALL.pollable());
}

#[test]
fn error_outcomes() {
    let mut e = Error::new();
    assert!(!e.is_set());
    e.set("comment".to_string());
    assert!(!e.is_set());
    assert_eq!(e.comment(), "comment");
    assert!(e.into_result().is_ok());
    let mut e = Error::new();
    e.record(true);
    assert!(e.is_set());
    assert!(e.into_result().is_err());
    assert!(Error::new().check_code(0).is_ok());
    assert!(Error::new().check_code(-1).is_err());
    assert!(Error::new().check_code(3).is_err());
}
