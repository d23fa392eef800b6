use vstd::prelude::*;

use crate::brick::{Brick, Type};

verus! {

/// A brick that exchanges packets with a network interface of the system.
#[derive(Debug)]
pub struct Tap {
    brick: u64,
    name: String,
}

impl Tap {
    /// The library's side of a tap brick named `name`, whose engine brick
    /// the caller finds by `brick`.
    pub fn new(name: String, brick: u64) -> (t: Tap)
        ensures
            t.handle() == brick,
            t.spec_name() == name@,
    {
        Tap { brick, name }
    }

    pub closed spec fn spec_name(&self) -> Seq<char> {
        self.name@
    }

    pub fn name(&self) -> (r: String)
        ensures
            r@ == self.spec_name(),
    {
        self.name.clone()
    }
}

impl Brick for Tap {
    open spec fn kind(&self) -> Type {
        Type::TAP
    }

    closed spec fn handle(&self) -> u64 {
        self.brick
    }

    fn brick(&self) -> (h: u64) {
        self.brick
    }

    fn get_type(&self) -> (t: Type) {
        Type::TAP
    }

    fn pollable(&self) -> (b: bool) {
        true
    }
}

} // verus!
