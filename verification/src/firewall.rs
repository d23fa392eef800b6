use vstd::prelude::*;

use crate::brick::{Brick, Type};

verus! {

/// A brick that filters the packets that cross it by rules.
#[derive(Debug)]
pub struct Firewall {
    brick: u64,
    name: String,
}

impl Firewall {
    /// The library's side of a firewall brick named `name`, whose engine
    /// brick the caller finds by `brick`.
    pub fn new(name: String, brick: u64) -> (f: Firewall)
        ensures
            f.handle() == brick,
            f.spec_name() == name@,
    {
        Firewall { brick, name }
    }

    pub closed spec fn spec_name(&self) -> Seq<char> {
        self.name@
    }

    pub fn name(&self) -> (r: String)
        ensures
            r@ == self.spec_name(),
    {
        self.name.clone()
    }
}

impl Brick for Firewall {
    open spec fn kind(&self) -> Type {
        Type::FIREWALL
    }

    closed spec fn handle(&self) -> u64 {
        self.brick
    }

    fn brick(&self) -> (h: u64) {
        self.brick
    }

    fn get_type(&self) -> (t: Type) {
        Type::FIREWALL
    }

    fn pollable(&self) -> (b: bool) {
        false
    }
}

} // verus!
