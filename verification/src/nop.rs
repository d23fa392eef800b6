use vstd::prelude::*;

use crate::brick::{Brick, Type};

verus! {

/// A brick that forwards packets unchanged.
#[derive(Debug)]
pub struct Nop {
    brick: u64,
}

impl Nop {
    /// The library's side of a nop brick whose engine brick the caller
    /// finds by `brick`.
    pub fn new(brick: u64) -> (n: Nop)
        ensures
            n.handle() == brick,
    {
        Nop { brick }
    }
}

impl Brick for Nop {
    open spec fn kind(&self) -> Type {
        Type::NOP
    }

    closed spec fn handle(&self) -> u64 {
        self.brick
    }

    fn brick(&self) -> (h: u64) {
        self.brick
    }

    fn get_type(&self) -> (t: Type) {
        Type::NOP
    }

    fn pollable(&self) -> (b: bool) {
        false
    }
}

} // verus!
