use vstd::prelude::*;

use crate::error::Error;

verus! {

/// The kinds of brick that a graph holds.
#[derive(Clone, Copy, PartialEq, Eq, Structural, Debug)]
pub enum Type {
    NOP,
    FIREWALL,
    TAP,
}

impl Type {
    /// Only a tap brick has packets of its own to poll.
    pub open spec fn is_pollable(self) -> bool {
        self == Type::TAP
    }

    pub fn pollable(&self) -> (b: bool)
        ensures
            b == self.is_pollable(),
    {
        match self {
            Type::TAP => true,
            _ => false,
        }
    }
}

/// A brick of the packet-processing engine, as the library sees it: its
/// kind and the handle by which the caller finds the engine's brick again.
pub trait Brick {
    spec fn kind(&self) -> Type;

    spec fn handle(&self) -> u64;

    /// The handle of the engine's brick.
    fn brick(&self) -> (h: u64)
        ensures
            h == self.handle(),
    ;

    fn get_type(&self) -> (t: Type)
        ensures
            t == self.kind(),
    ;

    fn pollable(&self) -> (b: bool)
        ensures
            b == self.kind().is_pollable(),
    ;
}

/// The comment of the error that refuses to poll a brick that cannot be
/// polled.
pub open spec fn not_pollable_text() -> Seq<char> {
    "Brick is not pollable"@
}

/// Decides whether `b` may be polled: a brick that cannot be polled is
/// refused with an error that the engine did not report; else the handle
/// of the brick to poll is returned.
pub fn poll<B: Brick>(b: &B) -> (r: Result<u64, Error>)
    ensures
        b.kind().is_pollable() ==> r == Ok::<u64, Error>(b.handle()),
        !b.kind().is_pollable() ==> r is Err && !r->Err_0.reported() && r->Err_0.text() == not_pollable_text(),
{
    if !b.pollable() {
        let mut error = Error::new();
        error.set(String::from_str("Brick is not pollable"));
        return Err(error);
    }
    Ok(b.brick())
}

/// The outcome of polling a brick: `n` packets were polled, unless the
/// engine reported a failure into `error`.
pub fn polled(n: u16, error: Error) -> (r: Result<usize, Error>)
    ensures
        error.reported() ==> r == Err::<usize, Error>(error),
        !error.reported() ==> r == Ok::<usize, Error>(n as usize),
{
    let mut error = error;
    if error.is_set() {
        Err(error)
    } else {
        Ok(n as usize)
    }
}

} // verus!
