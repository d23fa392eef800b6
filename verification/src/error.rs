use vstd::prelude::*;

verus! {

/// An error of the packet graph: whether the packet-processing engine
/// reported a failure for the call that the error was handed to, and a
/// comment that the library attached to it.
///
/// A comment alone does not make the error reported: the library attaches
/// one where it refuses a request itself, before any call is made.
#[derive(Debug)]
pub struct Error {
    raised: bool,
    comment: String,
}

impl Error {
    /// Whether the engine reported a failure into this error.
    pub closed spec fn reported(&self) -> bool {
        self.raised
    }

    /// The comment attached to this error.
    pub closed spec fn text(&self) -> Seq<char> {
        self.comment@
    }

    /// A fresh error: nothing reported, no comment.
    pub fn new() -> (e: Error)
        ensures
            !e.reported(),
            e.text() == Seq::<char>::empty(),
    {
        Error { raised: false, comment: String::new() }
    }

    /// Attaches `comment` to the error, in place of the one it had.
    pub fn set(&mut self, comment: String)
        ensures
            final(self).text() == comment@,
            final(self).reported() == old(self).reported(),
    {
        self.comment = comment;
    }

    /// Whether the engine reported a failure into this error.
    pub fn is_set(&mut self) -> (r: bool)
        ensures
            r == old(self).reported(),
            *final(self) == *old(self),
    {
        self.raised
    }

    /// Records what the engine said after a call that was handed this
    /// error: `raised` is whether it filled the error in.
    pub fn record(&mut self, raised: bool)
        ensures
            final(self).reported() == raised,
            final(self).text() == old(self).text(),
    {
        self.raised = raised;
    }

    /// The comment attached to the error.
    pub fn comment(&self) -> (r: String)
        ensures
            r@ == self.text(),
    {
        self.comment.clone()
    }

    /// The outcome of a call that reports failure through this error:
    /// the error where the engine filled it in, else success.
    pub fn into_result(self) -> (r: Result<(), Error>)
        ensures
            self.reported() ==> r == Err::<(), Error>(self),
            !self.reported() ==> r is Ok,
    {
        if self.raised {
            Err(self)
        } else {
            Ok(())
        }
    }

    /// The outcome of a call that reports failure by a non-zero return
    /// code `rc`, with details in this error.
    pub fn check_code(self, rc: i32) -> (r: Result<(), Error>)
        ensures
            rc != 0 ==> r == Err::<(), Error>(self),
            rc == 0 ==> r is Ok,
    {
        if rc == 0 {
            Ok(())
        } else {
            Err(self)
        }
    }
}

} // verus!
