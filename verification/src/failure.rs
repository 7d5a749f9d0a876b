//! How an operation fails.

use vstd::prelude::*;

verus! {

/// The kinds of failure. Every failure ends the operation it occurs in:
/// nothing is tried a second time.
#[derive(Clone, Copy, Debug, PartialEq, Eq, Structural)]
pub enum ErrorKind {
    /// An argument is not acceptable: the poll period is zero.
    Configuration,
    /// A request did not get through.
    Transport,
    /// A reply does not have the expected shape.
    Parse,
    /// The service answered with a complaint of its own.
    Domain,
    /// The pool reported no blocks at all.
    EmptyResult,
    /// A notification could not be shown.
    Delivery,
}

/// A failure: its kind, and the text shown to the user.
#[derive(Clone, Debug, PartialEq, Eq)]
pub struct Failure {
    pub kind: ErrorKind,
    pub message: String,
}

/// A failure as a mathematical value.
pub struct FailureView {
    pub kind: ErrorKind,
    pub message: Seq<char>,
}

impl View for Failure {
    type V = FailureView;

    open spec fn view(&self) -> FailureView {
        FailureView { kind: self.kind, message: self.message@ }
    }
}

/// The failure of a zero poll period.
pub open spec fn zero_period() -> FailureView {
    FailureView { kind: ErrorKind::Configuration, message: "period must not be 0"@ }
}

/// The failure of a pool that reports no blocks.
pub open spec fn no_blocks() -> FailureView {
    FailureView { kind: ErrorKind::EmptyResult, message: "no blocks found"@ }
}

/// The failure of a reply that cannot be decoded.
pub open spec fn undecodable() -> FailureView {
    FailureView { kind: ErrorKind::Parse, message: "error decoding response body"@ }
}

/// The failure of a price that is not a number.
pub open spec fn no_price() -> FailureView {
    FailureView { kind: ErrorKind::Parse, message: "unable to fetch price"@ }
}

/// The failure of a reply that holds neither the price nor a complaint.
pub open spec fn unexplained() -> FailureView {
    FailureView { kind: ErrorKind::Parse, message: "unexpected price response"@ }
}

/// The failure that the service itself reports, in its own words.
pub open spec fn upstream(message: Seq<char>) -> FailureView {
    FailureView { kind: ErrorKind::Domain, message }
}

impl Failure {
    /// A failure of the given kind with the given text.
    pub fn new(kind: ErrorKind, message: &str) -> (f: Failure)
        ensures
            f@ == (FailureView { kind, message: message@ }),
    {
        Failure { kind, message: message.to_owned() }
    }

    /// A second value equal to this one.
    pub fn duplicate(&self) -> (f: Failure)
        ensures
            f == *self,
    {
        Failure { kind: self.kind, message: self.message.clone() }
    }

    /// The text shown to the user.
    pub fn describe(&self) -> (text: String)
        ensures
            text@ == self@.message,
    {
        self.message.clone()
    }
}

} // verus!
