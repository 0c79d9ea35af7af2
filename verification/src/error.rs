//! Error types for document assembly.
//!
//! Two kinds of failure exist: validation errors raised before any mutation
//! (the reserved title id), lookup errors (a path or id query that resolves to
//! zero or to several nodes), and the one structural rule that audio may be
//! added at most once per toast.

use vstd::prelude::*;

verus! {

/// An error from the document model itself.
#[derive(Debug, Clone, PartialEq, Eq)]
pub enum XmlErr {
    /// An argument was rejected before any mutation took place; the payload
    /// describes the rejected argument.
    InvatedArg(String),
    /// A path or id lookup matched no node.
    NotFound,
    /// A path or id lookup matched more than one node.
    Ambiguous,
}

/// Any failure a toast operation can report.
#[derive(Debug, Clone, PartialEq, Eq)]
pub enum Error {
    /// A document-model failure.
    XmlErr(XmlErr),
    /// A second audio element was offered to a toast that already has one.
    AlreadyHasAudio,
}

/// The message carried by the reserved-id rejection.
pub open spec fn reserved_id_msg() -> Seq<char> {
    "id 0 is reserved for the title"@
}

/// Holds exactly of the error that rejects a text id of `0`.
pub open spec fn is_reserved_id_error(e: Error) -> bool {
    e matches Error::XmlErr(XmlErr::InvatedArg(m)) && m@ == reserved_id_msg()
}

/// The reserved-id rejection, as a value.
pub fn reserved_id_error() -> (e: Error)
    ensures
        is_reserved_id_error(e),
{
    Error::XmlErr(XmlErr::InvatedArg(String::from_str("id 0 is reserved for the title")))
}

impl From<XmlErr> for Error {
    /// Wraps a document-model failure.
    fn from(err: XmlErr) -> (e: Error)
        ensures
            e == Error::XmlErr(err),
    {
        Error::XmlErr(err)
    }
}

impl vstd::std_specs::convert::FromSpecImpl<XmlErr> for Error {
    open spec fn obeys_from_spec() -> bool {
        true
    }

    open spec fn from_spec(err: XmlErr) -> Error {
        Error::XmlErr(err)
    }
}

impl XmlErr {
    /// A short description of the error, for display by callers.
    pub fn message(&self) -> (m: String)
        ensures
            self matches XmlErr::InvatedArg(s) ==> m@ == s@,
            self is NotFound ==> m@ == "no node matches the lookup"@,
            self is Ambiguous ==> m@ == "more than one node matches the lookup"@,
    {
        match self {
            XmlErr::InvatedArg(s) => s.clone(),
            XmlErr::NotFound => String::from_str("no node matches the lookup"),
            XmlErr::Ambiguous => String::from_str("more than one node matches the lookup"),
        }
    }
}

impl Error {
    /// A short description of the error, for display by callers.
    pub fn message(&self) -> (m: String)
        ensures
            self matches Error::XmlErr(XmlErr::InvatedArg(s)) ==> m@ == s@,
            self is AlreadyHasAudio ==> m@ == "the toast already has an audio element"@,
    {
        match self {
            Error::XmlErr(x) => x.message(),
            Error::AlreadyHasAudio => String::from_str("the toast already has an audio element"),
        }
    }
}

} // verus!
