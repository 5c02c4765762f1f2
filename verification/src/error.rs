//! Errors of the OSC client.

use crate::osc::value::{OscValue, ValueView};
use vstd::prelude::*;
use vstd::string::StringExecFns;

verus! {

/// `rosc::OscError`, the wire codec's error. Nothing is claimed of its
/// contents: a value is only carried from the codec to the caller.
#[verifier::external_type_specification]
#[verifier::external_body]
pub struct ExOscError(rosc::OscError);

/// `std::io::Error`, the operating system's report of a failed socket
/// operation. Nothing is claimed of its contents: a value is only carried
/// from the socket to the caller.
#[verifier::external_type_specification]
#[verifier::external_body]
pub struct ExIoError(std::io::Error);

/// The kind of value that a reply was asked to yield.
#[derive(Clone, Copy, Debug, PartialEq, Eq)]
pub enum Expected {
    Float,
    Int,
    Text,
    Bool,
}

impl Expected {
    /// The kind's name as it appears in messages.
    pub open spec fn name(self) -> Seq<char> {
        match self {
            Expected::Float => "float"@,
            Expected::Int => "int"@,
            Expected::Text => "string"@,
            Expected::Bool => "bool"@,
        }
    }
}

/// Why a reply that arrived could not be turned into the requested value.
#[derive(Debug)]
pub enum ResponseFault {
    /// The datagram that arrived is not an OSC packet: the wire codec refused
    /// it, with the error held here.
    Undecodable(rosc::OscError),
    /// The reply was a bundle without any message directly in it.
    EmptyBundle,
    /// The reply carried no arguments.
    NoArguments,
    /// No argument fits the requested kind; `found` is the reply's first
    /// argument.
    Unexpected { expected: Expected, found: OscValue },
}

/// The mathematical value of a [`ResponseFault`].
pub enum FaultView {
    Undecodable(rosc::OscError),
    EmptyBundle,
    NoArguments,
    Unexpected { expected: Expected, found: ValueView },
}

impl View for ResponseFault {
    type V = FaultView;

    open spec fn view(&self) -> FaultView {
        match self {
            ResponseFault::Undecodable(e) => FaultView::Undecodable(*e),
            ResponseFault::EmptyBundle => FaultView::EmptyBundle,
            ResponseFault::NoArguments => FaultView::NoArguments,
            ResponseFault::Unexpected { expected, found } => FaultView::Unexpected {
                expected: *expected,
                found: found@,
            },
        }
    }
}

impl ResponseFault {
    /// The text of the fault, given the text that stands for what the fault
    /// holds: the codec's error, or the offending argument.
    pub open spec fn message_text(self, detail: Seq<char>) -> Seq<char> {
        match self {
            ResponseFault::Undecodable(_) => "Undecodable reply: "@ + detail,
            ResponseFault::EmptyBundle => "Empty bundle"@,
            ResponseFault::NoArguments => "No arguments in response"@,
            ResponseFault::Unexpected { expected, .. } => "Expected "@ + expected.name()
                + ", got "@ + detail,
        }
    }

    /// Renders the fault as text. `detail` is the rendering of what the fault
    /// holds: of the codec's error for [`ResponseFault::Undecodable`], of the
    /// offending argument for [`ResponseFault::Unexpected`]. The other faults
    /// do not use it.
    pub fn message(&self, detail: &str) -> (text: String)
        ensures
            text@ == self.message_text(detail@),
    {
        match self {
            ResponseFault::Undecodable(_) => {
                let mut text = String::from_str("Undecodable reply: ");
                text.append(detail);
                text
            },
            ResponseFault::EmptyBundle => String::from_str("Empty bundle"),
            ResponseFault::NoArguments => String::from_str("No arguments in response"),
            ResponseFault::Unexpected { expected, .. } => {
                let mut text = String::from_str("Expected ");
                match expected {
                    Expected::Float => text.append("float"),
                    Expected::Int => text.append("int"),
                    Expected::Text => text.append("string"),
                    Expected::Bool => text.append("bool"),
                }
                text.append(", got ");
                text.append(detail);
                text
            },
        }
    }
}

/// What went wrong in one client operation.
#[derive(Debug)]
pub enum Error {
    /// The wire codec refused the message that was to be sent.
    OscEncode(rosc::OscError),
    /// A socket operation failed.
    Network(std::io::Error),
    /// No reply arrived within the response timeout.
    Timeout,
    /// A reply arrived but could not be decoded, or does not hold the
    /// requested value.
    InvalidResponse(ResponseFault),
    /// A caller-supplied parameter is out of range.
    InvalidParameter(String),
    /// The peer is not running or not reachable.
    NotConnected,
}

impl Error {
    /// Whether the error only says that the peer stayed silent.
    pub fn is_timeout(&self) -> (r: bool)
        ensures
            r == (*self is Timeout),
    {
        match self {
            Error::Timeout => true,
            _ => false,
        }
    }
}

} // verus!
