//! The faults of deriving a record, and the message for one that correct
//! input cannot cause.

use vstd::prelude::*;
use vstd::string::StringExecFns;
use crate::args::keyword::ParseError;

verus! {

/// A fault of deriving one field, as contracts see it.
pub ghost enum FieldFault {
    Unexpected(Seq<char>),
    ManyOverrides,
    Override(ParseError),
}

/// Why a field could not be derived.
#[derive(Clone, Debug, PartialEq, Eq)]
pub enum FieldError {
    /// What was made is not what it should be. The message says what was
    /// being made and asks for a report.
    Unexpected(String),
    /// The field carries more than one override.
    ManyOverrides,
    /// The override of the field is not written as its grammar asks.
    Override(ParseError),
}

impl View for FieldError {
    type V = FieldFault;

    open spec fn view(&self) -> FieldFault {
        match self {
            FieldError::Unexpected(message) => FieldFault::Unexpected(message@),
            FieldError::ManyOverrides => FieldFault::ManyOverrides,
            FieldError::Override(fault) => FieldFault::Override(*fault),
        }
    }
}

impl FieldFault {
    /// The words of the fault.
    pub open spec fn text(self) -> Seq<char> {
        match self {
            FieldFault::Unexpected(message) => message,
            FieldFault::ManyOverrides => "more than one optfield_field attribute on one field"@,
            FieldFault::Override(fault) => fault.text(),
        }
    }
}

impl FieldError {
    /// The words of the fault.
    pub fn message(&self) -> (r: String)
        ensures
            r@ == self@.text(),
    {
        match self {
            FieldError::Unexpected(message) => message.clone(),
            FieldError::ManyOverrides => String::from_str(
                "more than one optfield_field attribute on one field",
            ),
            FieldError::Override(fault) => fault.message(),
        }
    }
}

/// A fault of deriving a record, as contracts see it: the position of the
/// field that could not be derived, and why.
pub ghost struct GenFault {
    pub field: int,
    pub fault: FieldFault,
}

/// Why a record could not be derived: the position of the field that could
/// not be, and why.
#[derive(Clone, Debug, PartialEq, Eq)]
pub struct GenError {
    pub field: usize,
    pub fault: FieldError,
}

impl View for GenError {
    type V = GenFault;

    open spec fn view(&self) -> GenFault {
        GenFault { field: self.field as int, fault: self.fault@ }
    }
}

/// The text of the message: what was being done, the fault, and the request
/// to report it.
pub open spec fn unexpected_text(action: Seq<char>, fault: Seq<char>) -> Seq<char> {
    "Unexpected error "@ + action + ": "@ + fault
        + "\nPlease open an issue detailing how this happened!"@
}

/// The message for a fault met while doing `action`, where `err` is the
/// fault as text.
pub fn unexpected(action: String, err: String) -> (r: String)
    ensures
        r@ == unexpected_text(action@, err@),
{
    let mut message = String::from_str("Unexpected error ");
    message.append(action.as_str());
    message.append(": ");
    message.append(err.as_str());
    message.append("\nPlease open an issue detailing how this happened!");
    message
}

} // verus!
