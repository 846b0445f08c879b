//! The kinds of failure that the machine and the builder report.

use vstd::prelude::*;
use vstd::string::*;
use crate::types::Type;

verus! {

/// What went wrong. Each kind ends the evaluation that meets it.
#[derive(PartialEq, Eq, Debug)]
pub enum ErrorKind {
    /// Access to storage that is not live: a local outside its liveness
    /// window, or an allocation that was freed or never made.
    OutOfLiveness,
    /// A typed read found data that violates the validity invariant of the
    /// type it asked for.
    InvalidValue(Type),
    /// Access beyond the extent of an allocation.
    OutOfBounds,
    /// The builder was used after it had finished, or on a function that
    /// was not declared or not finished.
    BuilderMisuse,
}

impl Clone for ErrorKind {
    fn clone(&self) -> (copy: Self)
        ensures
            copy == *self,
    {
        match self {
            ErrorKind::OutOfLiveness => ErrorKind::OutOfLiveness,
            ErrorKind::InvalidValue(ty) => ErrorKind::InvalidValue(ty.clone()),
            ErrorKind::OutOfBounds => ErrorKind::OutOfBounds,
            ErrorKind::BuilderMisuse => ErrorKind::BuilderMisuse,
        }
    }
}

/// A failure of an evaluation: its kind, and whether the access that
/// failed went through a pointer.
#[derive(Clone, PartialEq, Eq, Debug)]
pub struct Diagnosis {
    pub kind: ErrorKind,
    pub through_reference: bool,
}

impl Diagnosis {
    /// A failure of an access that went through no pointer.
    pub open spec fn direct(kind: ErrorKind) -> Diagnosis {
        Diagnosis { kind, through_reference: false }
    }

    /// The message for the failure. A violated validity invariant names the
    /// type that the read asked for, and says so as a reference to an
    /// invalid type where the read went through a pointer.
    pub open spec fn message(self) -> Seq<char> {
        match self.kind {
            ErrorKind::InvalidValue(ty) => if self.through_reference {
                "Reference to invalid type: load at type "@ + ty.name()
                    + " but the data in memory violates the validity invariant"@
            } else {
                "load at type "@ + ty.name()
                    + " but the data in memory violates the validity invariant"@
            },
            ErrorKind::OutOfLiveness => "access to storage that is not live"@,
            ErrorKind::OutOfBounds => "access beyond the extent of an allocation"@,
            ErrorKind::BuilderMisuse => "use of a function or block that was never finished"@,
        }
    }

    pub fn describe(&self) -> (text: String)
        ensures
            text@ == self.message(),
    {
        match &self.kind {
            ErrorKind::InvalidValue(ty) => {
                let name = ty.get_name();
                let mut text = if self.through_reference {
                    String::from_str("Reference to invalid type: load at type ")
                } else {
                    String::from_str("load at type ")
                };
                text.append(name.as_str());
                text.append(" but the data in memory violates the validity invariant");
                text
            },
            ErrorKind::OutOfLiveness => String::from_str("access to storage that is not live"),
            ErrorKind::OutOfBounds => String::from_str(
                "access beyond the extent of an allocation",
            ),
            ErrorKind::BuilderMisuse => String::from_str(
                "use of a function or block that was never finished",
            ),
        }
    }
}

} // verus!
