//! The unified error taxonomy of the registry access layer.

use vstd::prelude::*;
use vstd::string::StringExecFns;

use crate::text;

verus! {

/// One error value per failure class of the layer.
///
/// - `Win32Error`: a native call failed for a reason other than "not found";
///   the payload is the raw Win32 error code.
/// - `SubkeyNotFound`: the requested key path does not exist; the payload is
///   the canonical display form of the requested path.
/// - `ValueNameNotFound`: the key exists but the named value does not.
/// - `UnknownDataType`: the stored native type tag is outside the supported
///   set; the payload is the raw tag.
/// - `UnexpectedDataType`: the stored value's type disagrees with the type
///   the caller expects; the payload is `(expected, actual)` as the stable
///   native tag names.
/// - `ParseError`: a user-supplied string could not be parsed into the wire
///   encoding expected by the target data type; the payload is that string.
#[derive(Debug)]
pub enum Error {
    Win32Error(u32),
    SubkeyNotFound(String),
    ValueNameNotFound(String),
    UnknownDataType(u32),
    UnexpectedDataType((&'static str, &'static str)),
    ParseError(String),
}

impl Error {
    /// The user-facing message of the error.
    pub open spec fn spec_message(self) -> Seq<char> {
        match self {
            Error::Win32Error(code) => "Win32 Error: "@ + text::spec_u32_dec(code as nat),
            Error::SubkeyNotFound(k) => "Subkey not found ("@ + k@ + ")"@,
            Error::ValueNameNotFound(v) => "Value Name not found ("@ + v@ + ")"@,
            Error::UnknownDataType(t) => "Unknown data type: "@ + text::spec_u32_dec(t as nat),
            Error::UnexpectedDataType((expected, actual)) => "Unexpected data type (expected: "@
                + expected@ + ", actual: "@ + actual@ + ")"@,
            Error::ParseError(t) => "Parse error ("@ + t@ + ")"@,
        }
    }

    /// Renders the user-facing message of the error.
    pub fn message(&self) -> (r: String)
        ensures
            r@ == self.spec_message(),
    {
        match self {
            Error::Win32Error(code) => {
                let mut r = String::from_str("Win32 Error: ");
                r.append(text::u32_to_decimal(*code).as_str());
                r
            },
            Error::SubkeyNotFound(k) => {
                let mut r = String::from_str("Subkey not found (");
                r.append(k.as_str());
                r.append(")");
                r
            },
            Error::ValueNameNotFound(v) => {
                let mut r = String::from_str("Value Name not found (");
                r.append(v.as_str());
                r.append(")");
                r
            },
            Error::UnknownDataType(t) => {
                let mut r = String::from_str("Unknown data type: ");
                r.append(text::u32_to_decimal(*t).as_str());
                r
            },
            Error::UnexpectedDataType((expected, actual)) => {
                let mut r = String::from_str("Unexpected data type (expected: ");
                r.append(expected);
                r.append(", actual: ");
                r.append(actual);
                r.append(")");
                r
            },
            Error::ParseError(t) => {
                let mut r = String::from_str("Parse error (");
                r.append(t.as_str());
                r.append(")");
                r
            },
        }
    }
}

} // verus!
