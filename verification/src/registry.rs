//! The public facade over one registry location.
//!
//! A `Registry` names the location a get or set call addresses.  The
//! native open, query, and write calls are issued by the surrounding
//! application; the functions here carry the typed dispatch around them:
//! parsing and encoding a value to write, and wrapping decoded bytes as a
//! typed value.  Of the enumerated data types only the DWord dispatch is
//! implemented; the others are an incomplete extension of the typed layer
//! and stay outside these functions' domains.

use vstd::prelude::*;
use vstd::string::StringExecFns;

use crate::codec;
use crate::data_type::DataType;
use crate::error::Error;
use crate::text;
use crate::value::Value;

verus! {

/// The facade over one registry location: the root, the key path, and the
/// value name that get and set calls address.
#[derive(Debug)]
pub struct Registry {
    pub root: crate::def::Root,
    pub sub_key: String,
    pub value_name: String,
}

impl Registry {
    pub fn new(root: crate::def::Root, sub_key: &str, value_name: &str) -> (r: Self)
        ensures
            r.root == root,
            r.sub_key@ == sub_key@,
            r.value_name@ == value_name@,
    {
        Self {
            root,
            sub_key: String::from_str(sub_key),
            value_name: String::from_str(value_name),
        }
    }

    /// Wraps the raw bytes read back by a get call as the typed value of
    /// the expected data type: a 4-byte DWord payload becomes its 32-bit
    /// value.
    pub fn decoded_value(data_type: DataType, buf: &Vec<u8>) -> (r: Value)
        requires
            data_type == DataType::DWord,
            buf@.len() == 4,
        ensures
            r == Value::DWord(codec::spec_dword_of_bytes(buf@)),
    {
        Value::DWord(codec::decode_dword(buf))
    }

    /// Prepares the byte payload of a set call: parses the user-supplied
    /// text as a decimal 32-bit value and encodes it in the DWord wire
    /// form.  Fails with `ParseError` carrying the text when it is not a
    /// well-formed numeral; no payload exists then, so no native write
    /// can follow.
    pub fn set_value_payload(data_type: DataType, text: &str) -> (r: Result<Vec<u8>, Error>)
        requires
            data_type == DataType::DWord,
        ensures
            match r {
                Ok(bytes) => text::spec_parse_u32_ok(text@) && bytes@ == codec::spec_dword_bytes(
                    text::spec_parse_u32_val(text@) as u32,
                ),
                Err(e) => !text::spec_parse_u32_ok(text@) && (e matches Error::ParseError(t) && t@
                    == text@),
            },
    {
        match text::parse_u32(text) {
            Ok(n) => Ok(codec::encode_dword(n)),
            Err(e) => Err(e),
        }
    }
}

} // verus!
