//! Decision logic of one open-key session.
//!
//! The surrounding application issues the native registry calls and feeds
//! their raw outcomes — return codes, type tags, byte lengths — to the
//! functions here, which map them to results and errors exactly as the
//! layer's taxonomy prescribes.  The `KeyHandler` type tracks one native
//! key handle through release with an idempotent sentinel state.

use vstd::prelude::*;

use crate::data_type::DataType;
use crate::def::spec_key_path_display;
use crate::def::key_path_display;
use crate::def::Root;
use crate::error::Error;

verus! {

/// The native return code of a successful registry call.
pub const ERROR_SUCCESS_CODE: u32 = 0;

/// The one native return code that the layer treats as "not found",
/// distinguished from every other failure code.
pub const ERROR_FILE_NOT_FOUND_CODE: u32 = 2;

/// Whether a native return code is the specific "not found" code.
pub fn check_no_key_error(code: u32) -> (r: bool)
    ensures
        r == (code == ERROR_FILE_NOT_FOUND_CODE),
{
    code == ERROR_FILE_NOT_FOUND_CODE
}

/// The stored type and exact byte length of a value, as the first query
/// step reports them.
#[derive(Debug, PartialEq, Eq, Structural, Clone, Copy)]
pub struct ValueInfo {
    pub data_type: DataType,
    pub len: u32,
}

impl ValueInfo {
    pub fn new(data_type: DataType, len: u32) -> (r: Self)
        ensures
            r.data_type == data_type,
            r.len == len,
    {
        Self { data_type, len }
    }

    pub fn data_type(&self) -> (r: DataType)
        ensures
            r == self.data_type,
    {
        self.data_type
    }

    pub fn len(&self) -> (r: u32)
        ensures
            r == self.len,
    {
        self.len
    }
}

/// Maps the native return code of opening an existing key: success; the
/// "not found" code to `SubkeyNotFound` carrying the canonical display
/// form of the requested path; any other code to `Win32Error`.
pub fn open_outcome(root: &Root, sub_key: &str, code: u32) -> (r: Result<(), Error>)
    ensures
        match r {
            Ok(_) => code == ERROR_SUCCESS_CODE,
            Err(e) => code != ERROR_SUCCESS_CODE && if code == ERROR_FILE_NOT_FOUND_CODE {
                e matches Error::SubkeyNotFound(p) && p@ == spec_key_path_display(
                    *root,
                    sub_key@,
                )
            } else {
                e matches Error::Win32Error(c) && c == code
            },
        },
{
    if code == ERROR_SUCCESS_CODE {
        Ok(())
    } else if check_no_key_error(code) {
        Err(Error::SubkeyNotFound(key_path_display(root, sub_key)))
    } else {
        Err(Error::Win32Error(code))
    }
}

/// Maps the native return code of creating-or-opening a key: success or
/// `Win32Error`; the create call reports no "not found" condition.
pub fn create_outcome(code: u32) -> (r: Result<(), Error>)
    ensures
        match r {
            Ok(_) => code == ERROR_SUCCESS_CODE,
            Err(e) => code != ERROR_SUCCESS_CODE && (e matches Error::Win32Error(c) && c
                == code),
        },
{
    if code == ERROR_SUCCESS_CODE {
        Ok(())
    } else {
        Err(Error::Win32Error(code))
    }
}

/// Maps the native return code of reading a value's bytes (the second
/// query step): success or `Win32Error`.
pub fn read_outcome(code: u32) -> (r: Result<(), Error>)
    ensures
        match r {
            Ok(_) => code == ERROR_SUCCESS_CODE,
            Err(e) => code != ERROR_SUCCESS_CODE && (e matches Error::Win32Error(c) && c
                == code),
        },
{
    if code == ERROR_SUCCESS_CODE {
        Ok(())
    } else {
        Err(Error::Win32Error(code))
    }
}

/// Maps the native return code of writing a value: success; the "not
/// found" code to `ValueNameNotFound` carrying the value name; any other
/// code to `Win32Error`.
pub fn write_outcome(value_name: &str, code: u32) -> (r: Result<(), Error>)
    ensures
        match r {
            Ok(_) => code == ERROR_SUCCESS_CODE,
            Err(e) => code != ERROR_SUCCESS_CODE && if code == ERROR_FILE_NOT_FOUND_CODE {
                e matches Error::ValueNameNotFound(n) && n@ == value_name@
            } else {
                e matches Error::Win32Error(c) && c == code
            },
        },
{
    if code == ERROR_SUCCESS_CODE {
        Ok(())
    } else if check_no_key_error(code) {
        Err(Error::ValueNameNotFound(value_name.to_owned()))
    } else {
        Err(Error::Win32Error(code))
    }
}

/// Maps the outcome of the first query step, which reports a value's
/// stored type tag and byte length: success yields the stored type and
/// length, an unrecognized tag is `UnknownDataType`, the "not found" code
/// means the value does not exist, and any other code is `Win32Error`.
pub fn value_info_outcome(code: u32, tag: u32, len: u32) -> (r: Result<Option<ValueInfo>, Error>)
    ensures
        match r {
            Ok(ovi) => match ovi {
                Some(vi) => code == ERROR_SUCCESS_CODE && DataType::spec_of_value(tag) == Some(
                    vi.data_type,
                ) && vi.len == len,
                None => code == ERROR_FILE_NOT_FOUND_CODE,
            },
            Err(e) => match e {
                Error::UnknownDataType(t) => code == ERROR_SUCCESS_CODE && t == tag
                    && DataType::spec_of_value(tag) is None,
                Error::Win32Error(c) => c == code && code != ERROR_SUCCESS_CODE && code
                    != ERROR_FILE_NOT_FOUND_CODE,
                _ => false,
            },
        },
{
    if code == ERROR_SUCCESS_CODE {
        match DataType::try_from(tag) {
            Ok(d) => Ok(Some(ValueInfo::new(d, len))),
            Err(e) => Err(e),
        }
    } else if check_no_key_error(code) {
        Ok(None)
    } else {
        Err(Error::Win32Error(code))
    }
}

/// Checks the stored type of a value against the type a read expects: a
/// missing value is `ValueNameNotFound` carrying the value name; a
/// mismatched type is `UnexpectedDataType` carrying the expected and
/// actual tag names; otherwise the stored type and length come back.
pub fn require_stored_type(vi: &Option<ValueInfo>, expected: DataType, value_name: &str) -> (r:
    Result<ValueInfo, Error>)
    ensures
        match r {
            Ok(v) => (vi matches Some(v0) && v0 == v) && v.data_type == expected,
            Err(e) => match e {
                Error::ValueNameNotFound(n) => vi is None && n@ == value_name@,
                Error::UnexpectedDataType(pair) => (vi matches Some(v0) && v0.data_type != expected
                    && pair.0@ == expected.spec_str() && pair.1@ == v0.data_type.spec_str()),
                _ => false,
            },
        },
{
    match vi {
        Some(v) => {
            if v.data_type == expected {
                Ok(*v)
            } else {
                Err(Error::UnexpectedDataType((expected.str(), v.data_type.str())))
            }
        },
        None => Err(Error::ValueNameNotFound(value_name.to_owned())),
    }
}

/// Checks the stored type of a value against the type a write expects: a
/// missing value is acceptable, since the write creates it; a mismatched
/// type is `UnexpectedDataType` carrying the expected and actual tag
/// names.
pub fn require_settable_type(vi: &Option<ValueInfo>, expected: DataType) -> (r: Result<
    (),
    Error,
>)
    ensures
        match r {
            Ok(_) => vi is None || (vi matches Some(v) && v.data_type == expected),
            Err(e) => (vi matches Some(v) && v.data_type != expected) && (e matches
                Error::UnexpectedDataType(pair) && (vi matches Some(v) && pair.0@
                == expected.spec_str() && pair.1@ == v.data_type.spec_str())),
        },
{
    match vi {
        Some(v) => {
            if v.data_type == expected {
                Ok(())
            } else {
                Err(Error::UnexpectedDataType((expected.str(), v.data_type.str())))
            }
        },
        None => Ok(()),
    }
}

/// The sentinel raw value of a released handle: the native null handle.
pub const RELEASED_HANDLE: usize = 0;

/// One native key handle, tracked through release.
///
/// The wrapped raw value is the native handle as an address-sized integer.
/// After the handle is taken out for release once, the sentinel value is
/// left behind, so the native close call happens exactly once per handle
/// however often release is requested — a second close of the same raw
/// handle would be undefined behavior in the native interface.
pub struct KeyHandler {
    key: usize,
}

impl KeyHandler {
    /// The raw native handle value, or the sentinel after release.
    pub closed spec fn spec_raw(self) -> usize {
        self.key
    }

    /// Whether the handle has been released.
    pub open spec fn spec_released(self) -> bool {
        self.spec_raw() == RELEASED_HANDLE
    }

    /// Wraps a live native handle value.
    pub fn new(raw: usize) -> (r: Self)
        requires
            raw != RELEASED_HANDLE,
        ensures
            r.spec_raw() == raw,
            !r.spec_released(),
    {
        Self { key: raw }
    }

    /// The raw handle value, for use as the key argument of a native call.
    pub fn raw(&self) -> (r: usize)
        ensures
            r == self.spec_raw(),
    {
        self.key
    }

    /// Takes the handle out for release: the first call yields the live
    /// raw value and leaves the sentinel behind; every further call
    /// yields nothing and changes nothing.
    pub fn take_for_release(&mut self) -> (r: Option<usize>)
        ensures
            final(self).spec_released(),
            match r {
                Some(raw) => !old(self).spec_released() && raw == old(self).spec_raw(),
                None => old(self).spec_released(),
            },
    {
        if self.key != RELEASED_HANDLE {
            let raw = self.key;
            self.key = RELEASED_HANDLE;
            Some(raw)
        } else {
            None
        }
    }
}

} // verus!
