//! The closed set of supported registry value encodings and their native
//! type tags.

use vstd::prelude::*;

use crate::error::Error;

verus! {

/// Native type tag of a `REG_SZ` value.
pub const REG_SZ_TAG: u32 = 1;

/// Native type tag of a `REG_EXPAND_SZ` value.
pub const REG_EXPAND_SZ_TAG: u32 = 2;

/// Native type tag of a `REG_BINARY` value.
pub const REG_BINARY_TAG: u32 = 3;

/// Native type tag of a `REG_DWORD` value.
pub const REG_DWORD_TAG: u32 = 4;

/// Native type tag of a `REG_MULTI_SZ` value.
pub const REG_MULTI_SZ_TAG: u32 = 7;

/// Native type tag of a `REG_QWORD` value.
pub const REG_QWORD_TAG: u32 = 11;

/// The registry value encodings this layer supports.  Each variant maps
/// bijectively to one native registry type tag.
#[derive(Debug, PartialEq, Eq, Structural, Clone, Copy)]
pub enum DataType {
    Binary,
    DWord,
    QWord,
    String,
    MultiString,
    ExpandString,
}

impl DataType {
    /// The native type tag of this data type.
    pub open spec fn spec_value(self) -> u32 {
        match self {
            DataType::Binary => REG_BINARY_TAG,
            DataType::DWord => REG_DWORD_TAG,
            DataType::QWord => REG_QWORD_TAG,
            DataType::String => REG_SZ_TAG,
            DataType::MultiString => REG_MULTI_SZ_TAG,
            DataType::ExpandString => REG_EXPAND_SZ_TAG,
        }
    }

    /// The data type a native tag denotes, or `None` for a tag outside the
    /// supported set.
    pub open spec fn spec_of_value(tag: u32) -> Option<DataType> {
        if tag == REG_BINARY_TAG {
            Some(DataType::Binary)
        } else if tag == REG_DWORD_TAG {
            Some(DataType::DWord)
        } else if tag == REG_QWORD_TAG {
            Some(DataType::QWord)
        } else if tag == REG_SZ_TAG {
            Some(DataType::String)
        } else if tag == REG_MULTI_SZ_TAG {
            Some(DataType::MultiString)
        } else if tag == REG_EXPAND_SZ_TAG {
            Some(DataType::ExpandString)
        } else {
            None
        }
    }

    /// The stable human-readable name of this data type's native tag.
    pub open spec fn spec_str(self) -> Seq<char> {
        match self {
            DataType::Binary => "REG_BINARY"@,
            DataType::DWord => "REG_DWORD"@,
            DataType::QWord => "REG_QWORD"@,
            DataType::String => "REG_SZ"@,
            DataType::MultiString => "REG_MULTI_SZ"@,
            DataType::ExpandString => "REG_EXPAND_SZ"@,
        }
    }

    /// Converts this data type to its native type tag.
    pub fn value(&self) -> (r: u32)
        ensures
            r == self.spec_value(),
    {
        match self {
            DataType::Binary => REG_BINARY_TAG,
            DataType::DWord => REG_DWORD_TAG,
            DataType::QWord => REG_QWORD_TAG,
            DataType::String => REG_SZ_TAG,
            DataType::MultiString => REG_MULTI_SZ_TAG,
            DataType::ExpandString => REG_EXPAND_SZ_TAG,
        }
    }

    /// Converts a native type tag back to the data type it denotes, failing
    /// with `UnknownDataType` for a tag outside the supported set.
    pub fn try_from(value: u32) -> (r: Result<DataType, Error>)
        ensures
            match r {
                Ok(d) => DataType::spec_of_value(value) == Some(d),
                Err(e) => DataType::spec_of_value(value) is None && (e matches
                    Error::UnknownDataType(t) && t == value),
            },
    {
        if value == REG_BINARY_TAG {
            Ok(DataType::Binary)
        } else if value == REG_DWORD_TAG {
            Ok(DataType::DWord)
        } else if value == REG_QWORD_TAG {
            Ok(DataType::QWord)
        } else if value == REG_SZ_TAG {
            Ok(DataType::String)
        } else if value == REG_MULTI_SZ_TAG {
            Ok(DataType::MultiString)
        } else if value == REG_EXPAND_SZ_TAG {
            Ok(DataType::ExpandString)
        } else {
            Err(Error::UnknownDataType(value))
        }
    }

    /// The stable human-readable name of this data type's native tag, used
    /// in error messages and by the UI.
    pub fn str(&self) -> (r: &'static str)
        ensures
            r@ == self.spec_str(),
    {
        match self {
            DataType::Binary => "REG_BINARY",
            DataType::DWord => "REG_DWORD",
            DataType::QWord => "REG_QWORD",
            DataType::String => "REG_SZ",
            DataType::MultiString => "REG_MULTI_SZ",
            DataType::ExpandString => "REG_EXPAND_SZ",
        }
    }
}

/// Converting a data type to its native tag and back yields the same data
/// type: the mapping between the supported set and its tags is a bijection.
pub proof fn lemma_tag_round_trip(d: DataType)
    ensures
        DataType::spec_of_value(d.spec_value()) == Some(d),
{
}

} // verus!
