//! Decoded registry values.

use vstd::prelude::*;

use crate::text;

verus! {

/// A decoded registry value: a 32-bit integer or a text string.
#[derive(Debug, Clone)]
pub enum Value {
    DWord(u32),
    String(String),
}

impl Value {
    /// The display form of the value: the decimal digits of an integer
    /// value, the text of a string value.
    pub open spec fn spec_display(self) -> Seq<char> {
        match self {
            Value::DWord(v) => text::spec_u32_dec(v as nat),
            Value::String(s) => s@,
        }
    }

    /// Renders the display form of the value.
    pub fn display_string(&self) -> (r: String)
        ensures
            r@ == self.spec_display(),
    {
        match self {
            Value::DWord(v) => text::u32_to_decimal(*v),
            Value::String(s) => s.clone(),
        }
    }
}

} // verus!
