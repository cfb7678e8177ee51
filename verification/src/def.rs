//! Registry locations: a root, a key path, a value name, and the expected
//! value type.

use vstd::prelude::*;
use vstd::string::StringExecFns;

use crate::data_type::DataType;

verus! {

/// The registry roots this layer can address: the per-user root, and the
/// all-users root addressed through an explicit security-identifier
/// subpath.
#[derive(Debug, PartialEq, Eq, Structural, Clone, Copy)]
pub enum Root {
    CurrentUser,
    Users,
}

impl Root {
    /// The display name of the root in the canonical path form.
    pub open spec fn spec_str(self) -> Seq<char> {
        match self {
            Root::CurrentUser => "HKCU"@,
            Root::Users => "HKU"@,
        }
    }

    /// The display name of the root in the canonical path form.
    pub fn str(&self) -> (r: &'static str)
        ensures
            r@ == self.spec_str(),
    {
        match self {
            Root::CurrentUser => "HKCU",
            Root::Users => "HKU",
        }
    }
}

/// The canonical display form of a key path below a root.
pub open spec fn spec_key_path_display(root: Root, sub_key: Seq<char>) -> Seq<char> {
    root.spec_str() + "\\"@ + sub_key
}

/// Renders the canonical display form of a key path below a root.
pub fn key_path_display(root: &Root, sub_key: &str) -> (r: String)
    ensures
        r@ == spec_key_path_display(*root, sub_key@),
{
    let mut r = String::from_str(root.str());
    r.append("\\");
    r.append(sub_key);
    r
}

/// One registry location a tweak edits: a root, the key path below it, the
/// value name (the empty string denotes the key's default value), and the
/// value type the tweak expects there.
#[derive(Debug)]
pub struct RegDef {
    pub root: Root,
    pub sub_key: String,
    pub value_name: String,
    pub data_type: DataType,
}

impl RegDef {
    /// The canonical display form of the location: the root and the key
    /// path, followed by the value name when one is present.
    pub open spec fn spec_display(self) -> Seq<char> {
        if self.value_name@.len() == 0 {
            spec_key_path_display(self.root, self.sub_key@)
        } else {
            spec_key_path_display(self.root, self.sub_key@) + "\\"@ + self.value_name@
        }
    }

    fn new(root: Root, sub_key: &str, value_name: &str, data_type: DataType) -> (r: Self)
        ensures
            r.root == root,
            r.sub_key@ == sub_key@,
            r.value_name@ == value_name@,
            r.data_type == data_type,
    {
        Self { root, sub_key: String::from_str(sub_key), value_name: String::from_str(value_name), data_type }
    }

    /// A location below the per-user root.
    pub fn hkcu(sub_key: &str, value_name: &str, data_type: DataType) -> (r: Self)
        ensures
            r.root == Root::CurrentUser,
            r.sub_key@ == sub_key@,
            r.value_name@ == value_name@,
            r.data_type == data_type,
    {
        Self::new(Root::CurrentUser, sub_key, value_name, data_type)
    }

    /// A location below the all-users root; the key path starts with the
    /// security identifier of the user addressed.
    pub fn hku(sub_key: &str, value_name: &str, data_type: DataType) -> (r: Self)
        ensures
            r.root == Root::Users,
            r.sub_key@ == sub_key@,
            r.value_name@ == value_name@,
            r.data_type == data_type,
    {
        Self::new(Root::Users, sub_key, value_name, data_type)
    }

    /// Renders the canonical display form of the location.
    pub fn display_string(&self) -> (r: String)
        ensures
            r@ == self.spec_display(),
    {
        let mut r = key_path_display(&self.root, self.sub_key.as_str());
        if !self.value_name.as_str().is_empty() {
            r.append("\\");
            r.append(self.value_name.as_str());
        }
        r
    }
}

} // verus!
