//! Owned name strings.

use vstd::prelude::*;

verus! {

/// A name string that the native interfaces handed out, owned by exactly one
/// holder.
#[derive(Debug)]
pub struct BString(String);

impl View for BString {
    type V = Seq<char>;

    closed spec fn view(&self) -> Seq<char> {
        self.0@
    }
}

impl BString {
    /// Takes over a string that a native call handed out. A native call that
    /// has no name to give hands out nothing; such a value cannot be
    /// attached.
    pub fn attach(s: Option<String>) -> (attached: BString)
        requires
            s is Some,
        ensures
            attached@ == s->0@,
    {
        match s {
            Some(text) => BString(text),
            None => vstd::pervasive::unreached(),
        }
    }

    /// The name as a string slice.
    pub fn as_str(&self) -> (s: &str)
        ensures
            s@ == self@,
    {
        self.0.as_str()
    }

    /// A copy of the name.
    pub fn to_string(&self) -> (s: String)
        ensures
            s@ == self@,
    {
        self.0.clone()
    }
}

} // verus!
