//! Bytes that a decoder keeps as they are: options it does not interpret and
//! the payload of the innermost layer.

use vstd::prelude::*;
use vstd::slice::slice_to_vec;

verus! {

/// An owned run of bytes.
#[derive(Clone, Debug, PartialEq, Eq)]
pub struct Blob {
    pub bytes: Vec<u8>,
}

impl View for Blob {
    type V = Seq<u8>;

    open spec fn view(&self) -> Seq<u8> {
        self.bytes@
    }
}

impl Blob {
    /// A copy of `s`.
    pub fn from_slice(s: &[u8]) -> (b: Blob)
        ensures
            b@ == s@,
    {
        Blob { bytes: slice_to_vec(s) }
    }

    /// The number of bytes held.
    pub fn len(&self) -> (n: usize)
        ensures
            n == self@.len(),
    {
        self.bytes.len()
    }

    /// The bytes held.
    pub fn as_slice(&self) -> (s: &[u8])
        ensures
            s@ == self@,
    {
        self.bytes.as_slice()
    }
}

} // verus!
