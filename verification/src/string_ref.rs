//! Non-owning string references of the native C API.
//!
//! A `MlirStringRef` is a raw view: the address of a byte buffer and a byte
//! length. It neither owns nor null-terminates the referenced bytes; keeping
//! the referenced memory alive for as long as the view is used is a documented
//! caller obligation, exactly as in the wrapped ABI. The constructors here
//! stand in for the header-only construction function of the native API.

use vstd::prelude::*;
use vstd::string::StringSliceAdditionalSpecFns;

verus! {

/// A non-owning reference to a byte buffer: the buffer's address and its
/// length in bytes.
#[derive(Clone, Copy, Debug, PartialEq, Eq, Hash, Structural)]
pub struct MlirStringRef {
    pub data: usize,
    pub length: usize,
}

/// Relies on `str::as_ptr`: the data pointer of a string slice is always
/// non-null (even an empty slice carries a dangling, non-null pointer), so
/// its address is never zero.
#[verifier::external_body]
fn text_address(s: &str) -> (r: usize)
    ensures
        r != 0,
{
    s.as_ptr() as usize
}

/// Constructs a string reference from the buffer address and length.
pub fn mlirStringRefCreate(data: usize, length: usize) -> (r: MlirStringRef)
    ensures
        r.data == data,
        r.length == length,
{
    MlirStringRef { data, length }
}

/// Constructs a string reference that borrows the bytes of a string slice.
///
/// The slice must outlive every use of the returned reference; the reference
/// records the slice's byte length and the non-zero address of its bytes.
pub fn mlirStringRefCreateFromStr(s: &str) -> (r: MlirStringRef)
    ensures
        r.length == s.spec_bytes().len() as usize,
        r.data != 0,
{
    MlirStringRef { data: text_address(s), length: s.len() }
}

impl MlirStringRef {
    /// Create a new MlirStringRef borrowing the bytes of a string slice.
    ///
    /// The source text must outlive the returned reference; the reference
    /// reports exactly the slice's byte length, and it is empty exactly when
    /// the slice has no bytes.
    pub fn from_str(s: &str) -> (r: Self)
        ensures
            r.length == s.spec_bytes().len() as usize,
            r.data != 0,
    {
        mlirStringRefCreateFromStr(s)
    }

    /// Create a new MlirStringRef from a buffer address and length.
    pub fn new(data: usize, length: usize) -> (r: Self)
        ensures
            r.data == data,
            r.length == length,
    {
        MlirStringRef { data, length }
    }

    /// Check if the string reference is empty.
    pub fn is_empty(&self) -> (r: bool)
        ensures
            r == (self.length == 0),
    {
        self.length == 0
    }

    /// Get the length of the string reference, in bytes.
    pub fn len(&self) -> (r: usize)
        ensures
            r == self.length,
    {
        self.length
    }
}

impl Default for MlirStringRef {
    /// The zero-initialized (null, empty) string reference.
    fn default() -> (r: Self)
        ensures
            r.data == 0,
            r.length == 0,
    {
        MlirStringRef { data: 0, length: 0 }
    }
}

} // verus!
