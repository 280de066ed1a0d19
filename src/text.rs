//! Owned, nul-free byte strings and (items, length) arrays that cross the boundary.
use vstd::prelude::*;
use vstd::slice::slice_to_vec;
use vstd::string::*;
use crate::error::{Error, ErrorKind, ErrorView};

verus! {

/// No byte of `b` is the terminator byte `0`.
pub open spec fn nul_free(b: Seq<u8>) -> bool {
    forall|i: int| 0 <= i < b.len() ==> b[i] != 0u8
}

/// The error reported when a text holds an embedded nul byte: an encoding failure.
pub open spec fn nul_error() -> ErrorView {
    ErrorView { kind: ErrorKind::JsonError, detail: "Failed to create CString: nul byte found in provided data"@ }
}

/// An owned boundary string: UTF-8 bytes without an embedded nul.
#[derive(Debug)]
pub struct CText {
    bytes: Vec<u8>,
}

impl CText {
    #[verifier::type_invariant]
    spec fn inv(&self) -> bool {
        nul_free(self.bytes@)
    }

    pub closed spec fn view(&self) -> Seq<u8> {
        self.bytes@
    }

    /// The bytes, handed over to their new owner.
    pub fn into_bytes(self) -> (r: Vec<u8>)
        ensures
            r@ == self.view(),
            nul_free(r@),
    {
        proof {
            use_type_invariant(&self);
        }
        self.bytes
    }

    /// The bytes, borrowed.
    pub fn as_slice(&self) -> (r: &[u8])
        ensures
            r@ == self.view(),
            nul_free(r@),
    {
        proof {
            use_type_invariant(self);
        }
        self.bytes.as_slice()
    }

    /// A copy of the bytes.
    pub fn to_bytes(&self) -> (r: Vec<u8>)
        ensures
            r@ == self.view(),
            nul_free(r@),
    {
        proof {
            use_type_invariant(self);
        }
        slice_to_vec(self.bytes.as_slice())
    }
}

/// Position of the first nul byte of `b`, if any.
pub fn find_nul(b: &[u8]) -> (r: Option<usize>)
    ensures
        r is None <==> nul_free(b@),
        r matches Some(i) ==> i < b@.len() && b@[i as int] == 0u8 && nul_free(b@.subrange(0, i as int)),
{
    let mut i: usize = 0;
    while i < b.len()
        invariant
            i <= b@.len(),
            nul_free(b@.subrange(0, i as int)),
        decreases b@.len() - i,
    {
        if b[i] == 0u8 {
            return Some(i);
        }
        assert(b@.subrange(0, i + 1) =~= b@.subrange(0, i as int).push(b@[i as int]));
        i = i + 1;
    }
    assert(b@.subrange(0, i as int) =~= b@);
    None
}

/// Copies bytes into a boundary string; fails when they hold a nul byte.
pub fn bytes_to_c_text(b: &[u8]) -> (r: Result<CText, Error>)
    ensures
        r is Ok <==> nul_free(b@),
        r matches Ok(t) ==> t.view() == b@,
        r matches Err(e) ==> e@ == nul_error(),
{
    match find_nul(b) {
        Some(_) => Err(Error::new(ErrorKind::JsonError,
            "Failed to create CString: nul byte found in provided data")),
        None => Ok(CText { bytes: slice_to_vec(b) }),
    }
}

/// Converts a text into a boundary string; fails when it holds a nul character.
pub fn to_boundary_string(s: &str) -> (r: Result<CText, Error>)
    ensures
        r is Ok <==> nul_free(vstd::utf8::encode_utf8(s@)),
        r matches Ok(t) ==> t.view() == vstd::utf8::encode_utf8(s@),
        r matches Err(e) ==> e@ == nul_error(),
{
    bytes_to_c_text(s.as_bytes())
}

/// Releases a boundary string and leaves the null form behind; a no-op on the null form.
pub fn free_c_string(p: &mut Option<CText>)
    ensures
        *final(p) is None,
{
    *p = None;
}

/// The boundary form of a list: the null form `(None, 0)` when empty.
pub open spec fn array_form<T>(items: Seq<T>) -> (Option<Seq<T>>, nat) {
    if items.len() == 0 {
        (None, 0)
    } else {
        (Some(items), items.len())
    }
}

/// Hands a list over as an (items, length) pair; an empty list gives the null form.
pub fn to_boundary_array<T>(items: Vec<T>) -> (r: (Option<Vec<T>>, usize))
    ensures
        items@.len() == 0 ==> r.0 is None && r.1 == 0,
        items@.len() > 0 ==> r.0 == Some(items) && r.1 == items@.len(),
{
    let n = items.len();
    if n == 0 {
        (None, 0)
    } else {
        (Some(items), n)
    }
}

/// Releases an (items, length) pair, elements and their owned fields with it, and
/// leaves `(None, 0)`; tolerates `(None, 0)` and an empty list.
pub fn array_call<T>(ptr: &mut Option<Vec<T>>, len: &mut usize)
    ensures
        *final(ptr) is None,
        *final(len) == 0,
{
    *ptr = None;
    *len = 0;
}

} // verus!
