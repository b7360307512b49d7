//! NUL-terminated strings handed to UCX.
use vstd::prelude::*;
use vstd::string::StringSliceAdditionalSpecFns;

verus! {

/// A string meant for C held an interior NUL byte.
#[derive(Debug, Clone, PartialEq, Eq)]
pub struct NulError {
    /// Index of the first NUL byte.
    pub nul_position: usize,
    /// All bytes of the rejected string.
    pub bytes: Vec<u8>,
}

impl NulError {
    /// Index of the first NUL byte.
    pub fn nul_position(&self) -> (p: usize)
        ensures
            p == self.nul_position,
    {
        self.nul_position
    }
}

/// Whether `bytes` contains a NUL byte.
pub open spec fn spec_has_nul(bytes: Seq<u8>) -> bool {
    exists|i: int| 0 <= i < bytes.len() && bytes[i] == 0
}

/// `p` is the index of the first NUL byte of `bytes`.
pub open spec fn spec_is_first_nul(bytes: Seq<u8>, p: int) -> bool {
    &&& 0 <= p < bytes.len()
    &&& bytes[p] == 0
    &&& forall|j: int| 0 <= j < p ==> bytes[j] != 0
}

/// The bytes of a C string made from `bytes`: `Ok` with the bytes themselves
/// (the terminating NUL is implied) when none of them is NUL, otherwise an
/// error at the first NUL.
pub open spec fn spec_c_string_ok(bytes: Seq<u8>, r: Result<Vec<u8>, NulError>) -> bool {
    match r {
        Ok(v) => !spec_has_nul(bytes) && v@ == bytes,
        Err(e) => spec_has_nul(bytes) && spec_is_first_nul(bytes, e.nul_position as int) && e.bytes@
            == bytes,
    }
}

/// Checks `s` for interior NUL bytes and returns its bytes for use as a C
/// string (as `CString::new` does).
pub fn c_string(s: &str) -> (r: Result<Vec<u8>, NulError>)
    ensures
        spec_c_string_ok(s.spec_bytes(), r),
{
    let bytes = s.as_bytes();
    let mut out: Vec<u8> = Vec::new();
    let mut i: usize = 0;
    while i < bytes.len()
        invariant
            bytes@ == s.spec_bytes(),
            0 <= i <= bytes@.len(),
            out@ == bytes@.subrange(0, i as int),
            forall|j: int| 0 <= j < i ==> bytes@[j] != 0,
        decreases bytes@.len() - i,
    {
        if bytes[i] == 0 {
            let mut all: Vec<u8> = out;
            let mut k: usize = i;
            while k < bytes.len()
                invariant
                    bytes@ == s.spec_bytes(),
                    i <= k <= bytes@.len(),
                    all@ == bytes@.subrange(0, k as int),
                decreases bytes@.len() - k,
            {
                all.push(bytes[k]);
                k = k + 1;
            }
            assert(all@ == bytes@);
            return Err(NulError { nul_position: i, bytes: all });
        }
        out.push(bytes[i]);
        i = i + 1;
    }
    assert(out@ == bytes@);
    Ok(out)
}

} // verus!
