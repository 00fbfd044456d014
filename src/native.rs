//! Strings on their way to the native layer, which reads NUL-terminated bytes.

use vstd::prelude::*;
use vstd::string::StringSliceAdditionalSpecFns;

use crate::error::Error;

verus! {

/// Whether the byte sequence holds a NUL byte.
pub open spec fn has_nul(b: Seq<u8>) -> bool {
    b.contains(0u8)
}

/// The NUL-terminated form of a string that holds no NUL byte.
pub open spec fn c_bytes(s: &str) -> Seq<u8> {
    s.spec_bytes().push(0u8)
}

/// Whether a string can be handed to the native layer: it holds no NUL byte, since
/// the native side would read such a string only up to that byte.
pub open spec fn is_native_str(s: &str) -> bool {
    !has_nul(s.spec_bytes())
}

/// The bytes of `s` followed by a terminating NUL, ready for the native layer;
/// an argument error where `s` itself holds a NUL byte.
pub fn native_string(s: &str) -> (r: Result<Vec<u8>, Error>)
    ensures
        is_native_str(s) <==> r is Ok,
        !is_native_str(s) ==> r == Err::<Vec<u8>, Error>(Error::Argument),
        r matches Ok(v) ==> v@ == c_bytes(s),
{
    let b = s.as_bytes();
    let mut out: Vec<u8> = Vec::new();
    let mut i: usize = 0;
    while i < b.len()
        invariant
            b@ == s.spec_bytes(),
            0 <= i <= b@.len(),
            out@ == b@.subrange(0, i as int),
            !has_nul(out@),
        decreases b@.len() - i,
    {
        if b[i] == 0u8 {
            assert(b@[i as int] == 0u8);
            return Err(Error::Argument);
        }
        out.push(b[i]);
        i = i + 1;
        assert(out@ =~= b@.subrange(0, i as int));
    }
    assert(out@ =~= b@);
    out.push(0u8);
    Ok(out)
}

} // verus!
