//! Texts that go to the engine as zero-terminated strings.

use vstd::prelude::*;
use vstd::string::StringSliceAdditionalSpecFns;
use vstd::utf8::encode_utf8;

verus! {

/// No byte of the run is zero.
pub open spec fn nul_free(bytes: Seq<u8>) -> bool {
    forall|i: int| 0 <= i < bytes.len() ==> bytes[i] != 0
}

/// The text can be handed over as a zero-terminated string: none of the
/// bytes that encode it is zero.
pub open spec fn terminable(text: Seq<char>) -> bool {
    nul_free(encode_utf8(text))
}

/// Tells whether the text can be handed over as a zero-terminated string.
pub fn is_terminable(text: &str) -> (b: bool)
    ensures
        b == terminable(text@),
{
    let bytes = text.as_bytes();
    let mut i: usize = 0;
    while i < bytes.len()
        invariant
            i <= bytes@.len(),
            bytes@ == encode_utf8(text@),
            forall|t: int| 0 <= t < i ==> bytes@[t] != 0,
        decreases bytes@.len() - i,
    {
        if bytes[i] == 0 {
            return false;
        }
        i += 1;
    }
    true
}

} // verus!
