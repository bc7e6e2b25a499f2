//! Texts as the host reads them: bytes up to a terminating zero.

use vstd::prelude::*;
use vstd::string::StringSliceAdditionalSpecFns;

verus! {

/// Whether some byte of the sequence is zero.
pub open spec fn has_nul(bytes: Seq<u8>) -> bool {
    exists|i: int| 0 <= i < bytes.len() && bytes[i] == 0u8
}

/// Whether the host reads the whole sequence as one text: its last byte is
/// zero and no byte before that is.
pub open spec fn is_c_string(bytes: Seq<u8>) -> bool {
    &&& bytes.len() > 0
    &&& bytes.last() == 0u8
    &&& !has_nul(bytes.drop_last())
}

/// The bytes of `text` followed by the terminating zero, or nothing where
/// `text` itself holds a zero byte: the host would read such a text only up
/// to that byte.
pub fn c_string(text: &str) -> (bytes: Option<Vec<u8>>)
    ensures
        bytes is None <==> has_nul(text.spec_bytes()),
        bytes matches Some(b) ==> b@ == text.spec_bytes().push(0u8) && is_c_string(b@),
{
    let src = text.as_bytes();
    let mut out: Vec<u8> = Vec::new();
    let mut i: usize = 0;
    while i < src.len()
        invariant
            src@ == text.spec_bytes(),
            i <= src@.len(),
            out@ == src@.take(i as int),
            forall|j: int| 0 <= j < i ==> src@[j] != 0u8,
        decreases src@.len() - i,
    {
        let byte: u8 = src[i];
        if byte == 0 {
            return None;
        }
        out.push(byte);
        i = i + 1;
        assert(out@ =~= src@.take(i as int));
    }
    assert(src@.take(i as int) =~= src@);
    out.push(0);
    assert(out@.drop_last() =~= src@);
    Some(out)
}

} // verus!
