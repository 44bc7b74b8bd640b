use vstd::prelude::*;
use vstd::string::StringSliceAdditionalSpecFns;

verus! {

/// The null-terminated form of `bytes`, or `None` where `bytes` holds a null
/// byte of its own and so cannot be represented.
pub open spec fn c_string_of(bytes: Seq<u8>) -> Option<Seq<u8>> {
    if bytes.contains(0u8) {
        None
    } else {
        Some(bytes.push(0u8))
    }
}

/// Encodes `text` as a null-terminated byte sequence: its UTF-8 bytes followed
/// by a single zero byte. Returns `None` iff `text` holds an embedded null.
pub fn to_c_bytes(text: &str) -> (r: Option<Vec<u8>>)
    ensures
        r matches Some(v) ==> c_string_of(text.spec_bytes()) == Some(v@),
        r is None ==> c_string_of(text.spec_bytes()) is None,
{
    let bytes = text.as_bytes();
    let n = bytes.len();
    let mut out: Vec<u8> = Vec::new();
    let mut i: usize = 0;
    while i < n
        invariant
            n == bytes@.len(),
            bytes@ == text.spec_bytes(),
            i <= n,
            out@ == bytes@.subrange(0, i as int),
            forall|k: int| 0 <= k < i ==> bytes@[k] != 0u8,
        decreases n - i,
    {
        if bytes[i] == 0u8 {
            assert(bytes@.contains(0u8)) by {
                assert(bytes@[i as int] == 0u8);
            }
            return None;
        }
        out.push(bytes[i]);
        assert(out@ =~= bytes@.subrange(0, i + 1));
        i = i + 1;
    }
    assert(out@ =~= bytes@);
    out.push(0u8);
    Some(out)
}

} // verus!
