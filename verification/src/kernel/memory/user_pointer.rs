//! User string extraction: the bytes of a NUL-terminated user string, read
//! from the user range that holds it.

use vstd::prelude::*;

verus! {

/// Whether `bytes` holds a NUL byte.
pub open spec fn has_terminator(bytes: Seq<u8>) -> bool {
    exists|i: int| 0 <= i < bytes.len() && bytes[i] == 0
}

/// Whether `n` is the index of the first NUL byte of `bytes`.
pub open spec fn is_first_terminator(bytes: Seq<u8>, n: int) -> bool {
    &&& 0 <= n < bytes.len()
    &&& bytes[n] == 0
    &&& forall|i: int| 0 <= i < n ==> bytes[i] != 0
}

/// Return the bytes of `range_bytes` before its first NUL byte; `None` when
/// the range holds no NUL byte, so that the string does not end inside it.
pub fn cstr_bytes_before_terminator(range_bytes: &[u8]) -> (r: Option<Vec<u8>>)
    ensures
        r is Some <==> has_terminator(range_bytes@),
        r matches Some(value) ==> exists|n: int|
            is_first_terminator(range_bytes@, n) && value@ == range_bytes@.take(n),
{
    let mut value: Vec<u8> = Vec::new();
    let mut offset: usize = 0;
    while offset < range_bytes.len()
        invariant
            offset <= range_bytes@.len(),
            value@ == range_bytes@.take(offset as int),
            forall|i: int| 0 <= i < offset ==> range_bytes@[i] != 0,
        decreases range_bytes@.len() - offset,
    {
        let byte = range_bytes[offset];
        if byte == 0 {
            proof {
                assert(is_first_terminator(range_bytes@, offset as int));
            }
            return Some(value);
        }
        value.push(byte);
        proof {
            assert(value@ =~= range_bytes@.take(offset as int + 1));
        }
        offset = offset + 1;
    }
    proof {
        if has_terminator(range_bytes@) {
            let i = choose|i: int| 0 <= i < range_bytes@.len() && range_bytes@[i] == 0;
            assert(range_bytes@[i] != 0);
        }
    }
    None
}

} // verus!
