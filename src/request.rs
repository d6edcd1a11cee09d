//! Turns caller text into the NUL-terminated form the engine reads.
use vstd::prelude::*;
use crate::error::NulError;
use vstd::string::StringSliceAdditionalSpecFns;

verus! {

/// The statement's bytes hold no NUL byte.
pub open spec fn nul_free(b: Seq<u8>) -> bool {
    forall|i: int| 0 <= i < b.len() ==> b[i] != 0u8
}

/// `p` is the index of the first NUL byte of `b`.
pub open spec fn first_nul_at(b: Seq<u8>, p: int) -> bool {
    &&& 0 <= p < b.len()
    &&& b[p] == 0u8
    &&& nul_free(b.take(p))
}

/// The engine's input for `statement`: its bytes followed by one NUL byte, or the
/// position of the NUL byte that makes it unrepresentable.
pub fn terminated(statement: &str) -> (r: Result<Vec<u8>, NulError>)
    ensures
        match r {
            Ok(v) => nul_free(statement.spec_bytes()) && v@ == statement.spec_bytes().push(0u8),
            Err(e) => first_nul_at(statement.spec_bytes(), e.position as int) && e.bytes@
                == statement.spec_bytes(),
        },
        r is Ok <==> nul_free(statement.spec_bytes()),
{
    let bytes = statement.as_bytes();
    let n = bytes.len();
    let mut out: Vec<u8> = Vec::new();
    let mut i: usize = 0;
    while i < n
        invariant
            n == bytes@.len(),
            bytes@ == statement.spec_bytes(),
            0 <= i <= n,
            out@ == bytes@.take(i as int),
            nul_free(bytes@.take(i as int)),
        decreases n - i,
    {
        let b = bytes[i];
        if b == 0u8 {
            return Err(NulError { position: i, bytes: vstd::slice::slice_to_vec(bytes) });
        }
        out.push(b);
        i = i + 1;
        assert(bytes@.take(i as int) == bytes@.take(i - 1).push(b));
    }
    out.push(0u8);
    assert(bytes@.take(n as int) == bytes@);
    Ok(out)
}

} // verus!
