//! Byte strings that end at the first NUL byte, as Win32 fixed-size name
//! buffers hold them.
use vstd::prelude::*;

verus! {

/// Index of the first NUL byte of `bytes`, or its length when it holds none.
pub open spec fn nul_index(bytes: Seq<u8>) -> nat
    decreases bytes.len(),
{
    if bytes.len() == 0 {
        0
    } else if bytes[0] == 0 {
        0
    } else {
        1 + nul_index(bytes.drop_first())
    }
}

/// The bytes of `bytes` before its first NUL byte.
pub open spec fn c_str(bytes: Seq<u8>) -> Seq<u8> {
    bytes.take(nul_index(bytes) as int)
}

/// `i` is the first NUL position of `bytes` when no byte before it is NUL and
/// it is either the end of `bytes` or a NUL byte itself.
pub proof fn lemma_nul_index_unique(bytes: Seq<u8>, i: int)
    requires
        0 <= i <= bytes.len(),
        forall|j: int| 0 <= j < i ==> bytes[j] != 0,
        i == bytes.len() || bytes[i] == 0,
    ensures
        nul_index(bytes) == i,
    decreases i,
{
    if i > 0 {
        let rest = bytes.drop_first();
        assert forall|j: int| 0 <= j < i - 1 implies rest[j] != 0 by {
            assert(rest[j] == bytes[j + 1]);
        }
        if i < bytes.len() {
            assert(rest[i - 1] == bytes[i]);
        }
        lemma_nul_index_unique(rest, i - 1);
    }
}

/// What a NUL-terminated prefix is: it is a prefix of the buffer, holds no NUL
/// byte, and is followed by a NUL byte unless it is the whole buffer.
pub proof fn lemma_c_str_is_nul_terminated_prefix(bytes: Seq<u8>)
    ensures
        nul_index(bytes) <= bytes.len(),
        c_str(bytes) == bytes.take(c_str(bytes).len() as int),
        forall|j: int| 0 <= j < c_str(bytes).len() ==> #[trigger] c_str(bytes)[j] != 0,
        c_str(bytes).len() < bytes.len() ==> bytes[c_str(bytes).len() as int] == 0,
    decreases bytes.len(),
{
    if bytes.len() > 0 && bytes[0] != 0 {
        let rest = bytes.drop_first();
        lemma_c_str_is_nul_terminated_prefix(rest);
        let n = nul_index(bytes) as int;
        assert forall|j: int| 0 <= j < n implies #[trigger] c_str(bytes)[j] != 0 by {
            if j > 0 {
                assert(c_str(rest)[j - 1] == bytes[j]);
            }
        }
        if n < bytes.len() {
            assert(bytes[n] == rest[n - 1]);
        }
    }
}

/// Copies the bytes of `bytes` that come before its first NUL byte.
pub fn until_nul(bytes: &[u8]) -> (name: Vec<u8>)
    ensures
        name@ == c_str(bytes@),
{
    let mut name: Vec<u8> = Vec::new();
    let mut i: usize = 0;
    while i < bytes.len() && bytes[i] != 0
        invariant
            i <= bytes@.len(),
            name@ == bytes@.take(i as int),
            forall|j: int| 0 <= j < i ==> bytes@[j] != 0,
        decreases bytes@.len() - i,
    {
        name.push(bytes[i]);
        i = i + 1;
        assert(name@ =~= bytes@.take(i as int));
    }
    proof {
        lemma_nul_index_unique(bytes@, i as int);
    }
    name
}

} // verus!
