//! Fixed-size byte words as they appear in event logs, and their numeric reading.
use vstd::prelude::*;

verus! {

/// A 32-byte word: a topic identifier or one slot of a log's payload.
pub type Word = [u8; 32];

/// A 20-byte account or contract address.
pub type Address = [u8; 20];

/// 2^256, the number of distinct words.
pub open spec fn word_modulus() -> nat {
    115792089237316195423570985008687907853269984665640564039457584007913129639936nat
}

/// The unsigned number that a big-endian byte string denotes.
pub open spec fn be_value(s: Seq<u8>) -> nat
    decreases s.len(),
{
    if s.len() == 0 {
        0
    } else {
        be_value(s.drop_last()) * 256 + s.last() as nat
    }
}

/// The signed number that a 32-byte word denotes in two's complement.
pub open spec fn signed_value(s: Seq<u8>) -> int {
    if s[0] >= 128 {
        be_value(s) - word_modulus()
    } else {
        be_value(s) as int
    }
}

/// Every byte of `s` is zero.
pub open spec fn all_zero(s: Seq<u8>) -> bool {
    forall|i: int| 0 <= i < s.len() ==> s[i] == 0
}

/// The `k`-th 32-byte slot of a payload.
pub open spec fn slot(data: Seq<u8>, k: int) -> Seq<u8> {
    data.subrange(32 * k, 32 * k + 32)
}

/// The address held in the low 20 bytes of a word.
pub open spec fn address_in(w: Seq<u8>) -> Seq<u8> {
    w.subrange(12, 32)
}

/// A big-endian string is zero exactly when each of its bytes is.
pub proof fn lemma_be_value_zero(s: Seq<u8>)
    ensures
        (be_value(s) == 0) <==> all_zero(s),
    decreases s.len(),
{
    if s.len() > 0 {
        lemma_be_value_zero(s.drop_last());
        if all_zero(s) {
            assert(all_zero(s.drop_last()));
        }
        if be_value(s) == 0 {
            assert forall|i: int| 0 <= i < s.len() implies s[i] == 0 by {
                if i < s.len() - 1 {
                    assert(s.drop_last()[i] == s[i]);
                }
            }
        }
    }
}

/// Whether a word denotes zero.
pub fn is_zero(w: &Word) -> (r: bool)
    ensures
        r == (be_value(w@) == 0),
{
    let mut i: usize = 0;
    while i < 32
        invariant
            i <= 32,
            forall|j: int| 0 <= j < i ==> w@[j] == 0,
        decreases 32 - i,
    {
        if w[i] != 0 {
            assert(!all_zero(w@));
            proof {
                lemma_be_value_zero(w@);
            }
            return false;
        }
        i += 1;
    }
    proof {
        lemma_be_value_zero(w@);
    }
    true
}

/// Copies the `k`-th 32-byte slot out of a payload.
pub fn read_slot(data: &Vec<u8>, k: usize) -> (r: Word)
    requires
        32 * k + 32 <= data@.len(),
    ensures
        r@ == slot(data@, k as int),
{
    let mut w: Word = [0u8; 32];
    let n: usize = data.len();
    assert(32 * k <= n);
    let start: usize = 32 * k;
    let mut i: usize = 0;
    while i < 32
        invariant
            i <= 32,
            start == 32 * k,
            start + 32 <= data@.len(),
            forall|j: int| 0 <= j < i ==> w@[j] == data@[start + j],
        decreases 32 - i,
    {
        w[i] = data[start + i];
        i += 1;
    }
    assert(w@ =~= slot(data@, k as int));
    w
}

/// The address held in the low 20 bytes of a word.
pub fn word_address(w: &Word) -> (r: Address)
    ensures
        r@ == address_in(w@),
{
    let mut a: Address = [0u8; 20];
    let mut i: usize = 0;
    while i < 20
        invariant
            i <= 20,
            forall|j: int| 0 <= j < i ==> a@[j] == w@[12 + j],
        decreases 20 - i,
    {
        a[i] = w[12 + i];
        i += 1;
    }
    assert(a@ =~= address_in(w@));
    a
}

/// Byte-wise equality of two words.
pub fn words_equal(a: &Word, b: &Word) -> (r: bool)
    ensures
        r == (a@ == b@),
{
    let mut i: usize = 0;
    while i < 32
        invariant
            i <= 32,
            forall|j: int| 0 <= j < i ==> a@[j] == b@[j],
        decreases 32 - i,
    {
        if a[i] != b[i] {
            return false;
        }
        i += 1;
    }
    assert(a@ =~= b@);
    true
}

} // verus!
