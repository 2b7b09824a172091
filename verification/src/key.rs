//! Account addresses.
//!
//! A 32-byte key, compared byte for byte. Equality and the lexicographic order
//! are the only operations the vault and the queue perform on keys; both are
//! stated over the bytes, which are the key's view.

use vstd::prelude::*;

verus! {

broadcast use vstd::array::group_array_axioms;

/// A 32-byte account address.
#[derive(Clone, Copy, Debug, PartialEq, Eq, Hash)]
pub struct Pubkey {
    pub bytes: [u8; 32],
}

impl View for Pubkey {
    type V = Seq<u8>;

    open spec fn view(&self) -> Seq<u8> {
        self.bytes@
    }
}

/// The all-zero key, which nobody can sign for.
pub open spec fn zero_bytes() -> Seq<u8> {
    Seq::new(32, |i: int| 0u8)
}

/// `a` sorts strictly before `b`: at the first position where they differ,
/// `a` holds the smaller byte.
pub open spec fn lex_less(a: Seq<u8>, b: Seq<u8>) -> bool {
    exists|i: int|
        0 <= i < a.len() && i < b.len() && a.subrange(0, i) == b.subrange(0, i) && a[i] < b[i]
}

/// Two keys with the same bytes are the same key.
pub proof fn lemma_key_view_injective(a: Pubkey, b: Pubkey)
    ensures
        (a@ == b@) <==> a == b,
{
    if a@ == b@ {
        assert forall|i: int| 0 <= i < 32 implies a.bytes[i] == b.bytes[i] by {
            assert(a.bytes[i] == a@[i]);
            assert(b.bytes[i] == b@[i]);
        }
        assert(a.bytes =~= b.bytes);
    }
}

impl Default for Pubkey {
    /// The all-zero key.
    fn default() -> (r: Self)
        ensures
            r@ == zero_bytes(),
    {
        Pubkey::zero()
    }
}

impl Pubkey {
    /// The key holding exactly `bytes`.
    pub fn new_from_array(bytes: [u8; 32]) -> (k: Pubkey)
        ensures
            k@ == bytes@,
    {
        Pubkey { bytes }
    }

    /// This key's bytes.
    pub fn to_bytes(&self) -> (b: [u8; 32])
        ensures
            b@ == self@,
    {
        self.bytes
    }

    /// The all-zero key.
    pub fn zero() -> (k: Pubkey)
        ensures
            k@ == zero_bytes(),
    {
        let k = Pubkey { bytes: [0u8; 32] };
        assert(k@ =~= zero_bytes());
        k
    }

    /// Whether this is the all-zero key.
    pub fn is_zero(&self) -> (r: bool)
        ensures
            r == (self@ == zero_bytes()),
    {
        let mut i: usize = 0;
        while i < 32
            invariant
                i <= 32,
                self@.len() == 32,
                forall|j: int| 0 <= j < i ==> self@[j] == 0u8,
            decreases 32 - i,
        {
            if self.bytes[i] != 0 {
                assert(self@[i as int] != zero_bytes()[i as int]);
                return false;
            }
            i = i + 1;
        }
        assert(self@ =~= zero_bytes());
        true
    }

    /// Byte-wise equality.
    pub fn same(&self, other: &Pubkey) -> (r: bool)
        ensures
            r == (self@ == other@),
            r == (*self == *other),
    {
        proof {
            lemma_key_view_injective(*self, *other);
        }
        let mut i: usize = 0;
        while i < 32
            invariant
                i <= 32,
                self@.len() == 32,
                other@.len() == 32,
                forall|j: int| 0 <= j < i ==> self@[j] == other@[j],
            decreases 32 - i,
        {
            if self.bytes[i] != other.bytes[i] {
                assert(self@[i as int] != other@[i as int]);
                return false;
            }
            i = i + 1;
        }
        assert(self@ =~= other@);
        true
    }

    /// Strict lexicographic order on the bytes.
    pub fn less_than(&self, other: &Pubkey) -> (r: bool)
        ensures
            r == lex_less(self@, other@),
    {
        let mut i: usize = 0;
        while i < 32
            invariant
                i <= 32,
                self@.len() == 32,
                other@.len() == 32,
                self@.subrange(0, i as int) == other@.subrange(0, i as int),
            decreases 32 - i,
        {
            let a = self.bytes[i];
            let b = other.bytes[i];
            if a != b {
                if a < b {
                    assert(lex_less(self@, other@)) by {
                        assert(self@[i as int] < other@[i as int]);
                    }
                    return true;
                } else {
                    assert(!lex_less(self@, other@)) by {
                        if lex_less(self@, other@) {
                            let k = choose|k: int|
                                0 <= k < self@.len() && k < other@.len() && self@.subrange(0, k)
                                    == other@.subrange(0, k) && self@[k] < other@[k];
                            if k < i {
                                assert(self@[k] == self@.subrange(0, i as int)[k]);
                                assert(other@[k] == other@.subrange(0, i as int)[k]);
                            } else if k > i {
                                assert(self@[i as int] == self@.subrange(0, k)[i as int]);
                                assert(other@[i as int] == other@.subrange(0, k)[i as int]);
                            }
                        }
                    }
                    return false;
                }
            }
            assert(self@.subrange(0, i + 1) =~= self@.subrange(0, i as int).push(a));
            assert(other@.subrange(0, i + 1) =~= other@.subrange(0, i as int).push(b));
            i = i + 1;
        }
        assert(self@ =~= other@) by {
            assert(self@ =~= self@.subrange(0, 32));
            assert(other@ =~= other@.subrange(0, 32));
        }
        assert(!lex_less(self@, other@)) by {
            if lex_less(self@, other@) {
                let k = choose|k: int|
                    0 <= k < self@.len() && k < other@.len() && self@.subrange(0, k)
                        == other@.subrange(0, k) && self@[k] < other@[k];
                assert(self@[k] == other@[k]);
            }
        }
        false
    }
}

} // verus!
