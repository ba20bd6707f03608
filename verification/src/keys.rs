use vstd::prelude::*;

verus! {

/// The all-zero 32-byte value. It doubles as the "no key" marker for
/// identifiers and as the "never written" marker for stored nullifiers.
pub open spec fn zero_key() -> Seq<u8> {
    Seq::new(32, |i: int| 0u8)
}

/// The all-zero 32-byte word as a value, for use in specification
/// expressions that build records.
pub open spec fn zero_word() -> [u8; 32] {
    vstd::array::spec_array_fill_for_copy_type::<u8, 32>(0u8)
}

/// Byte-for-byte comparison of two 32-byte values.
pub fn key_eq(a: &[u8; 32], b: &[u8; 32]) -> (r: bool)
    ensures
        r <==> a@ == b@,
{
    let mut i: usize = 0;
    while i < 32
        invariant
            0 <= i <= 32,
            forall|j: int| 0 <= j < i ==> a@[j] == b@[j],
        decreases 32 - i,
    {
        if a[i] != b[i] {
            assert(a@[i as int] != b@[i as int]);
            return false;
        }
        i = i + 1;
    }
    proof {
        assert(a@ =~= b@);
    }
    true
}

/// Tests whether a 32-byte value is all zero.
pub fn is_zero_key(a: &[u8; 32]) -> (r: bool)
    ensures
        r <==> a@ == zero_key(),
{
    let mut i: usize = 0;
    while i < 32
        invariant
            0 <= i <= 32,
            forall|j: int| 0 <= j < i ==> a@[j] == 0u8,
        decreases 32 - i,
    {
        if a[i] != 0 {
            assert(a@[i as int] != zero_key()[i as int]);
            return false;
        }
        i = i + 1;
    }
    proof {
        assert(a@ =~= zero_key());
    }
    true
}

} // verus!
