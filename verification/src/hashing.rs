use vstd::prelude::*;

verus! {

/// The 2-to-1 compression function of the commitment tree: the Poseidon hash
/// over BN254 of two 32-byte words, itself a function of its arguments alone.
/// Its value is never stated; the engine only relies on it being
/// deterministic.
pub uninterp spec fn hash_pair_of(left: Seq<u8>, right: Seq<u8>) -> Seq<u8>;

/// Relies on light_poseidon's `Poseidon::<Fr>::new_circom(2)` and
/// `PoseidonHasher::hash`: with the circom parameters for two inputs both
/// always return `Ok`, and the digest depends only on the two field elements,
/// which `ark_ff`'s `from_be_bytes_mod_order` derives from the input bytes
/// alone. The result is the digest's 32-byte big-endian encoding.
#[verifier::external_body]
pub fn hash_pair(left: &[u8; 32], right: &[u8; 32]) -> (r: [u8; 32])
    ensures
        r@ == hash_pair_of(left@, right@),
{
    let mut hasher = light_poseidon::Poseidon::<ark_bn254::Fr>::new_circom(2).unwrap();
    let l = <ark_bn254::Fr as ark_ff::PrimeField>::from_be_bytes_mod_order(left);
    let rt = <ark_bn254::Fr as ark_ff::PrimeField>::from_be_bytes_mod_order(right);
    let digest = light_poseidon::PoseidonHasher::hash(&mut hasher, &[l, rt]).unwrap();
    let bytes = ark_ff::BigInteger::to_bytes_be(
        &<ark_bn254::Fr as ark_ff::PrimeField>::into_bigint(digest),
    );
    let mut out = [0u8; 32];
    let start = 32usize.saturating_sub(bytes.len());
    out[start..].copy_from_slice(&bytes);
    out
}

} // verus!
