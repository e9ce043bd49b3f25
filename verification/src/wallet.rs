//! Key material for one probe cycle: a fresh secp256k1 key pair, held as
//! plain bytes, and the 20-byte account address derived from the public
//! key's uncompressed encoding by the ledger's canonical hash.

use vstd::prelude::*;
use vstd::slice::slice_subrange;
use vstd::slice::slice_to_vec;

use crate::clock::get_nstime;
use crate::scalar::valid_scalar;

verus! {

/// The Keccak-256 digest of a byte string. Left unspecified here: the
/// digest is pinned down only as a function of the input bytes.
pub uninterp spec fn keccak256_of(data: Seq<u8>) -> Seq<u8>;

/// Relies on `web3::signing::keccak256`: a 32-byte Keccak-256 digest,
/// determined by the input bytes alone.
#[verifier::external_body]
fn keccak256_digest(data: &[u8]) -> (r: Vec<u8>)
    ensures
        r@ == keccak256_of(data@),
        r@.len() == 32,
{
    web3::signing::keccak256(data).to_vec()
}

/// A well-formed uncompressed public-key encoding: 65 bytes opening with
/// the standard format byte 4.
pub open spec fn valid_public_encoding(bytes: Seq<u8>) -> bool {
    bytes.len() == 65 && bytes[0] == 4
}

/// The account address an uncompressed public-key encoding derives to:
/// the low 20 bytes of the Keccak-256 digest of the encoding without its
/// leading format byte.
pub open spec fn spec_address_of(public_key: Seq<u8>) -> Seq<u8> {
    keccak256_of(public_key.subrange(1, 65)).subrange(12, 32)
}

/// Derives the 20-byte account address of a public key: strips the format
/// byte from the uncompressed encoding, hashes the remaining 64 bytes, and
/// keeps the low 20 bytes of the digest. Deterministic — the result is a
/// function of the encoding alone — and always exactly 20 bytes.
pub fn public_key_address(public_key: &Vec<u8>) -> (r: Vec<u8>)
    requires
        public_key@.len() == 65,
    ensures
        r@ == spec_address_of(public_key@),
        r@.len() == 20,
{
    let tail = slice_subrange(public_key.as_slice(), 1, 65);
    let digest = keccak256_digest(tail);
    slice_to_vec(slice_subrange(digest.as_slice(), 12, 32))
}

/// Law: address derivation is deterministic — one public-key encoding has
/// one address, whatever cycle or worker derives it.
pub proof fn lemma_address_deterministic(first: Seq<u8>, second: Seq<u8>)
    requires
        first == second,
    ensures
        spec_address_of(first) == spec_address_of(second),
{
}

/// Relies on secp256k1: `Secp256k1::generate_keypair` draws the secret key
/// through `SecretKey::new`, which redraws until the library's own range
/// check passes, so the returned scalar is 32 bytes, nonzero and strictly
/// below the curve order; `PublicKey::serialize_uncompressed` returns the
/// 65-byte SEC1 encoding opening with the format byte 4. The randomness
/// comes from a ChaCha-based generator seeded with the caller's value.
#[verifier::external_body]
fn fresh_keypair_bytes(seed: u64) -> (r: (Vec<u8>, Vec<u8>))
    ensures
        valid_scalar(r.0@),
        valid_public_encoding(r.1@),
{
    let engine = secp256k1::Secp256k1::new();
    let mut rng = <secp256k1::rand::rngs::StdRng as secp256k1::rand::SeedableRng>::seed_from_u64(
        seed,
    );
    let (sk, pk) = engine.generate_keypair(&mut rng);
    (sk.secret_bytes().to_vec(), pk.serialize_uncompressed().to_vec())
}

/// Generates a fresh key pair, seeding the generator with a
/// nanosecond-resolution clock reading so that rapid successive calls on
/// one host still diverge. The secret scalar always lies strictly inside
/// the curve's valid range: never zero, never at or above the order.
pub fn generate_keypair() -> (r: (Vec<u8>, Vec<u8>))
    ensures
        valid_scalar(r.0@),
        valid_public_encoding(r.1@),
{
    let seed = get_nstime();
    fresh_keypair_bytes(seed)
}

/// One cycle's key material: the secret scalar, the public key's
/// uncompressed encoding, and the account address derived from it. Owned
/// by the cycle that generated it and discarded when the cycle ends.
pub struct Wallet {
    pub secret_key: Vec<u8>,
    pub public_key: Vec<u8>,
    pub public_address: Vec<u8>,
}

/// A well-formed wallet holds a secret scalar in the curve's valid range,
/// a 65-byte uncompressed public-key encoding, and exactly the address
/// that encoding derives to.
pub open spec fn wallet_wf(w: Wallet) -> bool {
    &&& valid_scalar(w.secret_key@)
    &&& valid_public_encoding(w.public_key@)
    &&& w.public_address@ == spec_address_of(w.public_key@)
}

impl Wallet {
    /// Bundles a key pair with the address its public key derives to.
    pub fn new(sk: &Vec<u8>, pk: &Vec<u8>) -> (r: Wallet)
        requires
            valid_scalar(sk@),
            valid_public_encoding(pk@),
        ensures
            r.secret_key@ == sk@,
            r.public_key@ == pk@,
            r.public_address@ == spec_address_of(pk@),
            wallet_wf(r),
    {
        let address = public_key_address(pk);
        let secret_key = sk.clone();
        let public_key = pk.clone();
        proof {
            assert(secret_key@ =~= sk@);
            assert(public_key@ =~= pk@);
        }
        Wallet { secret_key, public_key, public_address: address }
    }
}

} // verus!
