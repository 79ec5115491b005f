//! Identities from seeds: an ECDSA public key on secp256k1, derived from
//! the development phrase along a hard path, and the address of a key.

use crate::account::AccountId;
use sp_core::Hasher;
use sp_core::Pair;
use vstd::prelude::*;
use vstd::string::StringExecFns;

verus! {

/// A compressed secp256k1 public key.
#[derive(Clone, Copy, Debug, PartialEq, Eq, Hash)]
pub struct PublicKey(pub [u8; 33]);

impl View for PublicKey {
    type V = Seq<u8>;

    open spec fn view(&self) -> Seq<u8> {
        self.0@
    }
}

/// The seed gives no key pair under the signature scheme.
#[derive(Clone, Copy, Debug, PartialEq, Eq)]
pub struct DerivationError {}

/// `sp_core::crypto::SecretStringError`, the reason why a secret URI gave
/// no key pair. It is carried, never looked into.
#[verifier::external_type_specification]
#[verifier::external_body]
pub struct ExSecretStringError(sp_core::crypto::SecretStringError);

/// The compressed public key of the ECDSA pair that a secret URI names,
/// `None` where the URI names none.
pub uninterp spec fn ecdsa_public_of(suri: Seq<char>) -> Option<Seq<u8>>;

/// The Keccak-256 digest of a byte string.
pub uninterp spec fn keccak_256(data: Seq<u8>) -> Seq<u8>;

/// Interprets a secret URI with `sp_core::ecdsa::Pair::from_string`, no
/// password override, and takes the pair's public key. The key is a
/// function of the URI alone: the junctions and the password are read from
/// it, and hashing and curve arithmetic do the rest.
///
/// Only a URI that begins with `/` is let in. Its phrase is the
/// development phrase; a URI that spells a raw secret in hex makes the
/// call panic where that secret is no scalar of the curve. With the
/// development phrase the call gives up without a result only if the
/// secret at the end of the path is no such scalar, which takes a
/// collision-like accident of the hash and has no known instance.
#[verifier::external_body]
fn ecdsa_public_from_string(suri: &str) -> (derived: Result<
    [u8; 33],
    sp_core::crypto::SecretStringError,
>)
    requires
        suri@.len() >= 1,
        suri@[0] == '/',
    ensures
        derived is Ok <==> ecdsa_public_of(suri@) is Some,
        derived matches Ok(key) ==> ecdsa_public_of(suri@) == Some(key@),
{
    sp_core::ecdsa::Pair::from_string(suri, None).map(|pair| pair.public().0)
}

/// Hashes with `sp_core::KeccakHasher::hash`, which is Keccak-256 over
/// the whole input.
#[verifier::external_body]
fn keccak_digest(data: &[u8]) -> (digest: [u8; 32])
    ensures
        digest@ == keccak_256(data@),
{
    sp_core::KeccakHasher::hash(data).0
}

/// The secret URI of a seed: the seed as one hard junction under the
/// development phrase.
pub open spec fn derivation_path(seed: Seq<char>) -> Seq<char> {
    seq!['/', '/'] + seed
}

/// The address of a public key: the last twenty bytes of the Keccak-256
/// digest of the key's bytes.
pub open spec fn spec_address_of(key: Seq<u8>) -> Seq<u8> {
    keccak_256(key).subrange(12, 32)
}

/// The key that a seed gives.
pub open spec fn spec_get_from_seed(seed: Seq<char>) -> Option<Seq<u8>> {
    ecdsa_public_of(derivation_path(seed))
}

/// The address that a seed gives.
pub open spec fn spec_get_account_id_from_seed(seed: Seq<char>) -> Option<Seq<u8>> {
    match spec_get_from_seed(seed) {
        Some(key) => Some(spec_address_of(key)),
        None => None,
    }
}

impl PublicKey {
    /// The address of the digest of this key.
    pub fn into_account(&self) -> (id: AccountId)
        ensures
            id@ == spec_address_of(self@),
    {
        let digest = keccak_digest(self.0.as_slice());
        AccountId::from_digest(&digest)
    }

    /// The raw bytes of the key.
    pub fn as_bytes(&self) -> (bytes: &[u8; 33])
        ensures
            bytes@ == self@,
    {
        &self.0
    }
}

/// Writes the secret URI of a seed.
pub fn seed_to_path(seed: &str) -> (path: String)
    ensures
        path@ == derivation_path(seed@),
{
    let mut path = "//".to_owned();
    proof {
        reveal_strlit("//");
        assert("//"@ =~= seq!['/', '/']);
    }
    path.append(seed);
    path
}

/// Helper function to generate a public key from seed. The key is the same
/// for the same seed, wherever and whenever it is asked for.
pub fn get_from_seed(seed: &str) -> (derived: Result<PublicKey, DerivationError>)
    ensures
        match spec_get_from_seed(seed@) {
            Some(key) => derived matches Ok(public) && public@ == key,
            None => derived is Err,
        },
{
    let path = seed_to_path(seed);
    match ecdsa_public_from_string(path.as_str()) {
        Ok(bytes) => Ok(PublicKey(bytes)),
        Err(_) => Err(DerivationError {  }),
    }
}

/// Helper function to generate an account ID from seed.
pub fn get_account_id_from_seed(seed: &str) -> (derived: Result<AccountId, DerivationError>)
    ensures
        match spec_get_account_id_from_seed(seed@) {
            Some(address) => derived matches Ok(id) && id@ == address,
            None => derived is Err,
        },
{
    match get_from_seed(seed) {
        Ok(public) => Ok(public.into_account()),
        Err(error) => Err(error),
    }
}

/// A seed has an address exactly where it has a key, and the address is
/// read off the key alone: two seeds with one key have one address. Two
/// seeds are two paths.
pub proof fn lemma_address_follows_key(seed: Seq<char>, other: Seq<char>)
    ensures
        spec_get_account_id_from_seed(seed) is Some <==> spec_get_from_seed(seed) is Some,
        spec_get_from_seed(seed) == spec_get_from_seed(other) ==> spec_get_account_id_from_seed(
            seed,
        ) == spec_get_account_id_from_seed(other),
        derivation_path(seed) == derivation_path(other) ==> seed == other,
{
    assert(derivation_path(seed).subrange(2, derivation_path(seed).len() as int) =~= seed);
    assert(derivation_path(other).subrange(2, derivation_path(other).len() as int) =~= other);
}

} // verus!
