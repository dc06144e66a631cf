use vstd::prelude::*;
use vstd::utf8::encode_utf8;

verus! {

/// The 32 bytes of output keying material that HKDF-SHA256 produces for the
/// given salt, input keying material and context info.
pub uninterp spec fn hkdf_sha256_okm32(salt: Seq<u8>, ikm: Seq<u8>, info: Seq<u8>) -> Seq<u8>;

/// Relies on `hkdf::Hkdf::<sha2::Sha256>::new` (extract) followed by `expand`:
/// the output depends on the three byte strings alone. `expand` fails only
/// when more than 255 * 32 bytes are asked for, never for 32.
#[verifier::external_body]
fn hkdf_sha256_expand32(salt: &[u8; 32], ikm: &[u8], info: &[u8]) -> (okm: [u8; 32])
    ensures
        okm@ == hkdf_sha256_okm32(salt@, ikm@, info@),
{
    let hk = hkdf::Hkdf::<sha2::Sha256>::new(Some(salt.as_slice()), ikm);
    let mut okm = [0u8; 32];
    hk.expand(info, &mut okm).expect("32 bytes is a valid HKDF-SHA256 output length");
    okm
}

/// The seed that `derive_ed25519_seed` returns: HKDF-SHA256 with the launch
/// configuration digest as salt, the attestation key's public key as input
/// keying material and the UTF-8 bytes of the domain separator as info.
pub open spec fn derived_seed(ikm: Seq<u8>, digest: Seq<u8>, domain_separator: Seq<char>) -> Seq<u8> {
    hkdf_sha256_okm32(digest, ikm, encode_utf8(domain_separator))
}

/// Derives the 32-byte seed bound to `ikm` (the DER SubjectPublicKeyInfo of
/// the attestation key), to the digest of the launch configuration and to
/// the domain separator.
pub fn derive_ed25519_seed(ikm: &[u8], init_data_digest: &[u8; 32], domain_separator: &str) -> (seed: [u8; 32])
    ensures
        seed@ == derived_seed(ikm@, init_data_digest@, domain_separator@),
{
    hkdf_sha256_expand32(init_data_digest, ikm, domain_separator.as_bytes())
}

/// The derivation is a function of its three inputs: equal inputs give equal
/// seeds, whichever call, process or machine computes them.
pub proof fn lemma_derivation_deterministic(
    ikm1: Seq<u8>, digest1: Seq<u8>, sep1: Seq<char>,
    ikm2: Seq<u8>, digest2: Seq<u8>, sep2: Seq<char>,
)
    requires
        ikm1 == ikm2,
        digest1 == digest2,
        sep1 == sep2,
    ensures
        derived_seed(ikm1, digest1, sep1) == derived_seed(ikm2, digest2, sep2),
{
}

} // verus!
