use vstd::prelude::*;

verus! {

/// The object attributes that a TPM public-area template sets.
#[derive(Clone, Copy, Debug, PartialEq, Eq, Structural)]
pub struct ObjectAttributes {
    pub restricted: bool,
    pub decrypt: bool,
    pub sign_encrypt: bool,
    pub fixed_tpm: bool,
    pub fixed_parent: bool,
    pub sensitive_data_origin: bool,
    pub user_with_auth: bool,
}

/// The RSA signing scheme of a key.
#[derive(Clone, Copy, Debug, PartialEq, Eq, Structural)]
pub enum RsaSchemeKind {
    Null,
    RsaSsaSha256,
}

/// The symmetric algorithm with which a storage parent protects its children.
#[derive(Clone, Copy, Debug, PartialEq, Eq, Structural)]
pub enum SymmetricKind {
    Null,
    Aes128Cfb,
}

/// The initial content of the public "unique" field.
#[derive(Clone, Copy, Debug, PartialEq, Eq, Structural)]
pub enum UniqueKind {
    /// A zero-filled modulus of the key's size: the key is regenerated from
    /// the hierarchy seed, identical on every run.
    ZeroFilled,
    /// An empty buffer: a fresh key pair on every creation.
    Empty,
}

/// A complete description of an RSA object that the TPM is asked to create.
/// The name algorithm is always SHA-256.
#[derive(Clone, Copy, Debug, PartialEq, Eq, Structural)]
pub struct RsaTemplate {
    pub attributes: ObjectAttributes,
    pub scheme: RsaSchemeKind,
    pub key_bits: u16,
    /// The public exponent; 0 stands for the TPM default (65537).
    pub exponent: u32,
    pub symmetric: SymmetricKind,
    pub restricted_params: bool,
    pub is_signing_key: bool,
    pub is_decryption_key: bool,
    pub unique: UniqueKind,
}

pub const RSA_KEY_BITS: u16 = 2048;

/// A template whose attributes and parameters the TPM accepts together: the
/// parameter flags agree with the attributes, a restricted decryption key
/// names a symmetric algorithm, and a restricted signing key names a scheme
/// and no symmetric algorithm.
pub open spec fn is_consistent(t: RsaTemplate) -> bool {
    &&& t.restricted_params == t.attributes.restricted
    &&& t.is_signing_key == t.attributes.sign_encrypt
    &&& t.is_decryption_key == t.attributes.decrypt
    &&& (t.attributes.restricted && t.attributes.decrypt ==> t.symmetric != SymmetricKind::Null)
    &&& (t.attributes.restricted && t.attributes.sign_encrypt ==> t.scheme != RsaSchemeKind::Null
        && t.symmetric == SymmetricKind::Null)
    &&& !(t.attributes.restricted && t.attributes.decrypt && t.attributes.sign_encrypt)
}

/// Attributes shared by both keys: bound to this TPM and to its parent,
/// private part generated inside the TPM, usable with an empty auth value.
pub open spec fn is_tpm_bound(a: ObjectAttributes) -> bool {
    a.fixed_tpm && a.fixed_parent && a.sensitive_data_origin && a.user_with_auth
}

/// The endorsement key template.
pub open spec fn ek_template() -> RsaTemplate {
    RsaTemplate {
        attributes: ObjectAttributes {
            restricted: true,
            decrypt: true,
            sign_encrypt: false,
            fixed_tpm: true,
            fixed_parent: true,
            sensitive_data_origin: true,
            user_with_auth: true,
        },
        scheme: RsaSchemeKind::Null,
        key_bits: RSA_KEY_BITS,
        exponent: 0,
        symmetric: SymmetricKind::Aes128Cfb,
        restricted_params: true,
        is_signing_key: false,
        is_decryption_key: true,
        unique: UniqueKind::ZeroFilled,
    }
}

/// The transient endorsement key used as the parent of the attestation key:
/// a restricted RSA-2048 decryption key protected with AES-128-CFB, whose
/// zero-filled unique field makes it the same key on every run.
pub fn ek_rsa_template() -> (t: RsaTemplate)
    ensures
        t == ek_template(),
        t.attributes.restricted,
        t.attributes.decrypt,
        !t.attributes.sign_encrypt,
        is_tpm_bound(t.attributes),
        t.scheme == RsaSchemeKind::Null,
        t.key_bits == RSA_KEY_BITS,
        t.exponent == 0,
        t.symmetric == SymmetricKind::Aes128Cfb,
        t.unique == UniqueKind::ZeroFilled,
        is_consistent(t),
{
    RsaTemplate {
        attributes: ObjectAttributes {
            restricted: true,
            decrypt: true,
            sign_encrypt: false,
            fixed_tpm: true,
            fixed_parent: true,
            sensitive_data_origin: true,
            user_with_auth: true,
        },
        scheme: RsaSchemeKind::Null,
        key_bits: RSA_KEY_BITS,
        exponent: 0,
        symmetric: SymmetricKind::Aes128Cfb,
        restricted_params: true,
        is_signing_key: false,
        is_decryption_key: true,
        unique: UniqueKind::ZeroFilled,
    }
}

/// The attestation key template.
pub open spec fn ak_template() -> RsaTemplate {
    RsaTemplate {
        attributes: ObjectAttributes {
            restricted: true,
            decrypt: false,
            sign_encrypt: true,
            fixed_tpm: true,
            fixed_parent: true,
            sensitive_data_origin: true,
            user_with_auth: true,
        },
        scheme: RsaSchemeKind::RsaSsaSha256,
        key_bits: RSA_KEY_BITS,
        exponent: 0,
        symmetric: SymmetricKind::Null,
        restricted_params: true,
        is_signing_key: true,
        is_decryption_key: false,
        unique: UniqueKind::Empty,
    }
}

/// The attestation key: a restricted RSA-2048 signing key with the
/// RSASSA-SHA256 scheme and an empty unique field, so that every creation
/// yields a fresh key pair.
pub fn ak_rsa_template() -> (t: RsaTemplate)
    ensures
        t == ak_template(),
        t.attributes.restricted,
        t.attributes.sign_encrypt,
        !t.attributes.decrypt,
        is_tpm_bound(t.attributes),
        t.scheme == RsaSchemeKind::RsaSsaSha256,
        t.key_bits == RSA_KEY_BITS,
        t.exponent == 0,
        t.symmetric == SymmetricKind::Null,
        t.unique == UniqueKind::Empty,
        is_consistent(t),
{
    RsaTemplate {
        attributes: ObjectAttributes {
            restricted: true,
            decrypt: false,
            sign_encrypt: true,
            fixed_tpm: true,
            fixed_parent: true,
            sensitive_data_origin: true,
            user_with_auth: true,
        },
        scheme: RsaSchemeKind::RsaSsaSha256,
        key_bits: RSA_KEY_BITS,
        exponent: 0,
        symmetric: SymmetricKind::Null,
        restricted_params: true,
        is_signing_key: true,
        is_decryption_key: false,
        unique: UniqueKind::Empty,
    }
}

} // verus!
