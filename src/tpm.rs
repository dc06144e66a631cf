use vstd::prelude::*;

verus! {

/// The device through which the TPM is reached.
pub const DEFAULT_TPM_DEVICE: &'static str = "/dev/tpm0";

/// The prefix of a TCTI configuration that names a device path.
pub const TCTI_DEVICE_PREFIX: &'static str = "device:";

/// Relies on `std::path::Path::exists`: whether something is at the path now.
/// What is on disk is not known here, so nothing is promised of the answer.
#[verifier::external_body]
fn path_exists(path: &str) -> (r: bool) {
    std::path::Path::new(path).exists()
}

/// Whether a TPM device is present on this machine.
pub fn detect_platform() -> (present: bool) {
    path_exists(DEFAULT_TPM_DEVICE)
}

/// The seed provider backed by the TPM: its input keying material is the DER
/// SubjectPublicKeyInfo of the attestation key persisted at `AK_HANDLE`, the
/// same bytes that attestation evidence carries as the key's public part.
pub struct TpmSeedProvider {
    device: String,
}

impl Default for TpmSeedProvider {
    fn default() -> (p: Self)
        ensures
            p.device_spec() == DEFAULT_TPM_DEVICE@,
    {
        TpmSeedProvider { device: String::from_str(DEFAULT_TPM_DEVICE) }
    }
}

impl TpmSeedProvider {
    pub closed spec fn device_spec(&self) -> Seq<char> {
        self.device@
    }

    /// The device path of the TPM.
    pub fn device(&self) -> (d: &str)
        ensures
            d@ == self.device_spec(),
    {
        self.device.as_str()
    }

    /// The TCTI configuration string that opens this provider's device.
    pub fn tcti_name(&self) -> (name: String)
        ensures
            name@ == TCTI_DEVICE_PREFIX@ + self.device_spec(),
    {
        let mut name = String::from_str(TCTI_DEVICE_PREFIX);
        name.append(self.device.as_str());
        name
    }
}

/// The public part of the object found at the attestation key handle, as the
/// TPM's public area decodes it. An RSA key keeps the DER contents of its
/// modulus and public exponent INTEGERs (big-endian, two's complement).
#[derive(Debug)]
pub enum AkPublicKey {
    Rsa { modulus: Vec<u8>, public_exponent: Vec<u8> },
    EllipticCurve,
}

/// Why the input keying material could not be made from the key.
#[derive(Clone, Copy, Debug, PartialEq, Eq, Structural)]
pub enum IkmError {
    /// The object at the handle is not an RSA key.
    UnsupportedKeyType,
}

/// The DER encoding of the SubjectPublicKeyInfo of an rsaEncryption key with
/// the given modulus and exponent INTEGER contents.
pub uninterp spec fn rsa_spki_der(modulus: Seq<u8>, public_exponent: Seq<u8>) -> Seq<u8>;

/// Relies on `picky_asn1_x509::SubjectPublicKeyInfo::new_rsa_key` and
/// `picky_asn1_der::to_vec`: the encoding depends on the two INTEGERs alone.
/// An RSA key serializes through a fixed structure of sequences, an object
/// identifier, a null, a bit string and integers, none of which reaches an
/// error path of the serializer, and lengths are written into a `Vec`: the
/// call never fails here.
#[verifier::external_body]
fn encode_rsa_spki(modulus: &Vec<u8>, public_exponent: &Vec<u8>) -> (der: Vec<u8>)
    ensures
        der@ == rsa_spki_der(modulus@, public_exponent@),
{
    let spki = picky_asn1_x509::SubjectPublicKeyInfo::new_rsa_key(
        picky_asn1::wrapper::IntegerAsn1(modulus.clone()),
        picky_asn1::wrapper::IntegerAsn1(public_exponent.clone()),
    );
    picky_asn1_der::to_vec(&spki).expect("an RSA SubjectPublicKeyInfo always encodes")
}

/// The input keying material for a decoded attestation key: its DER
/// SubjectPublicKeyInfo. Any key but RSA is refused.
pub fn ak_public_key_der(key: &AkPublicKey) -> (r: Result<Vec<u8>, IkmError>)
    ensures
        match key {
            AkPublicKey::Rsa { modulus, public_exponent } =>
                r is Ok && r->Ok_0@ == rsa_spki_der(modulus@, public_exponent@),
            AkPublicKey::EllipticCurve => r == Err::<Vec<u8>, IkmError>(IkmError::UnsupportedKeyType),
        },
{
    match key {
        AkPublicKey::Rsa { modulus, public_exponent } => Ok(encode_rsa_spki(modulus, public_exponent)),
        AkPublicKey::EllipticCurve => Err(IkmError::UnsupportedKeyType),
    }
}

} // verus!
