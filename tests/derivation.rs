use tee_seed::crypto::derive_ed25519_seed;
use tee_seed::initdata::ParsedInitData;
use tee_seed::tpm::{ak_public_key_der, AkPublicKey};

const SPKI: [u8; 32] = [
    0x30, 0x1e, 0x30, 0x0d, 0x06, 0x09, 0x2a, 0x86, 0x48, 0x86, 0xf7, 0x0d, 0x01, 0x01, 0x01, 0x05,
    0x00, 0x03, 0x0d, 0x00, 0x30, 0x0a, 0x02, 0x03, 0x01, 0x02, 0x03, 0x02, 0x03, 0x01, 0x00, 0x01,
];

const CONFIG: &[u8] = b"[data]\ndomain_separator = \"confidential-app-v1\"\n";
const CONFIG_WITH_COMMENT: &[u8] = b"[data]\n# comment\ndomain_separator = \"confidential-app-v1\"\n";

const CONFIG_DIGEST: [u8; 32] = [
    0xcd, 0x1b, 0x21, 0x39, 0x9f, 0xb3, 0xcc, 0xeb, 0x5e, 0xb7, 0xc6, 0xfe, 0xd6, 0xec, 0xfd, 0x63,
    0xee, 0x68, 0x82, 0x60, 0xa2, 0x6a, 0x21, 0xc3, 0x1b, 0x08, 0x02, 0x45, 0xae, 0xef, 0x54, 0xf0,
];

const SEED_V1: [u8; 32] = [
    0x66, 0x55, 0xd9, 0xe1, 0x5f, 0x2f, 0xbb, 0x32, 0x9f, 0xc5, 0xf7, 0x3f, 0x25, 0xc3, 0x23, 0x28,
    0xa3, 0xae, 0x0f, 0x90, 0x69, 0xaa, 0x03, 0x41, 0xd6, 0x7d, 0x17, 0xf1, 0x50, 0x8e, 0x00, 0x63,
];

const SEED_V2: [u8; 32] = [
    0x36, 0xc0, 0x35, 0x3d, 0x69, 0xce, 0xd5, 0x31, 0xb5, 0x83, 0x4d, 0x20, 0xfa, 0xf6, 0x52, 0x95,
    0x7c, 0x84, 0x60, 0xb9, 0x91, 0x00, 0x49, 0xf9, 0x6d, 0x13, 0x22, 0xc0, 0x69, 0xde, 0xaf, 0xba,
];

#[test]
fn fixed_vector() {
    let ikm: Vec<u8> = (0u8..32).collect();
    let digest = [0xaau8; 32];
    let expected: [u8; 32] = [
        0xc2, 0x1c, 0x26, 0xd9, 0x0a, 0x9b, 0x9e, 0xa5, 0x3f, 0xcf, 0xad, 0xde, 0x38, 0x45, 0x3f,
        0x28, 0x86, 0xa7, 0xd8, 0x9a, 0x5b, 0xc6, 0x42, 0xf4, 0xbd, 0x95, 0xae, 0x8c, 0x68, 0xcd,
        0x26, 0x67,
    ];
    assert_eq!(derive_ed25519_seed(&ikm, &digest, "test-separator"), expected);
}

#[test]
fn derivation_is_deterministic() {
    let a = derive_ed25519_seed(&SPKI, &CONFIG_DIGEST, "confidential-app-v1");
    let b = derive_ed25519_seed(&SPKI, &CONFIG_DIGEST, "confidential-app-v1");
    assert_eq!(a, b);
}

#[test]
fn each_ikm_byte_matters() {
    let base = derive_ed25519_seed(&SPKI, &CONFIG_DIGEST, "confidential-app-v1");
    for i in 0..SPKI.len() {
        let mut ikm = SPKI;
        ikm[i] ^= 0x01;
        assert_ne!(derive_ed25519_seed(&ikm, &CONFIG_DIGEST, "confidential-app-v1"), base);
    }
}

#[test]
fn each_digest_byte_matters() {
    let base = derive_ed25519_seed(&SPKI, &CONFIG_DIGEST, "confidential-app-v1");
    for i in 0..32 {
        let mut digest = CONFIG_DIGEST;
        digest[i] ^= 0x80;
        assert_ne!(derive_ed25519_seed(&SPKI, &digest, "confidential-app-v1"), base);
    }
}

#[test]
fn each_separator_character_matters() {
    let sep = "confidential-app-v1";
    let base = derive_ed25519_seed(&SPKI, &CONFIG_DIGEST, sep);
    for i in 0..sep.len() {
        let mut chars: Vec<char> = sep.chars().collect();
        chars[i] = if chars[i] == 'x' { 'y' } else { 'x' };
        let changed: String = chars.into_iter().collect();
        assert_ne!(derive_ed25519_seed(&SPKI, &CONFIG_DIGEST, &changed), base);
    }
}

#[test]
fn separators_give_distinct_seeds() {
    let mut seeds: Vec<[u8; 32]> = Vec::new();
    for i in 0..64 {
        let sep = format!("app-{i}");
        seeds.push(derive_ed25519_seed(&SPKI, &CONFIG_DIGEST, &sep));
    }
    for i in 0..seeds.len() {
        for j in (i + 1)..seeds.len() {
            assert_ne!(seeds[i], seeds[j]);
        }
    }
}

#[test]
fn end_to_end_reference_vector() {
    let key = AkPublicKey::Rsa { modulus: vec![0x01, 0x02, 0x03], public_exponent: vec![0x01, 0x00, 0x01] };
    let pk = ak_public_key_der(&key).unwrap();
    assert_eq!(pk, SPKI.to_vec());
    let parsed = ParsedInitData::from_config(CONFIG, Some("confidential-app-v1".to_string())).unwrap();
    assert_eq!(parsed.init_data_digest, CONFIG_DIGEST);
    let v1 = derive_ed25519_seed(&pk, &parsed.init_data_digest, &parsed.domain_separator);
    assert_eq!(v1, SEED_V1);
    let v2 = derive_ed25519_seed(&pk, &parsed.init_data_digest, "confidential-app-v2");
    assert_eq!(v2, SEED_V2);
    assert_ne!(v1, v2);
}

#[test]
fn comment_changes_digest_and_seed() {
    let a = ParsedInitData::from_config(CONFIG, Some("confidential-app-v1".to_string())).unwrap();
    let b = ParsedInitData::from_config(CONFIG_WITH_COMMENT, Some("confidential-app-v1".to_string())).unwrap();
    assert_eq!(a.domain_separator, b.domain_separator);
    assert_ne!(a.init_data_digest, b.init_data_digest);
    assert_ne!(
        derive_ed25519_seed(&SPKI, &a.init_data_digest, &a.domain_separator),
        derive_ed25519_seed(&SPKI, &b.init_data_digest, &b.domain_separator)
    );
}

#[test]
fn whitespace_changes_digest() {
    let spaced: &[u8] = b"[data]\ndomain_separator  =  \"confidential-app-v1\"\n";
    let a = ParsedInitData::from_config(CONFIG, Some("confidential-app-v1".to_string())).unwrap();
    let b = ParsedInitData::from_config(spaced, Some("confidential-app-v1".to_string())).unwrap();
    assert_ne!(a.init_data_digest, b.init_data_digest);
}
