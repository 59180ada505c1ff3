use hex::decode;
use orion::errors::{UnknownCryptoError, ValidationCryptoError};
use orion::hazardous::cshake::CShake;
use orion::hazardous::hkdf::Hkdf;
use orion::hazardous::hmac::Hmac;
use orion::hazardous::pbkdf2::Pbkdf2;
use orion::options::{KeccakVariantOption, ShaVariantOption};

fn sample_hkdf(length: usize, variant: ShaVariantOption) -> Hkdf {
    Hkdf {
        salt: b"salt value".to_vec(),
        ikm: b"input keying material".to_vec(),
        info: b"context".to_vec(),
        length,
        hmac: variant,
    }
}

fn sample_pbkdf2(iterations: usize, dklen: usize, variant: ShaVariantOption) -> Pbkdf2 {
    Pbkdf2 {
        password: b"correct horse battery staple".to_vec(),
        salt: b"NaCl".to_vec(),
        iterations,
        dklen,
        hmac: variant,
    }
}

fn sample_cshake(length: usize, variant: KeccakVariantOption) -> CShake {
    CShake {
        input: b"\x00\x01\x02\x03".to_vec(),
        name: b"".to_vec(),
        custom: b"Email Signature".to_vec(),
        length,
        keccak: variant,
    }
}

#[test]
fn gen_rand_key_has_requested_length() {
    let key_a = orion::util::gen_rand_key(64).unwrap();
    let key_b = orion::util::gen_rand_key(64).unwrap();
    assert_eq!(key_a.len(), 64);
    assert_eq!(key_b.len(), 64);
    // Two independent 64-byte reads from the OS generator never coincide.
    assert_ne!(key_a, key_b);
}

#[test]
fn hmac_deterministic() {
    let mac = Hmac {
        secret_key: b"key".to_vec(),
        data: b"The quick brown fox".to_vec(),
        sha2: ShaVariantOption::SHA512,
    };
    assert_eq!(mac.finalize(), mac.finalize());
}

#[test]
fn hmac_rfc4231_sha256_vector() {
    let mac = Hmac {
        secret_key: vec![0x0b; 20],
        data: b"Hi There".to_vec(),
        sha2: ShaVariantOption::SHA256,
    };
    let expected =
        decode("b0344c61d8db38535ca8afceaf0bf12b881dc200c9833da726e9376c2e32cff7").unwrap();
    assert_eq!(mac.finalize(), expected);
    assert_eq!(mac.verify(&expected).unwrap(), true);
}

#[test]
fn hmac_verify_rejects_flipped_byte() {
    let mac = Hmac {
        secret_key: b"key".to_vec(),
        data: b"message".to_vec(),
        sha2: ShaVariantOption::SHA384,
    };
    let mut tag = mac.finalize();
    assert_eq!(mac.verify(&tag).unwrap(), true);
    let last = tag.len() - 1;
    tag[last] ^= 1;
    assert_eq!(mac.verify(&tag).unwrap_err(), ValidationCryptoError);
}

#[test]
fn hkdf_deterministic() {
    let hkdf = sample_hkdf(64, ShaVariantOption::SHA384);
    assert_eq!(hkdf.derive_key().unwrap(), hkdf.derive_key().unwrap());
}

#[test]
fn hkdf_rfc5869_basic_vector() {
    let hkdf = Hkdf {
        salt: Vec::new(),
        ikm: vec![0x0b; 22],
        info: Vec::new(),
        length: 42,
        hmac: ShaVariantOption::SHA256,
    };
    let expected = decode(
        "8da4e775a563c18f715f802a063c5a31b8a11f5c5ee1879ec3454e5f3c738d2d\
         9d201395faa4b61a96c8",
    )
    .unwrap();
    assert_eq!(hkdf.derive_key().unwrap(), expected);
}

#[test]
fn hkdf_verify_rejects_flipped_byte() {
    let hkdf = sample_hkdf(42, ShaVariantOption::SHA256);
    let mut okm = hkdf.derive_key().unwrap();
    assert_eq!(hkdf.verify(&okm).unwrap(), true);
    let last = okm.len() - 1;
    okm[last] ^= 1;
    assert_eq!(hkdf.verify(&okm).unwrap_err(), ValidationCryptoError);
}

#[test]
fn hkdf_maximum_length_exact() {
    // 255 * hLen is the largest accepted length and must be returned exactly.
    let hkdf = sample_hkdf(8160, ShaVariantOption::SHA256);
    assert_eq!(hkdf.derive_key().unwrap().len(), 8160);

    let above = sample_hkdf(8161, ShaVariantOption::SHA256);
    assert_eq!(above.derive_key().unwrap_err(), UnknownCryptoError);
}

#[test]
fn hkdf_output_has_requested_length() {
    for length in [1usize, 31, 32, 33, 100] {
        let hkdf = sample_hkdf(length, ShaVariantOption::SHA512);
        assert_eq!(hkdf.derive_key().unwrap().len(), length);
    }
}

#[test]
fn pbkdf2_deterministic() {
    let dk = sample_pbkdf2(3, 40, ShaVariantOption::SHA256);
    assert_eq!(dk.derive_key().unwrap(), dk.derive_key().unwrap());
}

#[test]
fn pbkdf2_verify_rejects_flipped_byte() {
    let params = sample_pbkdf2(2, 33, ShaVariantOption::SHA512);
    let mut dk = params.derive_key().unwrap();
    assert_eq!(params.verify(&dk).unwrap(), true);
    let last = dk.len() - 1;
    dk[last] ^= 1;
    assert_eq!(params.verify(&dk).unwrap_err(), ValidationCryptoError);
}

#[test]
fn pbkdf2_output_has_requested_length() {
    for dklen in [1usize, 20, 32, 48, 65, 129] {
        let params = sample_pbkdf2(2, dklen, ShaVariantOption::SHA384);
        assert_eq!(params.derive_key().unwrap().len(), dklen);
    }
}

#[test]
fn pbkdf2_err_on_zero_iterations() {
    let params = sample_pbkdf2(0, 20, ShaVariantOption::SHA256);
    assert_eq!(params.derive_key().unwrap_err(), UnknownCryptoError);
}

#[test]
fn pbkdf2_err_on_zero_dklen() {
    let params = sample_pbkdf2(1, 0, ShaVariantOption::SHA256);
    assert_eq!(params.derive_key().unwrap_err(), UnknownCryptoError);
}

#[test]
fn cshake_deterministic() {
    let cshake = sample_cshake(64, KeccakVariantOption::KECCAK512);
    assert_eq!(cshake.finalize().unwrap(), cshake.finalize().unwrap());
}

#[test]
fn cshake_verify_rejects_flipped_byte() {
    let cshake = sample_cshake(32, KeccakVariantOption::KECCAK512);
    let mut digest = cshake.finalize().unwrap();
    assert_eq!(cshake.verify(&digest).unwrap(), true);
    let last = digest.len() - 1;
    digest[last] ^= 1;
    assert_eq!(cshake.verify(&digest).unwrap_err(), ValidationCryptoError);
}

#[test]
fn cshake_maximum_length_exact() {
    // 65536 is the largest accepted output length and must be returned
    // exactly; one past it is refused.
    let cshake = sample_cshake(65536, KeccakVariantOption::KECCAK256);
    assert_eq!(cshake.finalize().unwrap().len(), 65536);

    let above = sample_cshake(65537, KeccakVariantOption::KECCAK256);
    assert_eq!(above.finalize().unwrap_err(), UnknownCryptoError);
}

#[test]
fn cshake_empty_name_or_custom_each_ok() {
    let custom_only = CShake {
        input: b"data".to_vec(),
        name: b"".to_vec(),
        custom: b"Email Signature".to_vec(),
        length: 32,
        keccak: KeccakVariantOption::KECCAK256,
    };
    assert!(custom_only.finalize().is_ok());

    let name_only = CShake {
        input: b"data".to_vec(),
        name: b"Email Signature".to_vec(),
        custom: b"".to_vec(),
        length: 32,
        keccak: KeccakVariantOption::KECCAK256,
    };
    assert!(name_only.finalize().is_ok());

    // The two separations must not collide.
    assert_ne!(
        custom_only.finalize().unwrap(),
        name_only.finalize().unwrap()
    );
}

#[test]
fn hmac_wipe_zeroes_buffers() {
    let mut mac = Hmac {
        secret_key: b"secret key".to_vec(),
        data: b"message".to_vec(),
        sha2: ShaVariantOption::SHA256,
    };
    mac.wipe();
    assert_eq!(mac.secret_key, vec![0u8; 10]);
    assert_eq!(mac.data, vec![0u8; 7]);
}

#[test]
fn hkdf_wipe_zeroes_buffers() {
    let mut hkdf = sample_hkdf(32, ShaVariantOption::SHA256);
    let salt_len = hkdf.salt.len();
    let ikm_len = hkdf.ikm.len();
    let info_len = hkdf.info.len();
    hkdf.wipe();
    assert_eq!(hkdf.salt, vec![0u8; salt_len]);
    assert_eq!(hkdf.ikm, vec![0u8; ikm_len]);
    assert_eq!(hkdf.info, vec![0u8; info_len]);
}

#[test]
fn pbkdf2_wipe_zeroes_buffers() {
    let mut params = sample_pbkdf2(1, 20, ShaVariantOption::SHA256);
    let password_len = params.password.len();
    let salt_len = params.salt.len();
    params.wipe();
    assert_eq!(params.password, vec![0u8; password_len]);
    assert_eq!(params.salt, vec![0u8; salt_len]);
}

#[test]
fn cshake_wipe_zeroes_buffers() {
    let mut cshake = sample_cshake(32, KeccakVariantOption::KECCAK256);
    let input_len = cshake.input.len();
    let custom_len = cshake.custom.len();
    cshake.wipe();
    assert_eq!(cshake.input, vec![0u8; input_len]);
    assert_eq!(cshake.custom, vec![0u8; custom_len]);
}
