use hex::decode;
use orion::hazardous::hkdf::Hkdf;
use orion::options::ShaVariantOption;

#[test]
fn hkdf_maximum_length_256() {
    let hkdf = Hkdf {
        salt: decode("").unwrap(),
        ikm: decode("0b0b0b0b0b0b0b0b0b0b0b0b0b0b0b0b0b0b0b0b0b0b").unwrap(),
        info: decode("").unwrap(),
        // Max allowed length here is 8160
        length: 9000,
        hmac: ShaVariantOption::SHA256,
    };

    let hkdf_extract = hkdf.extract(&hkdf.ikm, &hkdf.salt);

    assert!(hkdf.expand(&hkdf_extract).is_err());
    assert!(hkdf.derive_key().is_err());
}

#[test]
fn hkdf_maximum_length_384() {
    let hkdf = Hkdf {
        salt: decode("").unwrap(),
        ikm: decode("0b0b0b0b0b0b0b0b0b0b0b0b0b0b0b0b0b0b0b0b0b0b").unwrap(),
        info: decode("").unwrap(),
        // Max allowed length here is 12240
        length: 13000,
        hmac: ShaVariantOption::SHA384,
    };

    let hkdf_extract = hkdf.extract(&hkdf.ikm, &hkdf.salt);

    assert!(hkdf.expand(&hkdf_extract).is_err());
    assert!(hkdf.derive_key().is_err());
}

#[test]
fn hkdf_maximum_length_512() {
    let hkdf = Hkdf {
        salt: decode("").unwrap(),
        ikm: decode("0b0b0b0b0b0b0b0b0b0b0b0b0b0b0b0b0b0b0b0b0b0b").unwrap(),
        info: decode("").unwrap(),
        // Max allowed length here is 16320
        length: 17000,
        hmac: ShaVariantOption::SHA512,
    };

    let hkdf_extract = hkdf.extract(&hkdf.ikm, &hkdf.salt);

    assert!(hkdf.expand(&hkdf_extract).is_err());
    assert!(hkdf.derive_key().is_err());
}

#[test]
fn hkdf_zero_length() {
    let hkdf = Hkdf {
        salt: decode("").unwrap(),
        ikm: decode("0b0b0b0b0b0b0b0b0b0b0b0b0b0b0b0b0b0b0b0b0b0b").unwrap(),
        info: decode("").unwrap(),
        length: 0,
        hmac: ShaVariantOption::SHA512,
    };

    let hkdf_extract = hkdf.extract(&hkdf.ikm, &hkdf.salt);

    assert!(hkdf.expand(&hkdf_extract).is_err());
    assert!(hkdf.derive_key().is_err());
}

#[test]
fn hkdf_verify_true() {
    let hkdf = Hkdf {
        salt: decode("").unwrap(),
        ikm: decode("0b0b0b0b0b0b0b0b0b0b0b0b0b0b0b0b0b0b0b0b0b0b").unwrap(),
        info: decode("").unwrap(),
        length: 42,
        hmac: ShaVariantOption::SHA256,
    };

    let expected_okm = decode(
        "8da4e775a563c18f715f802a063c5a31b8a11f5c5ee1879ec3454e5f3c738d2d\
         9d201395faa4b61a96c8",
    )
    .unwrap();

    assert_eq!(hkdf.verify(&expected_okm).unwrap(), true);
}

#[test]
fn hkdf_verify_wrong_salt() {
    // Salt value differs between this and the previous test case
    let hkdf = Hkdf {
        salt: "salt".as_bytes().to_vec(),
        ikm: decode("0b0b0b0b0b0b0b0b0b0b0b0b0b0b0b0b0b0b0b0b0b0b").unwrap(),
        info: decode("").unwrap(),
        length: 42,
        hmac: ShaVariantOption::SHA256,
    };

    let expected_okm = decode(
        "8da4e775a563c18f715f802a063c5a31b8a11f5c5ee1879ec3454e5f3c738d2d\
         9d201395faa4b61a96c8",
    )
    .unwrap();

    assert!(hkdf.verify(&expected_okm).is_err());
}

#[test]
fn hkdf_verify_wrong_ikm() {
    let hkdf = Hkdf {
        salt: decode("").unwrap(),
        ikm: decode("0b").unwrap(),
        info: decode("").unwrap(),
        length: 42,
        hmac: ShaVariantOption::SHA256,
    };

    let expected_okm = decode(
        "8da4e775a563c18f715f802a063c5a31b8a11f5c5ee1879ec3454e5f3c738d2d\
         9d201395faa4b61a96c8",
    )
    .unwrap();

    assert!(hkdf.verify(&expected_okm).is_err());
}

#[test]
fn verify_diff_length_panic() {
    // Different length than expected okm
    let hkdf = Hkdf {
        salt: "salt".as_bytes().to_vec(),
        ikm: decode("0b0b0b0b0b0b0b0b0b0b0b0b0b0b0b0b0b0b0b0b0b0b").unwrap(),
        info: decode("").unwrap(),
        length: 75,
        hmac: ShaVariantOption::SHA256,
    };

    let expected_okm = decode(
        "8da4e775a563c18f715f802a063c5a31b8a11f5c5ee1879ec3454e5f3c738d2d\
         9d201395faa4b61a96c8",
    )
    .unwrap();

    assert!(hkdf.verify(&expected_okm).is_err());
}
