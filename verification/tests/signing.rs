//! End-to-end tests of the direct private-key signing path.

use cms_signer::{sign_with_private_key, CmsError, SignWithPrivateKeyOptions};
use cryptographic_message_syntax::SignedData;
use x509_certificate::{KeyAlgorithm, X509CertificateBuilder};

/// A fresh self-signed certificate and its PKCS#8 private key, both PEM.
fn test_credentials() -> (Vec<u8>, Vec<u8>) {
    let mut builder = X509CertificateBuilder::default();
    builder
        .subject()
        .append_common_name_utf8_string("cms-signer test")
        .unwrap();
    let (cert, key_pair) = builder
        .create_with_random_keypair(KeyAlgorithm::Ed25519)
        .unwrap();
    let cert_pem = cert.encode_pem().into_bytes();
    let key_der = key_pair.to_pkcs8_one_asymmetric_key_der();
    let key_pem = pem::encode(&pem::Pem::new("PRIVATE KEY", key_der.to_vec())).into_bytes();
    (cert_pem, key_pem)
}

#[test]
fn round_trip_sign_and_verify() {
    let (cert_pem, key_pem) = test_credentials();
    let content = b"arbitrary content to sign".to_vec();
    let der = sign_with_private_key(SignWithPrivateKeyOptions {
        content: content.clone(),
        cert: cert_pem.clone(),
        private_key: key_pem,
        signing_time: None,
        timestamp_server: None,
    })
    .unwrap();
    assert!(!der.is_empty());

    let signed_data = SignedData::parse_ber(&der).unwrap();
    let signers: Vec<_> = signed_data.signers().collect();
    assert_eq!(signers.len(), 1);
    signers[0].verify_message_digest_with_content(&content).unwrap();
    signers[0].verify_signature_with_signed_data(&signed_data).unwrap();

    // The embedded chain holds the signer's own certificate.
    let expected = x509_certificate::CapturedX509Certificate::from_pem(&cert_pem).unwrap();
    let embedded: Vec<_> = signed_data.certificates().collect();
    assert_eq!(embedded.len(), 1);
    assert_eq!(embedded[0].constructed_data(), expected.constructed_data());
}

#[test]
fn empty_content_signs_and_verifies() {
    let (cert_pem, key_pem) = test_credentials();
    let der = sign_with_private_key(SignWithPrivateKeyOptions {
        content: Vec::new(),
        cert: cert_pem,
        private_key: key_pem,
        signing_time: None,
        timestamp_server: None,
    })
    .unwrap();
    let signed_data = SignedData::parse_ber(&der).unwrap();
    let signer = signed_data.signers().next().unwrap();
    signer.verify_message_digest_with_content(&[]).unwrap();
    signer.verify_signature_with_signed_data(&signed_data).unwrap();
}

#[test]
fn chain_with_several_certificates_is_embedded() {
    let (leaf_pem, key_pem) = test_credentials();
    let (other_pem, _) = test_credentials();
    let mut chain = leaf_pem.clone();
    chain.push(b'\n');
    chain.extend_from_slice(&other_pem);
    let content = b"chained".to_vec();
    let der = sign_with_private_key(SignWithPrivateKeyOptions {
        content: content.clone(),
        cert: chain,
        private_key: key_pem,
        signing_time: None,
        timestamp_server: None,
    })
    .unwrap();
    let signed_data = SignedData::parse_ber(&der).unwrap();
    let signer = signed_data.signers().next().unwrap();
    signer.verify_message_digest_with_content(&content).unwrap();
    signer.verify_signature_with_signed_data(&signed_data).unwrap();
    // Both chain entries travel in the envelope; the leaf is the signer.
    assert_eq!(signed_data.certificates().count(), 2);
    let expected = x509_certificate::CapturedX509Certificate::from_pem(&leaf_pem).unwrap();
    let embedded: Vec<_> = signed_data.certificates().collect();
    assert!(embedded
        .iter()
        .any(|c| c.constructed_data() == expected.constructed_data()));
}

#[test]
fn pem_without_certificate_records_is_rejected() {
    // Valid PEM, but zero CERTIFICATE records: the chain's mandatory leaf
    // entry is missing.
    let (_, key_pem) = test_credentials();
    let r = sign_with_private_key(SignWithPrivateKeyOptions {
        content: b"x".to_vec(),
        cert: key_pem.clone(),
        private_key: key_pem,
        signing_time: None,
        timestamp_server: None,
    });
    assert_eq!(r.unwrap_err(), CmsError::CertificateParseError);
}

#[test]
fn bad_certificate_is_rejected() {
    let (_, key_pem) = test_credentials();
    let r = sign_with_private_key(SignWithPrivateKeyOptions {
        content: b"x".to_vec(),
        cert: b"not a certificate".to_vec(),
        private_key: key_pem,
        signing_time: None,
        timestamp_server: None,
    });
    assert_eq!(r.unwrap_err(), CmsError::CertificateParseError);
}

#[test]
fn bad_private_key_is_rejected() {
    let (cert_pem, _) = test_credentials();
    let r = sign_with_private_key(SignWithPrivateKeyOptions {
        content: b"x".to_vec(),
        cert: cert_pem,
        private_key: b"not a key".to_vec(),
        signing_time: None,
        timestamp_server: None,
    });
    assert_eq!(r.unwrap_err(), CmsError::PrivateKeyParseError);
}

#[test]
fn invalid_timestamp_server_fails_whole_build() {
    let (cert_pem, key_pem) = test_credentials();
    let r = sign_with_private_key(SignWithPrivateKeyOptions {
        content: b"x".to_vec(),
        cert: cert_pem,
        private_key: key_pem,
        signing_time: None,
        timestamp_server: Some("::this is not a url::".to_string()),
    });
    assert_eq!(r.unwrap_err(), CmsError::TimestampServerParseError);
}

#[test]
fn unreachable_timestamp_server_fails_whole_build() {
    let (cert_pem, key_pem) = test_credentials();
    // A well-formed address that nothing answers on: the authority cannot
    // be reached, so the build must fail rather than skip the timestamp.
    let r = sign_with_private_key(SignWithPrivateKeyOptions {
        content: b"x".to_vec(),
        cert: cert_pem,
        private_key: key_pem,
        signing_time: None,
        timestamp_server: Some("http://127.0.0.1:1/tsa".to_string()),
    });
    assert_eq!(r.unwrap_err(), CmsError::TimestampServerParseError);
}

#[test]
fn explicit_signing_time_is_embedded_exactly() {
    let (cert_pem, key_pem) = test_credentials();
    let stamp = "2023-01-02T03:04:05Z";
    let der = sign_with_private_key(SignWithPrivateKeyOptions {
        content: b"content".to_vec(),
        cert: cert_pem,
        private_key: key_pem,
        signing_time: Some(stamp.to_string()),
        timestamp_server: None,
    })
    .unwrap();
    let signed_data = SignedData::parse_ber(&der).unwrap();
    let signer = signed_data.signers().next().unwrap();
    let attr_time = signer
        .signed_attributes()
        .unwrap()
        .signing_time()
        .cloned()
        .unwrap();
    let expected = stamp.parse::<chrono::DateTime<chrono::Utc>>().unwrap();
    assert_eq!(attr_time, expected);
}

#[test]
fn omitted_signing_time_defaults_to_wall_clock() {
    let (cert_pem, key_pem) = test_credentials();
    let before = chrono::Utc::now();
    let der = sign_with_private_key(SignWithPrivateKeyOptions {
        content: b"content".to_vec(),
        cert: cert_pem,
        private_key: key_pem,
        signing_time: None,
        timestamp_server: None,
    })
    .unwrap();
    let after = chrono::Utc::now();
    let signed_data = SignedData::parse_ber(&der).unwrap();
    let signer = signed_data.signers().next().unwrap();
    let attr_time = signer
        .signed_attributes()
        .unwrap()
        .signing_time()
        .cloned()
        .unwrap();
    // UTCTime carries whole seconds; allow the enclosing interval rounded
    // outward by a couple of seconds.
    assert!(attr_time >= before - chrono::Duration::seconds(2));
    assert!(attr_time <= after + chrono::Duration::seconds(2));
}

#[test]
fn unparsable_signing_time_defaults_to_wall_clock() {
    let (cert_pem, key_pem) = test_credentials();
    let before = chrono::Utc::now();
    let der = sign_with_private_key(SignWithPrivateKeyOptions {
        content: b"content".to_vec(),
        cert: cert_pem,
        private_key: key_pem,
        signing_time: Some("yesterday-ish".to_string()),
        timestamp_server: None,
    })
    .unwrap();
    let after = chrono::Utc::now();
    let signed_data = SignedData::parse_ber(&der).unwrap();
    let signer = signed_data.signers().next().unwrap();
    let attr_time = signer
        .signed_attributes()
        .unwrap()
        .signing_time()
        .cloned()
        .unwrap();
    assert!(attr_time >= before - chrono::Duration::seconds(2));
    assert!(attr_time <= after + chrono::Duration::seconds(2));
}
