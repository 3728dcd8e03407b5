//! Tests of the envelope builder entry point itself.

use cms_signer::{create_signed_data, resolve_certificate_chain, CreateSignedDataOptions};
use cryptographic_message_syntax::{SignedData, SignerBuilder};
use x509_certificate::{KeyAlgorithm, X509CertificateBuilder};

#[test]
fn builder_without_certificate_chain_still_builds() {
    let mut builder = X509CertificateBuilder::default();
    builder
        .subject()
        .append_common_name_utf8_string("cms-signer test")
        .unwrap();
    let (cert, key_pair) = builder
        .create_with_random_keypair(KeyAlgorithm::Ed25519)
        .unwrap();

    let signer = SignerBuilder::new(&key_pair, cert);
    let der = create_signed_data(CreateSignedDataOptions {
        content: b"standalone".to_vec(),
        signer,
        signing_time: None,
        timestamp_server: None,
        certs: None,
    })
    .unwrap();
    let signed_data = SignedData::parse_ber(&der).unwrap();
    assert_eq!(signed_data.signers().count(), 1);
    // The signer's own certificate always travels with the signature,
    // even when no explicit chain was supplied.
    assert_eq!(signed_data.certificates().count(), 1);
}

#[test]
fn builder_rejects_invalid_timestamp_server() {
    let mut builder = X509CertificateBuilder::default();
    builder
        .subject()
        .append_common_name_utf8_string("cms-signer test")
        .unwrap();
    let (cert, key_pair) = builder
        .create_with_random_keypair(KeyAlgorithm::Ed25519)
        .unwrap();

    let signer = SignerBuilder::new(&key_pair, cert);
    let r = create_signed_data(CreateSignedDataOptions {
        content: b"standalone".to_vec(),
        signer,
        signing_time: None,
        timestamp_server: Some("::not a url::".to_string()),
        certs: None,
    });
    assert_eq!(r.unwrap_err(), cms_signer::CmsError::TimestampServerParseError);
}

#[test]
fn resolve_certificate_chain_orders_leaf_first() {
    let mut builder = X509CertificateBuilder::default();
    builder
        .subject()
        .append_common_name_utf8_string("leaf")
        .unwrap();
    let (leaf, _) = builder
        .create_with_random_keypair(KeyAlgorithm::Ed25519)
        .unwrap();
    let mut builder = X509CertificateBuilder::default();
    builder
        .subject()
        .append_common_name_utf8_string("issuer")
        .unwrap();
    let (issuer, _) = builder
        .create_with_random_keypair(KeyAlgorithm::Ed25519)
        .unwrap();

    let mut pem = leaf.encode_pem().into_bytes();
    pem.push(b'\n');
    pem.extend_from_slice(issuer.encode_pem().as_bytes());

    let chain = resolve_certificate_chain(&pem).unwrap();
    assert_eq!(chain.len(), 2);
    assert_eq!(chain[0].constructed_data(), leaf.constructed_data());
    assert_eq!(chain[1].constructed_data(), issuer.constructed_data());
}
