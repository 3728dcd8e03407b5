//! Construction of RFC 5652 signed-data envelopes over arbitrary binary
//! content.
//!
//! Signing key material can come from three sources: a PEM-encoded private
//! key supplied directly, a password-protected PKCS#12 container, or a key
//! held in a remote key-management service.  All three sources are
//! normalized into one certificate chain plus one signing capability, and a
//! single builder assembles and serializes the signed envelope.

mod container;
mod envelope;
mod errors;
mod laws;
mod remote;

pub use container::cert_bags_of;
pub use container::container_sign_obligation;
pub use container::derived_cert_pem;
pub use container::derived_key_pem;
pub use container::effective_password;
pub use container::joined_records;
pub use container::key_bags_of;
pub use container::pem_encoding;
pub use container::pfx_ok;
pub use container::sign_with_p12;
pub use container::SignWithP12Options;
pub use envelope::cert_chain_ok;
pub use envelope::create_signed_data;
pub use envelope::direct_sign_obligation;
pub use envelope::envelope_signing_time;
pub use envelope::key_parse_ok;
pub use envelope::opt_str_view;
pub use envelope::parsed_cert_count;
pub use envelope::resolve_certificate_chain;
pub use envelope::rfc3339_epoch_of;
pub use envelope::sign_with_private_key;
pub use envelope::time_parse_ok;
pub use envelope::ts_url_ok;
pub use envelope::utctime_representable;
pub use envelope::CreateSignedDataOptions;
pub use envelope::SignWithPrivateKeyOptions;
pub use errors::CmsError;
pub use laws::lemma_container_transparent;
pub use laws::lemma_default_password;
pub use laws::lemma_explicit_signing_time;
pub use laws::lemma_invalid_timestamp_server;
pub use laws::lemma_missing_certificate;
pub use laws::lemma_missing_private_key;
pub use laws::lemma_no_timestamp_error_unrequested;
pub use remote::content_digest;
pub use remote::hex_decoded;
pub use remote::key_request_params;
pub use remote::sha256_hex_of;
pub use remote::SignWithGCloudOptions;
