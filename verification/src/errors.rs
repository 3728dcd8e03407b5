//! The error taxonomy for signed-envelope construction.

use vstd::prelude::*;
use vstd::string::StringExecFns;

verus! {

/// Everything that can go wrong while resolving credentials or building a
/// signed envelope.  Every error is terminal for the current request: no
/// partial output is ever returned alongside one of these.
#[derive(Debug, Clone, Copy, PartialEq, Eq)]
pub enum CmsError {
    /// A textual certificate chain failed to decode.
    CertificateParseError,
    /// A textual private key failed to decode.
    PrivateKeyParseError,
    /// The container bytes are not a valid PKCS#12 structure.
    P12ParseError,
    /// The container's protected key section failed to decrypt or decode
    /// under the given password.
    PrivateKeyBagError,
    /// The container decoded but holds zero private-key entries.
    NoPrivateKey,
    /// The container's protected certificate section failed to decrypt or
    /// decode under the given password.
    CertBagError,
    /// The container decoded but holds zero certificate entries.
    NoCertificate,
    /// The timestamp-authority address was invalid, or the authority could
    /// not be reached when timestamping was requested.
    TimestampServerParseError,
    /// Final envelope assembly or serialization failed.
    BuildSignedDataError,
    /// Digest computation over content failed.
    DigestError,
}

impl CmsError {
    /// The human-readable description of this error.
    pub fn message(&self) -> (r: String)
        ensures
            r@ == self.message_spec(),
    {
        match self {
            CmsError::CertificateParseError => String::from_str("Failed to parse certificate"),
            CmsError::PrivateKeyParseError => String::from_str("Failed to parse private key"),
            CmsError::P12ParseError => String::from_str("Failed to parse p12"),
            CmsError::PrivateKeyBagError => String::from_str("Failed to get private key bags"),
            CmsError::NoPrivateKey => String::from_str("No private key bags"),
            CmsError::CertBagError => String::from_str("Failed to get cert bags"),
            CmsError::NoCertificate => String::from_str("No cert bags"),
            CmsError::TimestampServerParseError => String::from_str(
                "Failed to parse timestamp server",
            ),
            CmsError::BuildSignedDataError => String::from_str("Failed to build signed data"),
            CmsError::DigestError => String::from_str("Failed to get digest"),
        }
    }

    /// What `message` returns, variant by variant.
    pub open spec fn message_spec(&self) -> Seq<char> {
        match self {
            CmsError::CertificateParseError => "Failed to parse certificate"@,
            CmsError::PrivateKeyParseError => "Failed to parse private key"@,
            CmsError::P12ParseError => "Failed to parse p12"@,
            CmsError::PrivateKeyBagError => "Failed to get private key bags"@,
            CmsError::NoPrivateKey => "No private key bags"@,
            CmsError::CertBagError => "Failed to get cert bags"@,
            CmsError::NoCertificate => "No cert bags"@,
            CmsError::TimestampServerParseError => "Failed to parse timestamp server"@,
            CmsError::BuildSignedDataError => "Failed to build signed data"@,
            CmsError::DigestError => "Failed to get digest"@,
        }
    }
}

} // verus!
