//! The signed-message builder and the direct private-key signing path.
//!
//! An envelope binds external content, a signing-time attribute, the
//! signer's certificate chain, and one signature into an RFC 5652
//! signed-data structure serialized to DER.  Parsing of the textual
//! credential material and the final assembly are performed by outside
//! routines; the decisions between them — which error is reported when,
//! which signing time is used, when the timestamp authority is consulted —
//! are made and verified here.

use vstd::prelude::*;
use crate::errors::CmsError;
use cryptographic_message_syntax::asn1::rfc5652;
use cryptographic_message_syntax::Bytes;
use cryptographic_message_syntax::Oid;
use cryptographic_message_syntax::SignedDataBuilder;

verus! {

#[verifier::external_type_specification]
#[verifier::external_body]
pub struct ExCapturedX509Certificate(x509_certificate::CapturedX509Certificate);

#[verifier::external_type_specification]
#[verifier::external_body]
pub struct ExInMemorySigningKeyPair(x509_certificate::InMemorySigningKeyPair);

#[verifier::external_type_specification]
#[verifier::external_body]
pub struct ExSignerBuilder<'a>(cryptographic_message_syntax::SignerBuilder<'a>);

/// How many `CERTIFICATE` records the outside PEM parser extracts from the
/// given text, or `None` when the text cannot be decoded at all.  A
/// function of the input bytes alone.
pub uninterp spec fn parsed_cert_count(pem: Seq<u8>) -> Option<nat>;

/// Whether the outside PKCS#8 parser accepts the given textual private
/// key.  A function of the input bytes alone.
pub uninterp spec fn key_parse_ok(pem: Seq<u8>) -> bool;

/// Whether the outside URL parser accepts the given timestamp-authority
/// address.  A function of the input characters alone.
pub uninterp spec fn ts_url_ok(url: Seq<char>) -> bool;

/// Whether the outside RFC 3339 parser accepts the given signing-time
/// text.  A function of the input characters alone.
pub uninterp spec fn time_parse_ok(t: Seq<char>) -> bool;

/// The instant the outside RFC 3339 parser reads from the given text, as
/// non-leap seconds since the Unix epoch.  A function of the input
/// characters alone; meaningful only where `time_parse_ok` holds.
pub uninterp spec fn rfc3339_epoch_of(t: Seq<char>) -> i64;

/// The signing-time attribute that a standards-compliant parse of the
/// given envelope recovers, as non-leap seconds since the Unix epoch.  A
/// function of the envelope bytes alone.
pub uninterp spec fn envelope_signing_time(der: Seq<u8>) -> i64;

/// Whether an instant can survive the envelope's `UTCTime` encoding
/// exactly: that encoding carries a two-digit year read back as 1950
/// through 2049.
pub open spec fn utctime_representable(secs: i64) -> bool {
    -631152000 <= secs && secs <= 2524607999
}

/// A decodable certificate chain with its mandatory leaf entry: the first
/// certificate is the signer's own and envelope construction cannot
/// proceed without it.
pub open spec fn cert_chain_ok(pem: Seq<u8>) -> bool {
    parsed_cert_count(pem) matches Some(n) && n >= 1
}

/// Relies on CapturedX509Certificate::from_pem_multiple: it decodes every
/// `CERTIFICATE` record of the text, in order, and fails exactly when the
/// text is not valid PEM or some record is not a valid certificate.
#[verifier::external_body]
fn parse_certificates(pem: &Vec<u8>) -> (r: Option<Vec<x509_certificate::CapturedX509Certificate>>)
    ensures
        r is Some <==> parsed_cert_count(pem@) is Some,
        r matches Some(v) ==> parsed_cert_count(pem@) == Some(v@.len() as nat),
{
    x509_certificate::CapturedX509Certificate::from_pem_multiple(pem).ok()
}

/// Relies on InMemorySigningKeyPair::from_pkcs8_pem: it decodes a PKCS#8
/// PEM private key, failing exactly when the text cannot be decoded.
#[verifier::external_body]
fn parse_signing_key(pem: &Vec<u8>) -> (r: Option<x509_certificate::InMemorySigningKeyPair>)
    ensures
        r is Some <==> key_parse_ok(pem@),
{
    x509_certificate::InMemorySigningKeyPair::from_pkcs8_pem(pem).ok()
}

/// Relies on the Clone impl of CapturedX509Certificate: certificates carry
/// no secret state and are copied freely.
pub assume_specification[ <x509_certificate::CapturedX509Certificate as Clone>::clone ](
    c: &x509_certificate::CapturedX509Certificate,
) -> x509_certificate::CapturedX509Certificate;

/// Relies on SignerBuilder::new: it pairs the signing key with the
/// signer's own certificate and never fails.
#[verifier::external_body]
fn new_signer<'a>(
    key: &'a x509_certificate::InMemorySigningKeyPair,
    cert: x509_certificate::CapturedX509Certificate,
) -> cryptographic_message_syntax::SignerBuilder<'a> {
    cryptographic_message_syntax::SignerBuilder::new(key, cert)
}

/// Relies on SignerBuilder::time_stamp_url: it records the
/// timestamp-authority address, failing exactly when the address is not a
/// valid URL; the authority itself is contacted only at build time.
#[verifier::external_body]
fn signer_with_time_stamp_url<'a>(
    signer: cryptographic_message_syntax::SignerBuilder<'a>,
    url: &String,
) -> (r: Option<cryptographic_message_syntax::SignerBuilder<'a>>)
    ensures
        r is Some <==> ts_url_ok(url@),
{
    signer.time_stamp_url(url.as_str()).ok()
}

/// Relies on chrono's RFC 3339 parsing through str::parse: acceptance and
/// the parsed instant are functions of the text alone.  The instant is
/// returned as non-leap seconds since the Unix epoch.
#[verifier::external_body]
fn parse_signing_time(t: &String) -> (r: Option<i64>)
    ensures
        r is Some <==> time_parse_ok(t@),
        r matches Some(s) ==> s == rfc3339_epoch_of(t@),
{
    t.as_str().parse::<chrono::DateTime<chrono::Utc>>().ok().map(|d| d.timestamp())
}

/// Relies on chrono::Utc::now: the wall-clock time at the call as whole
/// seconds since the Unix epoch, of which nothing further can be
/// promised.
#[verifier::external_body]
fn current_time() -> i64 {
    chrono::Utc::now().timestamp()
}

/// The signing time the envelope will carry: the parsed value when the
/// caller's timestamp parsed, the wall clock read otherwise.  The default
/// is a deliberate policy: always produce a usable signed attribute
/// rather than fail the whole operation for a cosmetic field.
fn effective_signing_time(parsed: Option<i64>, now: i64) -> (r: i64)
    ensures
        parsed matches Some(t) ==> r == t,
        parsed is None ==> r == now,
{
    match parsed {
        Some(t) => t,
        None => now,
    }
}

/// Why envelope assembly failed: the timestamp authority could not
/// produce a token, or some other assembly or serialization step failed.
enum BuildFailure {
    TimeStamp,
    Assembly,
}

/// Relies on SignedDataBuilder: it assembles the signed-data structure
/// with the generic `data` content-type identifier, the content digested
/// but kept external, the given signing time stamped into the signer's
/// signed attributes, and serializes it to DER in one atomic step.
/// Timestamp-protocol failures are told apart from every other assembly
/// failure by the error variant the builder reports.  A time outside
/// chrono's calendar range is an assembly failure; one outside the
/// two-digit-year `UTCTime` range is embedded truncated, which is why the
/// signing-time clause is conditioned on representability.
#[verifier::external_body]
fn build_envelope<'a>(
    content: &Vec<u8>,
    signer: cryptographic_message_syntax::SignerBuilder<'a>,
    certs: Vec<x509_certificate::CapturedX509Certificate>,
    time: i64,
) -> (r: Result<Vec<u8>, BuildFailure>)
    ensures
        r matches Ok(der) ==> (utctime_representable(time) ==> envelope_signing_time(der@)
            == time),
{
    let date = chrono::DateTime::from_timestamp(time, 0).ok_or(BuildFailure::Assembly)?;
    SignedDataBuilder::default()
        .content_type(Oid(Bytes::copy_from_slice(rfc5652::OID_ID_DATA.as_ref())))
        .content_external(content.clone())
        .signing_time(date.into())
        .signer(signer)
        .certificates(certs.into_iter())
        .build_der()
        .map_err(|e| match e {
            cryptographic_message_syntax::CmsError::TimeStampProtocol(_) => BuildFailure::TimeStamp,
            _ => BuildFailure::Assembly,
        })
}

/// The inputs of one envelope-construction request, with the signing
/// capability already attached.
pub struct CreateSignedDataOptions<'a> {
    /// The content to sign; referenced by the envelope but not embedded.
    pub content: Vec<u8>,
    /// The signer that will produce the signature.
    pub signer: cryptographic_message_syntax::SignerBuilder<'a>,
    /// The signing time, RFC 3339 text; unparsable or absent values
    /// default to the wall-clock time at build invocation.
    pub signing_time: Option<String>,
    /// The timestamp-authority address; when given, a trusted-timestamp
    /// token is requested at build time and embedded, and failure to
    /// obtain one fails the whole build.
    pub timestamp_server: Option<String>,
    /// The certificate chain to embed, leaf first.
    pub certs: Option<Vec<x509_certificate::CapturedX509Certificate>>,
}

/// Assemble and serialize one signed envelope.
///
/// Either the full DER encoding is produced or the operation fails with
/// no output.  `TimestampServerParseError` arises exactly on account of a
/// requested timestamp authority — an unparsable address, or one that
/// yields no token at build time — and never when no authority was named;
/// every other assembly failure is `BuildSignedDataError`.  A produced
/// envelope carries the parsed signing time exactly whenever one was
/// supplied, parsed, and is representable in the envelope's `UTCTime`
/// encoding; an absent or unparsable signing time falls back to the wall
/// clock, of which nothing can be promised.
pub fn create_signed_data<'a>(options: CreateSignedDataOptions<'a>) -> (r: Result<
    Vec<u8>,
    CmsError,
>)
    ensures
        r is Ok || r == Err::<Vec<u8>, CmsError>(CmsError::BuildSignedDataError) || r
            == Err::<Vec<u8>, CmsError>(CmsError::TimestampServerParseError),
        r == Err::<Vec<u8>, CmsError>(CmsError::TimestampServerParseError) ==> opt_str_view(
            options.timestamp_server,
        ) is Some,
        (opt_str_view(options.timestamp_server) matches Some(u) && !ts_url_ok(u)) ==> r == Err::<
            Vec<u8>,
            CmsError,
        >(CmsError::TimestampServerParseError),
        opt_str_view(options.timestamp_server) is None ==> (r is Ok || r == Err::<
            Vec<u8>,
            CmsError,
        >(CmsError::BuildSignedDataError)),
        r matches Ok(der) ==> (opt_str_view(options.signing_time) matches Some(t) ==> (
        time_parse_ok(t) && utctime_representable(rfc3339_epoch_of(t))
            ==> envelope_signing_time(der@) == rfc3339_epoch_of(t))),
{
    let CreateSignedDataOptions { content, signer, signing_time, timestamp_server, certs } =
        options;
    let parsed = match &signing_time {
        Some(t) => parse_signing_time(t),
        None => None,
    };
    let now = current_time();
    let time = effective_signing_time(parsed, now);
    let chain = match certs {
        Some(c) => c,
        None => Vec::new(),
    };
    match timestamp_server {
        Some(url) => {
            let signer = match signer_with_time_stamp_url(signer, &url) {
                Some(s) => s,
                None => {
                    return Err(CmsError::TimestampServerParseError);
                },
            };
            match build_envelope(&content, signer, chain, time) {
                Ok(der) => Ok(der),
                Err(BuildFailure::TimeStamp) => Err(CmsError::TimestampServerParseError),
                Err(BuildFailure::Assembly) => Err(CmsError::BuildSignedDataError),
            }
        },
        None => match build_envelope(&content, signer, chain, time) {
            Ok(der) => Ok(der),
            // With no authority named here, a timestamp-protocol failure
            // can only stem from a signer prepared elsewhere; it counts
            // as an assembly failure.
            Err(_) => Err(CmsError::BuildSignedDataError),
        },
    }
}

/// Decode a textual certificate chain into its parsed certificates.
///
/// Succeeds exactly when the text decodes and yields at least one
/// certificate; the first entry is the signer's own certificate.
pub fn resolve_certificate_chain(pem: &Vec<u8>) -> (r: Result<
    Vec<x509_certificate::CapturedX509Certificate>,
    CmsError,
>)
    ensures
        r is Ok <==> cert_chain_ok(pem@),
        r matches Ok(v) ==> parsed_cert_count(pem@) == Some(v@.len() as nat) && v@.len() >= 1,
        r is Err ==> r == Err::<
            Vec<x509_certificate::CapturedX509Certificate>,
            CmsError,
        >(CmsError::CertificateParseError),
{
    match parse_certificates(pem) {
        None => Err(CmsError::CertificateParseError),
        Some(certs) => {
            if certs.len() == 0 {
                Err(CmsError::CertificateParseError)
            } else {
                Ok(certs)
            }
        },
    }
}

/// The view of an optional string.
pub open spec fn opt_str_view(o: Option<String>) -> Option<Seq<char>> {
    match o {
        Some(s) => Some(s@),
        None => None,
    }
}

/// What the direct private-key signing path returns, as a relation
/// between its textual inputs — certificate chain, private key,
/// timestamp-authority request `ts`, signing-time text `st` — and its
/// result.
///
/// Parsing errors are pinned down exactly: the certificate chain is
/// checked first, then the private key, then the timestamp-authority
/// address.  Once all three are accepted the outcome rests with the
/// outside assembly step, which may still fail to build the envelope or
/// to obtain a timestamp token; success is never owed because the signing
/// operation itself is an outside call.  A timestamp failure arises only
/// when timestamping was requested, and a produced envelope carries a
/// parsed, representable signing time exactly.
pub open spec fn direct_sign_obligation(
    cert: Seq<u8>,
    key: Seq<u8>,
    ts: Option<Seq<char>>,
    st: Option<Seq<char>>,
    r: Result<Vec<u8>, CmsError>,
) -> bool {
    &&& (r == Err::<Vec<u8>, CmsError>(CmsError::CertificateParseError) <==> !cert_chain_ok(cert))
    &&& cert_chain_ok(cert) ==> (r == Err::<Vec<u8>, CmsError>(CmsError::PrivateKeyParseError)
        <==> !key_parse_ok(key))
    &&& cert_chain_ok(cert) && key_parse_ok(key) && (ts matches Some(u) && !ts_url_ok(u)) ==> r
        == Err::<Vec<u8>, CmsError>(CmsError::TimestampServerParseError)
    &&& r == Err::<Vec<u8>, CmsError>(CmsError::TimestampServerParseError) ==> ts is Some
    &&& cert_chain_ok(cert) && key_parse_ok(key) && ts is None ==> (r is Ok || r == Err::<
        Vec<u8>,
        CmsError,
    >(CmsError::BuildSignedDataError))
    &&& cert_chain_ok(cert) && key_parse_ok(key) && (ts is None || ts_url_ok(ts->0)) ==> (r is Ok
        || r == Err::<Vec<u8>, CmsError>(CmsError::BuildSignedDataError) || r == Err::<
        Vec<u8>,
        CmsError,
    >(CmsError::TimestampServerParseError))
    &&& r == Err::<Vec<u8>, CmsError>(CmsError::BuildSignedDataError) ==> cert_chain_ok(cert)
        && key_parse_ok(key) && (ts is None || ts_url_ok(ts->0))
    &&& r is Err ==> (r->Err_0 == CmsError::CertificateParseError || r->Err_0
        == CmsError::PrivateKeyParseError || r->Err_0 == CmsError::TimestampServerParseError
        || r->Err_0 == CmsError::BuildSignedDataError)
    &&& r matches Ok(der) ==> (st matches Some(t) ==> (time_parse_ok(t) && utctime_representable(
        rfc3339_epoch_of(t),
    ) ==> envelope_signing_time(der@) == rfc3339_epoch_of(t)))
}

/// The inputs of one direct private-key signing request.
#[derive(Default)]
pub struct SignWithPrivateKeyOptions {
    /// The content to sign.
    pub content: Vec<u8>,
    /// The certificate chain, PEM text, leaf first.
    pub cert: Vec<u8>,
    /// The private key, PKCS#8 PEM text.
    pub private_key: Vec<u8>,
    /// The signing time, RFC 3339 text; defaults to the wall clock.
    pub signing_time: Option<String>,
    /// The timestamp-authority address, if a trusted timestamp is wanted.
    pub timestamp_server: Option<String>,
}

/// Sign content with a directly supplied private key.
///
/// The certificate chain and the key are decoded, the signer is bound to
/// the chain's leaf certificate, the timestamp authority is attached when
/// requested, and one envelope is built.
pub fn sign_with_private_key(options: SignWithPrivateKeyOptions) -> (r: Result<Vec<u8>, CmsError>)
    ensures
        direct_sign_obligation(
            options.cert@,
            options.private_key@,
            opt_str_view(options.timestamp_server),
            opt_str_view(options.signing_time),
            r,
        ),
{
    let SignWithPrivateKeyOptions { content, cert, private_key, signing_time, timestamp_server } =
        options;
    let certs = match resolve_certificate_chain(&cert) {
        Ok(c) => c,
        Err(e) => {
            return Err(e);
        },
    };
    let key = match parse_signing_key(&private_key) {
        Some(k) => k,
        None => {
            return Err(CmsError::PrivateKeyParseError);
        },
    };
    let leaf = &certs[0];
    let signer = new_signer(&key, leaf.clone());
    create_signed_data(
        CreateSignedDataOptions {
            content,
            signer,
            signing_time,
            timestamp_server,
            certs: Some(certs),
        },
    )
}

} // verus!
