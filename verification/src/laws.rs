//! The properties the signing paths are held to, stated on their own.
//!
//! Each law is a consequence of the contracts of `sign_with_private_key`
//! and `sign_with_p12`; stating them here makes the guarantees readable
//! without unfolding those contracts.

use vstd::prelude::*;
use crate::container::cert_bags_of;
use crate::container::container_sign_obligation;
use crate::container::derived_cert_pem;
use crate::container::derived_key_pem;
use crate::container::effective_password;
use crate::container::key_bags_of;
use crate::container::pfx_ok;
use crate::envelope::cert_chain_ok;
use crate::envelope::direct_sign_obligation;
use crate::envelope::envelope_signing_time;
use crate::envelope::key_parse_ok;
use crate::envelope::rfc3339_epoch_of;
use crate::envelope::time_parse_ok;
use crate::envelope::ts_url_ok;
use crate::envelope::utctime_representable;
use crate::errors::CmsError;

verus! {

/// A container protected with the empty-string password behaves the same
/// whether the empty password is supplied or no password at all: the two
/// requests admit exactly the same outcomes.
pub proof fn lemma_default_password(
    container: Seq<u8>,
    ts: Option<Seq<char>>,
    st: Option<Seq<char>>,
    r: Result<Vec<u8>, CmsError>,
)
    ensures
        container_sign_obligation(container, effective_password(None), ts, st, r)
            == container_sign_obligation(
            container,
            effective_password(Some(Seq::<char>::empty())),
            ts,
            st,
            r,
        ),
{
}

/// A container that decodes but holds zero private-key entries fails with
/// `NoPrivateKey`, before any signing attempt.
pub proof fn lemma_missing_private_key(
    container: Seq<u8>,
    pw: Seq<char>,
    ts: Option<Seq<char>>,
    st: Option<Seq<char>>,
    r: Result<Vec<u8>, CmsError>,
)
    requires
        pfx_ok(container),
        key_bags_of(container, pw) == Some(Seq::<Seq<u8>>::empty()),
        container_sign_obligation(container, pw, ts, st, r),
    ensures
        r == Err::<Vec<u8>, CmsError>(CmsError::NoPrivateKey),
{
}

/// A container that decodes and holds a private key but zero certificate
/// entries fails with `NoCertificate`, before any signing attempt.
pub proof fn lemma_missing_certificate(
    container: Seq<u8>,
    pw: Seq<char>,
    ts: Option<Seq<char>>,
    st: Option<Seq<char>>,
    r: Result<Vec<u8>, CmsError>,
)
    requires
        pfx_ok(container),
        key_bags_of(container, pw) is Some,
        key_bags_of(container, pw)->Some_0.len() > 0,
        cert_bags_of(container, pw) == Some(Seq::<Seq<u8>>::empty()),
        container_sign_obligation(container, pw, ts, st, r),
    ensures
        r == Err::<Vec<u8>, CmsError>(CmsError::NoCertificate),
{
}

/// Container resolution composed with the direct path is observably
/// transparent: once both kinds of entry are extracted, the container
/// path's outcome is exactly the direct path's outcome on the re-encoded
/// key and certificate material.
pub proof fn lemma_container_transparent(
    container: Seq<u8>,
    pw: Seq<char>,
    ts: Option<Seq<char>>,
    st: Option<Seq<char>>,
    r: Result<Vec<u8>, CmsError>,
)
    requires
        pfx_ok(container),
        key_bags_of(container, pw) is Some,
        key_bags_of(container, pw)->Some_0.len() > 0,
        cert_bags_of(container, pw) is Some,
        cert_bags_of(container, pw)->Some_0.len() > 0,
        container_sign_obligation(container, pw, ts, st, r),
    ensures
        direct_sign_obligation(
            derived_cert_pem(container, pw),
            derived_key_pem(container, pw),
            ts,
            st,
            r,
        ),
{
}

/// When a timestamp was requested with an invalid authority address, the
/// whole build fails with `TimestampServerParseError` — valid credentials
/// notwithstanding, and with no partial envelope.
pub proof fn lemma_invalid_timestamp_server(
    cert: Seq<u8>,
    key: Seq<u8>,
    url: Seq<char>,
    st: Option<Seq<char>>,
    r: Result<Vec<u8>, CmsError>,
)
    requires
        cert_chain_ok(cert),
        key_parse_ok(key),
        !ts_url_ok(url),
        direct_sign_obligation(cert, key, Some(url), st, r),
    ensures
        r == Err::<Vec<u8>, CmsError>(CmsError::TimestampServerParseError),
{
}

/// A timestamp failure is owed to a timestamp request: when no authority
/// address was supplied, `TimestampServerParseError` is never returned.
pub proof fn lemma_no_timestamp_error_unrequested(
    cert: Seq<u8>,
    key: Seq<u8>,
    st: Option<Seq<char>>,
    r: Result<Vec<u8>, CmsError>,
)
    requires
        direct_sign_obligation(cert, key, None, st, r),
    ensures
        r != Err::<Vec<u8>, CmsError>(CmsError::TimestampServerParseError),
{
}

/// A produced envelope carries a supplied, parsable signing time exactly,
/// whenever the instant is representable in the envelope's `UTCTime`
/// encoding.
pub proof fn lemma_explicit_signing_time(
    cert: Seq<u8>,
    key: Seq<u8>,
    ts: Option<Seq<char>>,
    t: Seq<char>,
    r: Result<Vec<u8>, CmsError>,
)
    requires
        time_parse_ok(t),
        utctime_representable(rfc3339_epoch_of(t)),
        direct_sign_obligation(cert, key, ts, Some(t), r),
        r is Ok,
    ensures
        envelope_signing_time(r->Ok_0@) == rfc3339_epoch_of(t),
{
}

} // verus!
