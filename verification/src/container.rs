//! The password-protected container signing path.
//!
//! A PKCS#12 container bundles private-key and certificate material behind
//! a password.  This path extracts the first private-key entry and every
//! certificate entry, re-encodes them as PEM text, and delegates to the
//! direct private-key path — so both credential sources share one final
//! assembly and one downstream validation.

use vstd::prelude::*;
use crate::envelope::direct_sign_obligation;
use crate::envelope::opt_str_view;
use crate::envelope::sign_with_private_key;
use crate::envelope::SignWithPrivateKeyOptions;
use crate::errors::CmsError;

verus! {

/// Whether the outside PKCS#12 parser accepts the given container bytes.
/// A function of the bytes alone.
pub uninterp spec fn pfx_ok(der: Seq<u8>) -> bool;

/// The private-key entries the outside container reader extracts under
/// the given password, in order, or `None` when the protected section
/// cannot be decrypted or decoded.  A function of container and password
/// alone.
pub uninterp spec fn key_bags_of(der: Seq<u8>, pw: Seq<char>) -> Option<Seq<Seq<u8>>>;

/// The DER certificate entries the outside container reader extracts
/// under the given password, in order, or `None` when the protected
/// section cannot be decrypted or decoded.  A function of container and
/// password alone.
pub uninterp spec fn cert_bags_of(der: Seq<u8>, pw: Seq<char>) -> Option<Seq<Seq<u8>>>;

/// The PEM text (as bytes) that the outside encoder produces for one
/// record with the given tag and contents.  A function of its arguments
/// alone.
pub uninterp spec fn pem_encoding(tag: Seq<char>, body: Seq<u8>) -> Seq<u8>;

/// Which stage of container reading failed.
enum ContainerFailure {
    /// The bytes are not a valid container structure.
    Structure,
    /// A protected section would not decrypt or decode under the password.
    Bags,
}

/// Relies on p12::PFX::parse and PFX::key_bags: parsing accepts exactly
/// the valid container structures, and the key bags are extracted as a
/// function of container bytes and password alone.
#[verifier::external_body]
fn extract_key_bags(der: &Vec<u8>, pw: &String) -> (r: Result<Vec<Vec<u8>>, ContainerFailure>)
    ensures
        (r matches Err(e) && e is Structure) <==> !pfx_ok(der@),
        (r matches Err(e) && e is Bags) <==> (pfx_ok(der@) && key_bags_of(der@, pw@) is None),
        r matches Ok(v) ==> key_bags_of(der@, pw@) == Some(v.deep_view()),
{
    match p12::PFX::parse(der) {
        Err(_) => Err(ContainerFailure::Structure),
        Ok(pfx) => match pfx.key_bags(pw) {
            Ok(bags) => Ok(bags),
            Err(_) => Err(ContainerFailure::Bags),
        },
    }
}

/// Relies on p12::PFX::parse and PFX::cert_x509_bags: parsing accepts
/// exactly the valid container structures, and the X.509 certificate bags
/// are extracted as a function of container bytes and password alone.
#[verifier::external_body]
fn extract_cert_bags(der: &Vec<u8>, pw: &String) -> (r: Result<Vec<Vec<u8>>, ContainerFailure>)
    ensures
        (r matches Err(e) && e is Structure) <==> !pfx_ok(der@),
        (r matches Err(e) && e is Bags) <==> (pfx_ok(der@) && cert_bags_of(der@, pw@) is None),
        r matches Ok(v) ==> cert_bags_of(der@, pw@) == Some(v.deep_view()),
{
    match p12::PFX::parse(der) {
        Err(_) => Err(ContainerFailure::Structure),
        Ok(pfx) => match pfx.cert_x509_bags(pw) {
            Ok(bags) => Ok(bags),
            Err(_) => Err(ContainerFailure::Bags),
        },
    }
}

/// Relies on pem::encode and pem::Pem::new: the encoding of one record is
/// a pure function of the tag and the contents.
#[verifier::external_body]
fn pem_encode_record(tag: &str, body: &Vec<u8>) -> (r: Vec<u8>)
    ensures
        r@ == pem_encoding(tag@, body@),
{
    pem::encode(&pem::Pem::new(tag, body.clone())).into_bytes()
}

/// The given records joined with one newline byte between each pair.
pub open spec fn joined_records(parts: Seq<Seq<u8>>) -> Seq<u8>
    decreases parts.len(),
{
    if parts.len() == 0 {
        Seq::empty()
    } else if parts.len() == 1 {
        parts[0]
    } else {
        joined_records(parts.drop_last()) + seq![10u8] + parts.last()
    }
}

/// Join byte records with a newline byte between each pair.
fn join_records(parts: &Vec<Vec<u8>>) -> (r: Vec<u8>)
    ensures
        r@ == joined_records(parts.deep_view()),
{
    let mut out: Vec<u8> = Vec::new();
    let mut i: usize = 0;
    while i < parts.len()
        invariant
            i <= parts@.len(),
            parts.deep_view().len() == parts@.len(),
            forall|k: int| 0 <= k < parts@.len() ==> parts.deep_view()[k] == parts@[k]@,
            out@ == joined_records(parts.deep_view().take(i as int)),
        decreases parts@.len() - i,
    {
        if i > 0 {
            out.push(10u8);
        }
        let part = &parts[i];
        let mut j: usize = 0;
        while j < part.len()
            invariant
                j <= part@.len(),
                i < parts@.len(),
                part == parts@[i as int],
                parts.deep_view().len() == parts@.len(),
                forall|k: int| 0 <= k < parts@.len() ==> parts.deep_view()[k] == parts@[k]@,
                i > 0 ==> out@ == joined_records(parts.deep_view().take(i as int)) + seq![10u8]
                    + part@.take(j as int),
                i == 0 ==> out@ == part@.take(j as int),
            decreases part@.len() - j,
        {
            out.push(part[j]);
            j += 1;
        }
        proof {
            let dv = parts.deep_view();
            assert(part@.take(part@.len() as int) == part@);
            assert(dv.take(i + 1).drop_last() =~= dv.take(i as int));
            assert(dv.take(i + 1).last() == part@);
            assert(out@ == joined_records(dv.take(i + 1)));
        }
        i += 1;
    }
    proof {
        assert(parts.deep_view().take(parts@.len() as int) == parts.deep_view());
    }
    out
}

/// The password the container is opened with: the one supplied, or the
/// empty string when none was — a deliberate compatibility default, not a
/// fallback for malformed input.
pub open spec fn effective_password(pw: Option<Seq<char>>) -> Seq<char> {
    match pw {
        Some(p) => p,
        None => Seq::empty(),
    }
}

/// The PEM text handed to the direct path for the container's certificate
/// entries: each DER entry encoded as one `CERTIFICATE` record, joined
/// with newlines.
pub open spec fn derived_cert_pem(der: Seq<u8>, pw: Seq<char>) -> Seq<u8> {
    joined_records(cert_bags_of(der, pw)->Some_0.map_values(|b: Seq<u8>| pem_encoding("CERTIFICATE"@, b)))
}

/// The PEM text handed to the direct path for the container's first
/// private-key entry.
pub open spec fn derived_key_pem(der: Seq<u8>, pw: Seq<char>) -> Seq<u8> {
    pem_encoding("PRIVATE KEY"@, key_bags_of(der, pw)->Some_0[0])
}

/// What the container signing path returns, as a relation between the
/// container bytes, the effective password, the timestamp-authority
/// request `ts`, the signing-time text `st` and the result.
///
/// The container structure is checked first, then the private-key bags,
/// then the certificate bags — all before any signing attempt.  Once both
/// kinds of entry exist, the outcome is exactly the direct path's on the
/// re-encoded material: the composition is observably transparent.
pub open spec fn container_sign_obligation(
    der: Seq<u8>,
    pw: Seq<char>,
    ts: Option<Seq<char>>,
    st: Option<Seq<char>>,
    r: Result<Vec<u8>, CmsError>,
) -> bool {
    &&& (r == Err::<Vec<u8>, CmsError>(CmsError::P12ParseError) <==> !pfx_ok(der))
    &&& pfx_ok(der) ==> (r == Err::<Vec<u8>, CmsError>(CmsError::PrivateKeyBagError) <==>
        key_bags_of(der, pw) is None)
    &&& pfx_ok(der) ==> (key_bags_of(der, pw) matches Some(kb) ==> {
        &&& (r == Err::<Vec<u8>, CmsError>(CmsError::NoPrivateKey) <==> kb.len() == 0)
        &&& kb.len() > 0 ==> (r == Err::<Vec<u8>, CmsError>(CmsError::CertBagError) <==>
            cert_bags_of(der, pw) is None)
        &&& kb.len() > 0 ==> (cert_bags_of(der, pw) matches Some(cb) ==> {
            &&& (r == Err::<Vec<u8>, CmsError>(CmsError::NoCertificate) <==> cb.len() == 0)
            &&& cb.len() > 0 ==> direct_sign_obligation(
                derived_cert_pem(der, pw),
                derived_key_pem(der, pw),
                ts,
                st,
                r,
            )
        })
    })
}

/// The inputs of one container signing request.
#[derive(Default)]
pub struct SignWithP12Options {
    /// The content to sign.
    pub content: Vec<u8>,
    /// The PKCS#12 container bytes.
    pub cert: Vec<u8>,
    /// The container password; absent means the empty string.
    pub password: Option<String>,
    /// The signing time, RFC 3339 text; defaults to the wall clock.
    pub signing_time: Option<String>,
    /// The timestamp-authority address, if a trusted timestamp is wanted.
    pub timestamp_server: Option<String>,
}

/// Sign content with credentials held in a PKCS#12 container.
///
/// The first extracted private-key entry and all extracted certificate
/// entries are re-encoded as PEM text and handed to
/// `sign_with_private_key`, so both paths share the same downstream
/// validation and signer construction.
pub fn sign_with_p12(options: SignWithP12Options) -> (r: Result<Vec<u8>, CmsError>)
    ensures
        container_sign_obligation(
            options.cert@,
            effective_password(opt_str_view(options.password)),
            opt_str_view(options.timestamp_server),
            opt_str_view(options.signing_time),
            r,
        ),
{
    let SignWithP12Options { content, cert, password, signing_time, timestamp_server } = options;
    let pw = match password {
        Some(p) => p,
        None => String::new(),
    };
    let key_bags = match extract_key_bags(&cert, &pw) {
        Ok(bags) => bags,
        Err(ContainerFailure::Structure) => {
            return Err(CmsError::P12ParseError);
        },
        Err(ContainerFailure::Bags) => {
            return Err(CmsError::PrivateKeyBagError);
        },
    };
    if key_bags.len() == 0 {
        return Err(CmsError::NoPrivateKey);
    }
    let cert_bags = match extract_cert_bags(&cert, &pw) {
        Ok(bags) => bags,
        Err(ContainerFailure::Structure) => {
            return Err(CmsError::P12ParseError);
        },
        Err(ContainerFailure::Bags) => {
            return Err(CmsError::CertBagError);
        },
    };
    if cert_bags.len() == 0 {
        return Err(CmsError::NoCertificate);
    }
    let mut records: Vec<Vec<u8>> = Vec::new();
    let mut i: usize = 0;
    while i < cert_bags.len()
        invariant
            i <= cert_bags@.len(),
            records@.len() == i,
            forall|k: int| 0 <= k < i ==> records@[k]@ == pem_encoding(
                "CERTIFICATE"@,
                #[trigger] cert_bags@[k]@,
            ),
        decreases cert_bags@.len() - i,
    {
        let record = pem_encode_record("CERTIFICATE", &cert_bags[i]);
        records.push(record);
        i += 1;
    }
    let cert_pem = join_records(&records);
    let key_pem = pem_encode_record("PRIVATE KEY", &key_bags[0]);
    proof {
        let pw_spec = effective_password(opt_str_view(options.password));
        let kb = key_bags_of(options.cert@, pw_spec)->Some_0;
        let cb = cert_bags_of(options.cert@, pw_spec)->Some_0;
        assert forall|k: int| 0 <= k < records@.len() implies records.deep_view()[k]
            == cb.map_values(|b: Seq<u8>| pem_encoding("CERTIFICATE"@, b))[k] by {
            assert(records@[k].deep_view() =~= records@[k]@);
            assert(cert_bags@[k].deep_view() =~= cert_bags@[k]@);
            assert(cb[k] == cert_bags@[k]@);
        }
        assert(records.deep_view() =~= cb.map_values(
            |b: Seq<u8>| pem_encoding("CERTIFICATE"@, b),
        ));
        assert(cert_pem@ == derived_cert_pem(options.cert@, pw_spec));
        assert(key_bags@[0].deep_view() =~= key_bags@[0]@);
        assert(kb[0] == key_bags@[0]@);
        assert(key_pem@ == derived_key_pem(options.cert@, pw_spec));
    }
    sign_with_private_key(
        SignWithPrivateKeyOptions {
            content,
            cert: cert_pem,
            private_key: key_pem,
            signing_time,
            timestamp_server,
        },
    )
}

} // verus!
