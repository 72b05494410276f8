//! The boundary to OpenSSL: the types this library carries through, and one
//! thin function for each OpenSSL call that the logic makes. Nothing in this
//! file is proved; every contract here is taken from the `openssl` crate.

use openssl::asn1::Asn1Time;
use openssl::asn1::Asn1TimeRef;
use openssl::error::ErrorStack;
use openssl::ssl::Ssl;
use openssl::ssl::SslContext;
use openssl::ssl::SslContextBuilder;
use openssl::ssl::SslMethod;
use openssl::ssl::SslVerifyMode;
use openssl::x509::X509;
use vstd::prelude::*;

use crate::expiration::TimeDelta;

verus! {

/// `openssl::x509::X509`: a parsed certificate.
#[verifier::external_type_specification]
#[verifier::external_body]
pub struct ExX509(X509);

/// `openssl::asn1::Asn1Time`: an instant, owned.
#[verifier::external_type_specification]
#[verifier::external_body]
pub struct ExAsn1Time(Asn1Time);

/// `openssl::asn1::Asn1TimeRef`: an instant, borrowed from its owner.
#[verifier::external_type_specification]
#[verifier::external_body]
pub struct ExAsn1TimeRef(Asn1TimeRef);

/// `openssl::error::ErrorStack`: the diagnostics OpenSSL left for a failed call.
#[verifier::external_type_specification]
#[verifier::external_body]
pub struct ExErrorStack(ErrorStack);

/// `openssl::ssl::SslMethod`: the family of protocol versions a context speaks.
#[verifier::external_type_specification]
#[verifier::external_body]
pub struct ExSslMethod(SslMethod);

/// `openssl::ssl::SslVerifyMode`: how a session treats the peer's certificate.
#[verifier::external_type_specification]
#[verifier::external_body]
pub struct ExSslVerifyMode(SslVerifyMode);

/// `openssl::ssl::SslContextBuilder`: a context that can still be configured.
#[verifier::external_type_specification]
#[verifier::external_body]
pub struct ExSslContextBuilder(SslContextBuilder);

/// `openssl::ssl::SslContext`: a finished configuration.
#[verifier::external_type_specification]
#[verifier::external_body]
pub struct ExSslContext(SslContext);

/// `openssl::ssl::Ssl`: one session, before its handshake.
#[verifier::external_type_specification]
#[verifier::external_body]
pub struct ExSsl(Ssl);

/// What `X509Ref::subject_alt_names` finds in a certificate, with each entry
/// read by `GeneralNameRef::dnsname`. It is `None` where the call hands out
/// nothing: the certificate has no subject-alternative-name extension, or has
/// it twice, or OpenSSL cannot decode it. Otherwise it holds the entries in
/// the order of the extension, each as `dnsname` gives it, which is `None` for
/// an entry of another type than `dNSName` and for a name that is no UTF-8.
pub uninterp spec fn subject_alt_name_entries(cert: X509) -> Option<Seq<Option<Seq<char>>>>;

/// The instant that `X509Ref::not_after` hands out for a certificate: the end
/// of its validity.
pub uninterp spec fn not_after_of(cert: X509) -> Asn1TimeRef;

/// What `Asn1TimeRef::diff` gives for the span from `from` to `to`: the span
/// where the call succeeds, `None` where it fails.
pub uninterp spec fn span_between(from: Asn1Time, to: Asn1TimeRef) -> Option<TimeDelta>;

/// The bits of the mode that `SslRef::verify_mode` returns for a session: 0
/// for a session that does not verify its peer.
pub uninterp spec fn session_verify_bits(session: Ssl) -> int;

/// Calls `SslMethod::tls`. Nothing is claimed of the value.
#[verifier::external_body]
pub(crate) fn tls_method() -> SslMethod {
    SslMethod::tls()
}

/// Calls `SslContext::builder`. Nothing is claimed of the outcome.
#[verifier::external_body]
pub(crate) fn context_builder(method: SslMethod) -> Result<SslContextBuilder, ErrorStack> {
    SslContext::builder(method)
}

/// Calls `SslVerifyMode::empty`: the mode with no flag set, which OpenSSL
/// names `SSL_VERIFY_NONE`. Nothing is claimed of the value.
#[verifier::external_body]
pub(crate) fn verify_none() -> SslVerifyMode {
    SslVerifyMode::empty()
}

/// Calls `SslContextBuilder::set_verify`. Nothing is claimed of the builder
/// afterwards.
#[verifier::external_body]
pub(crate) fn set_verify(builder: &mut SslContextBuilder, mode: SslVerifyMode) {
    builder.set_verify(mode)
}

/// Calls `SslContextBuilder::build`. Nothing is claimed of the context.
#[verifier::external_body]
pub(crate) fn build_context(builder: SslContextBuilder) -> SslContext {
    builder.build()
}

/// Calls `Ssl::new`. Nothing is claimed of the outcome.
#[verifier::external_body]
pub(crate) fn new_session(context: &SslContext) -> Result<Ssl, ErrorStack> {
    Ssl::new(context)
}

/// Calls `SslRef::set_verify` with the mode of these bits, made by
/// `SslVerifyMode::from_bits_retain`. The crate documents of
/// `SslRef::verify_mode` that it returns the mode that was set so.
#[verifier::external_body]
pub(crate) fn set_session_verify(session: &mut Ssl, bits: i32)
    ensures
        session_verify_bits(*final(session)) == bits,
{
    session.set_verify(SslVerifyMode::from_bits_retain(bits))
}

/// Calls `X509Ref::subject_alt_names`, and `GeneralNameRef::dnsname` on each
/// entry it hands out. The result is the certificate's entries, copied into
/// owned strings.
#[verifier::external_body]
pub(crate) fn subject_alt_names(cert: &X509) -> (entries: Option<Vec<Option<String>>>)
    ensures
        entries.deep_view() == subject_alt_name_entries(*cert),
{
    cert.subject_alt_names().map(
        |names| names.iter().map(|name| name.dnsname().map(String::from)).collect(),
    )
}

/// Calls `X509Ref::not_after`, which panics where OpenSSL hands out no
/// instant; the crate holds that this happens for no certificate. The instant
/// is the certificate's own: the same certificate gives the same instant.
#[verifier::external_body]
pub(crate) fn not_after(cert: &X509) -> (instant: &Asn1TimeRef)
    ensures
        *instant == not_after_of(*cert),
{
    cert.not_after()
}

/// Calls `Asn1Time::days_from_now`, which reads the clock: nothing is claimed
/// of the outcome. The bound keeps the period, counted in seconds, inside a
/// 32-bit `c_long`.
#[verifier::external_body]
pub(crate) fn days_from_now(days: u32) -> Result<Asn1Time, ErrorStack>
    requires
        days <= 24_855,
{
    Asn1Time::days_from_now(days)
}

/// Calls `Asn1TimeRef::diff`: the span from `from` to `to`. The outcome goes
/// by the two instants alone. The crate documents of `TimeDiff` that its
/// seconds are always fewer than a day has.
#[verifier::external_body]
pub(crate) fn diff(from: &Asn1Time, to: &Asn1TimeRef) -> (span: Result<TimeDelta, ErrorStack>)
    ensures
        span matches Ok(delta) ==> delta.secs < 86_400 && span_between(*from, *to) == Some(delta),
        span is Err ==> span_between(*from, *to) is None,
{
    match from.diff(to) {
        Ok(d) => Ok(TimeDelta { days: d.days, secs: d.secs }),
        Err(e) => Err(e),
    }
}

/// Formats an `ErrorStack` by its `Display`. The words are OpenSSL's and depend
/// on the library that is linked: nothing is claimed of them.
#[verifier::external_body]
pub(crate) fn error_stack_text(stack: &ErrorStack) -> String {
    format!("{}", stack)
}

} // verus!
