//! One check, step by step.
//!
//! A check connects to a host, runs a handshake and evaluates the certificate
//! that the peer presented. This library decides; it never touches the
//! network. The caller performs each `Action` that a step asks for and reports
//! what happened as an `Event`, until a step asks to `Finish`.
//!
//! The session that a check hands out for the handshake is configured not to
//! verify the peer's certificate. That is the purpose of the library, not an
//! oversight: it inspects certificates, expired and self-signed ones above
//! all, and a verifying client would never get to see those.

use openssl::asn1::Asn1Time;
use openssl::error::ErrorStack;
use openssl::ssl::Ssl;
use openssl::x509::X509;
use vstd::prelude::*;
use vstd::string::StringExecFns;

use crate::error::Error;
use crate::expiration::verdict;
use crate::expiration::SslExpiration;
use crate::expiration::TimeDelta;
use crate::tls::build_context;
use crate::tls::context_builder;
use crate::tls::days_from_now;
use crate::tls::diff;
use crate::tls::new_session;
use crate::tls::not_after;
use crate::tls::not_after_of;
use crate::tls::session_verify_bits;
use crate::tls::set_session_verify;
use crate::tls::set_verify;
use crate::tls::span_between;
use crate::tls::subject_alt_name_entries;
use crate::tls::subject_alt_names;
use crate::tls::tls_method;
use crate::tls::verify_none;

verus! {

/// Where a check stands.
#[derive(Debug)]
pub enum Check {
    /// No connection has been opened yet. `session` waits for its handshake.
    Unconnected { session: Ssl },
    /// The connection is open and the handshake is under way.
    Handshaking,
    /// The peer's certificate has been evaluated. The check is over.
    Evaluated(SslExpiration),
    /// A step failed. The check is over: nothing is tried again.
    Failed(Error),
}

/// What the caller is to do next.
#[derive(Debug)]
pub enum Action {
    /// Resolve this address and open a blocking stream to it.
    Connect(String),
    /// Run the client handshake of this session over the stream just opened,
    /// then take the peer's certificate from the session.
    Handshake(Ssl),
    /// Nothing: the check is over, or the event did not belong to it.
    Finish,
}

/// What the caller reports back.
#[derive(Debug)]
pub enum Event {
    /// The stream is open.
    Connected,
    /// The address did not resolve or the connection failed, with the
    /// system's diagnostic.
    ConnectFailed(String),
    /// The handshake completed, with the peer's certificate if it presented
    /// one.
    HandshakeCompleted(Option<X509>),
    /// The handshake did not complete, with the diagnostic of the attempt.
    HandshakeFailed(String),
}

/// The address of `domain` on the HTTPS port.
pub open spec fn https_address(domain: Seq<char>) -> Seq<char> {
    domain + seq![':', '4', '4', '3']
}

/// The verify mode of a session that does not verify its peer: OpenSSL's
/// `SSL_VERIFY_NONE`, no bit set.
pub const VERIFY_NONE: i32 = 0;

/// A client session for all versions of TLS that does not verify the peer.
///
/// Verification is switched off twice: on the context, so that the session
/// starts from it, and on the session itself, which is what the contract
/// speaks of. Whether the context and the session can be made is for OpenSSL
/// to say; either failure is reported with OpenSSL's diagnostics.
pub fn inspection_session() -> (session: Result<Ssl, Error>)
    ensures
        session matches Ok(made) ==> session_verify_bits(made) == VERIFY_NONE,
        session matches Err(error) ==> error is CryptoLibrary,
{
    let mut builder = match Error::from_openssl(context_builder(tls_method())) {
        Ok(builder) => builder,
        Err(error) => {
            return Err(error);
        },
    };
    set_verify(&mut builder, verify_none());
    let context = build_context(builder);
    let mut session = match Error::from_openssl(new_session(&context)) {
        Ok(session) => session,
        Err(error) => {
            return Err(error);
        },
    };
    set_session_verify(&mut session, VERIFY_NONE);
    Ok(session)
}

impl Check {
    /// How the check ended: `None` as long as it has not.
    pub open spec fn spec_outcome(self) -> Option<Result<SslExpiration, Error>> {
        match self {
            Check::Evaluated(expiration) => Some(Ok(expiration)),
            Check::Failed(error) => Some(Err(error)),
            _ => None,
        }
    }

    /// Whether the check is over.
    pub open spec fn is_over(self) -> bool {
        self is Evaluated || self is Failed
    }

    /// A fresh check of `address`, given the outcome of preparing its session:
    /// with a session it is unconnected and asks for the connection; without
    /// one it has failed before anything was opened.
    pub fn begin(address: String, session: Result<Ssl, Error>) -> (first: (Check, Action))
        ensures
            first == match session {
                Ok(session) => (Check::Unconnected { session }, Action::Connect(address)),
                Err(error) => (Check::Failed(error), Action::Finish),
            },
    {
        match session {
            Ok(session) => (Check::Unconnected { session }, Action::Connect(address)),
            Err(error) => (Check::Failed(error), Action::Finish),
        }
    }

    /// How far the check has come: 0 before the connection, 1 during the
    /// handshake, 2 once it is over.
    pub open spec fn progress(self) -> nat {
        match self {
            Check::Unconnected { .. } => 0,
            Check::Handshaking => 1,
            Check::Evaluated(_) => 2,
            Check::Failed(_) => 2,
        }
    }

    /// Whether a step from this check on `event` may lead to `next`.
    ///
    /// Every step but one has a single result. The one that evaluates a
    /// certificate reads the clock, so it is held to `evaluates`.
    pub open spec fn steps_to(self, event: Event, next: (Check, Action)) -> bool {
        match (self, event) {
            (Check::Unconnected { session }, Event::Connected) => next == (
                Check::Handshaking,
                Action::Handshake(session),
            ),
            (Check::Unconnected { .. }, Event::ConnectFailed(diagnostic)) => next == (
                Check::Failed(Error::ResolutionOrConnection(diagnostic)),
                Action::Finish,
            ),
            (Check::Handshaking, Event::HandshakeFailed(diagnostic)) => next == (
                Check::Failed(Error::Handshake(diagnostic)),
                Action::Finish,
            ),
            (Check::Handshaking, Event::HandshakeCompleted(None)) => next == (
                Check::Failed(Error::CertificateNotFound),
                Action::Finish,
            ),
            (Check::Handshaking, Event::HandshakeCompleted(Some(cert))) => {
                &&& next.1 == Action::Finish
                &&& next.0.spec_outcome() matches Some(outcome)
                &&& evaluates(cert, outcome)
            },
            _ => next == (self, Action::Finish),
        }
    }

    /// Takes the check one step further on `event`.
    ///
    /// A failed connection ends the check as `ResolutionOrConnection`, a failed
    /// handshake as `Handshake`, each with the diagnostic reported; a completed
    /// handshake without a certificate ends it as `CertificateNotFound`. With a
    /// certificate the check ends evaluated, unless OpenSSL fails while the
    /// certificate is read. An event that the check does not wait for, and any
    /// event once the check is over, changes nothing.
    pub fn step(self, event: Event) -> (next: (Check, Action))
        ensures
            self.steps_to(event, next),
    {
        match (self, event) {
            (Check::Unconnected { session }, Event::Connected) => (
                Check::Handshaking,
                Action::Handshake(session),
            ),
            (Check::Unconnected { .. }, Event::ConnectFailed(diagnostic)) => (
                Check::Failed(Error::ResolutionOrConnection(diagnostic)),
                Action::Finish,
            ),
            (Check::Handshaking, Event::HandshakeFailed(diagnostic)) => (
                Check::Failed(Error::Handshake(diagnostic)),
                Action::Finish,
            ),
            (Check::Handshaking, Event::HandshakeCompleted(None)) => (
                Check::Failed(Error::CertificateNotFound),
                Action::Finish,
            ),
            (Check::Handshaking, Event::HandshakeCompleted(Some(cert))) => {
                match SslExpiration::from_certificate(&cert) {
                    Ok(expiration) => (Check::Evaluated(expiration), Action::Finish),
                    Err(error) => (Check::Failed(error), Action::Finish),
                }
            },
            (check, _) => (check, Action::Finish),
        }
    }

    /// How the check ended: `None` as long as it has not.
    pub fn outcome(self) -> (outcome: Option<Result<SslExpiration, Error>>)
        ensures
            outcome == self.spec_outcome(),
    {
        match self {
            Check::Evaluated(expiration) => Some(Ok(expiration)),
            Check::Failed(error) => Some(Err(error)),
            _ => None,
        }
    }
}

/// Whether `outcome` is an evaluation of `cert`: a verdict that names the DNS
/// entries of the certificate and counts the seconds from some instant to the
/// certificate's `notAfter`, or a failure of OpenSSL.
pub open spec fn evaluates(cert: X509, outcome: Result<SslExpiration, Error>) -> bool {
    match outcome {
        Ok(expiration) => exists|now: Asn1Time|
            {
                &&& (#[trigger] span_between(now, not_after_of(cert))) matches Some(remaining)
                &&& remaining.secs < 86_400
                &&& expiration@ == verdict(subject_alt_name_entries(cert), remaining)
            },
        Err(error) => error is CryptoLibrary,
    }
}

/// Whether `action` is what `check` waits for: the connection before anything
/// is open, the handshake once the connection is, and nothing once the check is
/// over.
pub open spec fn waits_for(check: Check, action: Action) -> bool {
    match check {
        Check::Unconnected { .. } => action is Connect,
        Check::Handshaking => action is Handshake,
        _ => action is Finish,
    }
}

/// Whether `event` reports how `action` went.
pub open spec fn answers(event: Event, action: Action) -> bool {
    match action {
        Action::Connect(_) => event is Connected || event is ConnectFailed,
        Action::Handshake(_) => event is HandshakeCompleted || event is HandshakeFailed,
        Action::Finish => false,
    }
}

/// A connection that could not be opened ends the check as a failure of
/// resolution or connection that holds the diagnostic reported: not as a
/// failed handshake, and not as a missing certificate.
pub proof fn lemma_refused_connection_fails_as_such(
    check: Check,
    diagnostic: String,
    next: (Check, Action),
)
    requires
        check is Unconnected,
        check.steps_to(Event::ConnectFailed(diagnostic), next),
    ensures
        next.0.spec_outcome() == Some(
            Err::<SslExpiration, Error>(Error::ResolutionOrConnection(diagnostic)),
        ),
        next.1 == Action::Finish,
{
}

/// A handshake that did not complete over an open connection ends the check as
/// a failed handshake that holds the diagnostic reported: not as a failure of
/// the connection.
pub proof fn lemma_rejected_handshake_fails_as_such(
    check: Check,
    diagnostic: String,
    next: (Check, Action),
)
    requires
        check is Handshaking,
        check.steps_to(Event::HandshakeFailed(diagnostic), next),
    ensures
        next.0.spec_outcome() == Some(Err::<SslExpiration, Error>(Error::Handshake(diagnostic))),
        next.1 == Action::Finish,
{
}

/// A check runs once. No step takes it back or asks for a second connection;
/// the session is handed out only by the step from the connection to the
/// handshake; and once the check is over no event changes it.
pub proof fn lemma_check_runs_once(check: Check, event: Event, next: (Check, Action))
    requires
        check.steps_to(event, next),
    ensures
        check.progress() <= next.0.progress(),
        !(next.1 is Connect),
        next.1 is Handshake ==> check.progress() == 0 && next.0.progress() == 1,
        check.is_over() ==> next == (check, Action::Finish),
        next.0.is_over() <==> next.0.spec_outcome() is Some,
{
}

/// Whether `first` begins a check of `address`: either the check is
/// unconnected, holds a session that does not verify its peer and asks for the
/// connection to that very address, or OpenSSL could not prepare the session
/// and the check has failed before anything was opened.
pub open spec fn begins(address: Seq<char>, first: (Check, Action)) -> bool {
    match first.0 {
        Check::Unconnected { session } => {
            &&& session_verify_bits(session) == VERIFY_NONE
            &&& first.1 matches Action::Connect(asked)
            &&& asked@ == address
        },
        Check::Failed(error) => error is CryptoLibrary && first.1 == Action::Finish,
        _ => false,
    }
}

/// The session that a check hands out for the handshake does not verify the
/// peer: whatever certificate the peer presents, trusted or not, the handshake
/// goes on and the certificate reaches the evaluation.
pub proof fn lemma_handshake_does_not_verify(
    address: Seq<char>,
    first: (Check, Action),
    next: (Check, Action),
)
    requires
        begins(address, first),
        first.0.steps_to(Event::Connected, next),
        first.0 is Unconnected,
    ensures
        next.1 matches Action::Handshake(session) && session_verify_bits(session) == VERIFY_NONE,
{
}

/// A fresh check waits for the action it asks for.
pub proof fn lemma_fresh_check_waits(address: Seq<char>, first: (Check, Action))
    requires
        begins(address, first),
    ensures
        waits_for(first.0, first.1),
{
}

/// A caller that performs each action and reports how it went brings the
/// check to its end: each report takes the check further, to a state that
/// again waits for the action it asks for. So after two actions at most the
/// check asks to finish, and is over.
pub proof fn lemma_answered_check_moves_on(
    check: Check,
    action: Action,
    event: Event,
    next: (Check, Action),
)
    requires
        waits_for(check, action),
        answers(event, action),
        check.steps_to(event, next),
    ensures
        waits_for(next.0, next.1),
        check.progress() < next.0.progress(),
        next.1 is Finish ==> next.0.is_over(),
{
}

impl SslExpiration {
    /// Begins a check of `domain` on the HTTPS port, 443.
    pub fn from_domain_name(domain: &str) -> (first: (Check, Action))
        ensures
            begins(https_address(domain@), first),
    {
        proof {
            reveal_strlit(":443");
        }
        let address = String::from_str(domain).concat(":443");
        assert(address@ =~= https_address(domain@));
        SslExpiration::from_addr(address.as_str())
    }

    /// Begins a check of `addr`, which names a host and a port.
    pub fn from_addr(addr: &str) -> (first: (Check, Action))
        ensures
            begins(addr@, first),
    {
        Check::begin(String::from_str(addr), inspection_session())
    }

    /// Evaluates a certificate against the clock, read once.
    pub fn from_certificate(cert: &X509) -> (outcome: Result<SslExpiration, Error>)
        ensures
            evaluates(*cert, outcome),
    {
        match Error::from_openssl(days_from_now(0)) {
            Ok(now) => SslExpiration::from_certificate_at(cert, &now),
            Err(error) => Err(error),
        }
    }

    /// Evaluates a certificate as of the instant `now`: its DNS names, and the
    /// seconds from `now` to its `notAfter`. It fails exactly where OpenSSL
    /// cannot tell the span between the two instants.
    pub fn from_certificate_at(cert: &X509, now: &Asn1Time) -> (outcome: Result<
        SslExpiration,
        Error,
    >)
        ensures
            match span_between(*now, not_after_of(*cert)) {
                Some(remaining) => {
                    &&& remaining.secs < 86_400
                    &&& outcome matches Ok(expiration)
                    &&& expiration@ == verdict(subject_alt_name_entries(*cert), remaining)
                },
                None => outcome matches Err(error) && error is CryptoLibrary,
            },
    {
        let extension = subject_alt_names(cert);
        SslExpiration::from_span(&extension, diff(now, not_after(cert)))
    }

    /// Concludes an evaluation from what was read: `extension` as `evaluate`
    /// takes it, and `span`, what OpenSSL gave for the span from now to
    /// `notAfter`. A span gives its verdict; a failure is handed on as one of
    /// the crypto library, with the very diagnostics that came.
    pub fn from_span(
        extension: &Option<Vec<Option<String>>>,
        span: Result<TimeDelta, ErrorStack>,
    ) -> (outcome: Result<SslExpiration, Error>)
        ensures
            match span {
                Ok(remaining) => outcome matches Ok(expiration) && expiration@ == verdict(
                    extension.deep_view(),
                    remaining,
                ),
                Err(stack) => outcome matches Err(error) && error == Error::CryptoLibrary(stack),
            },
    {
        match span {
            Ok(remaining) => Ok(SslExpiration::evaluate(extension, remaining)),
            Err(stack) => Err(Error::CryptoLibrary(stack)),
        }
    }
}

} // verus!
