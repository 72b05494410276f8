//! How a check can fail.

use openssl::error::ErrorStack;
use vstd::prelude::*;
use vstd::string::StringExecFns;

use crate::tls::error_stack_text;

verus! {

/// Why a check ended without a verdict. Each failure is reported as it
/// happened: none is retried, and none is turned into another kind.
#[derive(Debug)]
pub enum Error {
    /// The address did not resolve, or no connection to it could be opened.
    /// Holds the system's diagnostic.
    ResolutionOrConnection(String),
    /// OpenSSL itself failed, outside of any handshake. Holds its diagnostics.
    CryptoLibrary(ErrorStack),
    /// The connection was opened but the handshake did not complete. Holds
    /// the diagnostic of the failed attempt.
    Handshake(String),
    /// The handshake completed but the peer presented no certificate.
    CertificateNotFound,
}

/// How a check reports what a call into OpenSSL gave: a value as it is, a
/// failure as one of the crypto library that holds OpenSSL's diagnostics.
pub open spec fn crypto_outcome<T>(given: Result<T, ErrorStack>) -> Result<T, Error> {
    match given {
        Ok(value) => Ok(value),
        Err(stack) => Err(Error::CryptoLibrary(stack)),
    }
}

impl Error {
    /// Reports what a call into OpenSSL gave: a value as it is, a failure as
    /// one of the crypto library that holds OpenSSL's diagnostics.
    pub fn from_openssl<T>(given: Result<T, ErrorStack>) -> (reported: Result<T, Error>)
        ensures
            reported == crypto_outcome(given),
    {
        match given {
            Ok(value) => Ok(value),
            Err(stack) => Err(Error::CryptoLibrary(stack)),
        }
    }

    /// The text that `message` gives for this error, where this library
    /// words it; `None` for OpenSSL's own diagnostics, which OpenSSL words.
    pub open spec fn spec_message(self) -> Option<Seq<char>> {
        match self {
            Error::ResolutionOrConnection(diagnostic) => Some(diagnostic@),
            Error::CryptoLibrary(_) => None,
            Error::Handshake(diagnostic) => Some("HandshakeError: "@ + diagnostic@),
            Error::CertificateNotFound => Some("Certificate not found"@),
        }
    }

    /// The error in words, for a person to read.
    pub fn message(&self) -> (text: String)
        ensures
            self.spec_message() matches Some(words) ==> text@ == words,
    {
        match self {
            Error::ResolutionOrConnection(diagnostic) => diagnostic.clone(),
            Error::CryptoLibrary(stack) => error_stack_text(stack),
            Error::Handshake(diagnostic) => {
                String::from_str("HandshakeError: ").concat(diagnostic.as_str())
            },
            Error::CertificateNotFound => String::from_str("Certificate not found"),
        }
    }
}

} // verus!
