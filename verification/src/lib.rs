//! How long until a TLS server's certificate expires.
//!
//! The library evaluates the certificate that a peer presented in a handshake:
//! the seconds left until its `notAfter`, and the DNS names among its subject
//! alternative names. It never opens a socket itself; the caller performs the
//! connection and the handshake and reports how each went.

pub mod check;
pub mod error;
pub mod expiration;
pub mod names;
pub mod tls;

pub use check::Action;
pub use check::Check;
pub use check::Event;
pub use error::Error;
pub use expiration::SslExpiration;
pub use expiration::Status;
pub use expiration::TimeDelta;
