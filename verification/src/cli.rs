//! How the service is to be served.

use vstd::prelude::*;
use vstd::string::*;

verus! {

/// The address to listen on if the requested one cannot be bound: any free
/// local port.
pub const FALLBACK_LISTEN: &'static str = "127.0.0.1:0";

/// The error text if only one of the two TLS files is given.
pub const TLS_PAIR_ERROR: &'static str =
    "Both --tls-cert and --tls-key must be provided together";

/// How connections are served.
pub enum Serving {
    /// Over TLS, with a certificate file and a private key file.
    Tls { cert: String, key: String },
    /// In the clear.
    Plain,
}

/// Decides whether to serve over TLS.
pub fn serving(tls_cert: Option<String>, tls_key: Option<String>) -> (r: Result<Serving, String>)
    ensures
        match (tls_cert, tls_key) {
            (Some(cert), Some(key)) => r == Ok::<Serving, String>(Serving::Tls { cert, key }),
            (None, None) => r == Ok::<Serving, String>(Serving::Plain),
            _ => r matches Err(e) && e@ == TLS_PAIR_ERROR@,
        },
{
    match (tls_cert, tls_key) {
        (Some(cert), Some(key)) => Ok(Serving::Tls { cert, key }),
        (None, None) => Ok(Serving::Plain),
        _ => Err(TLS_PAIR_ERROR.to_owned()),
    }
}

/// The addresses that are tried in turn.
#[derive(Clone, Copy, Debug, PartialEq, Eq, Structural)]
pub enum BindAttempt {
    /// The requested address.
    Requested,
    /// [`FALLBACK_LISTEN`].
    Fallback,
}

/// What to try after an address could not be bound.
pub fn next_attempt(failed: BindAttempt) -> (r: Option<BindAttempt>)
    ensures
        r == match failed {
            BindAttempt::Requested => Some(BindAttempt::Fallback),
            BindAttempt::Fallback => None,
        },
{
    match failed {
        BindAttempt::Requested => Some(BindAttempt::Fallback),
        BindAttempt::Fallback => None,
    }
}

} // verus!
