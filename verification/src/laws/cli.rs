//! What holds of how the service is served.

use vstd::prelude::*;

use crate::cli::{next_attempt, serving, BindAttempt, Serving, FALLBACK_LISTEN};

verus! {

/// The service is served over TLS, with these two files, if both are given, and
/// in the clear if none is. One alone is refused.
pub proof fn tls_takes_both_files(
    cert: Option<String>,
    key: Option<String>,
    r: Result<Serving, String>,
)
    requires
        call_ensures(serving, (cert, key), r),
    ensures
        r matches Ok(Serving::Tls { cert: c, key: k }) ==> cert == Some(c) && key == Some(k),
        r matches Ok(Serving::Plain) ==> cert is None && key is None,
        r is Ok <==> (cert is Some <==> key is Some),
        r matches Err(e) ==> e@ == "Both --tls-cert and --tls-key must be provided together"@,
{
}

/// A listen address that cannot be bound is replaced by any free local port,
/// once.
pub proof fn fallback_is_tried_once(first: Option<BindAttempt>, second: Option<BindAttempt>)
    requires
        call_ensures(next_attempt, (BindAttempt::Requested,), first),
        call_ensures(next_attempt, (BindAttempt::Fallback,), second),
    ensures
        first == Some(BindAttempt::Fallback),
        second is None,
        FALLBACK_LISTEN@ == "127.0.0.1:0"@,
{
}

} // verus!
