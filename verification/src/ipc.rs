//! Workspace fetching is one capability with two compositor backends, and
//! the two differ on purpose in how a fetch failure surfaces: the socket
//! backend reports it, the accessor backend degrades to an empty list.
//! The sockets themselves are driven by the embedding shell; this module
//! fixes the failure contract each backend owes its callers.
use vstd::prelude::*;

verus! {

/// The compositor backend a build is configured with; exactly one is
/// active in a running instance.
#[derive(Clone, Copy, Debug, PartialEq, Eq, Structural)]
pub enum WmBackend {
    /// Talks to a compositor control socket; connect and protocol errors
    /// surface to the caller.
    Sway,
    /// Queries the compositor's workspace-state accessor; an internal
    /// fetch failure never propagates and yields an empty list instead.
    Hypr,
}

/// Applies the configured backend's failure contract to a raw fetch
/// outcome: the socket backend passes everything through, the accessor
/// backend turns a failure into an empty success.
pub fn normalize_fetch(backend: WmBackend, result: Result<Vec<String>, String>) -> (r: Result<
    Vec<String>,
    String,
>)
    ensures
        match backend {
            WmBackend::Sway => r == result,
            WmBackend::Hypr => match result {
                Ok(_) => r == result,
                Err(_) => r matches Ok(names) && names@.len() == 0,
            },
        },
{
    match backend {
        WmBackend::Sway => result,
        WmBackend::Hypr => match result {
            Ok(names) => Ok(names),
            Err(_) => Ok(Vec::new()),
        },
    }
}

} // verus!
