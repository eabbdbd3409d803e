//! Addresses of local IPC endpoints.

use std::path::PathBuf;
use vstd::prelude::*;

verus! {

/// Opaque filesystem path that names an IPC endpoint.
#[verifier::external_type_specification]
#[verifier::external_body]
pub struct ExPathBuf(std::path::PathBuf);

/// Identifies the IPC backend used for a connection.
#[derive(Debug, Clone, Copy, PartialEq, Eq, Structural)]
pub enum TransportKind {
    /// A platform-appropriate local IPC endpoint (unix domain socket
    /// on Unix, named pipe on Windows).
    LocalIpc,
}

impl Default for TransportKind {
    fn default() -> (k: Self)
        ensures
            k == TransportKind::LocalIpc,
    {
        TransportKind::LocalIpc
    }
}

/// Address passed to the transport to open a connection.
#[derive(Debug)]
pub struct Endpoint {
    /// Filesystem path used as the IPC endpoint name.
    pub path: PathBuf,
    /// Which backend the address refers to.
    pub kind: TransportKind,
}

impl Endpoint {
    /// Create a new local IPC endpoint with the given path.
    pub fn new<P: Into<PathBuf>>(path: P) -> (e: Self)
        ensures
            e.kind == TransportKind::LocalIpc,
            call_ensures(P::into, (path,), e.path),
    {
        Endpoint { path: path.into(), kind: TransportKind::LocalIpc }
    }
}

} // verus!
