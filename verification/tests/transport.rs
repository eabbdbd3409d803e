use outwiker::transport::{Endpoint, TransportKind};
use std::path::PathBuf;

#[test]
fn endpoint_new_is_local_ipc() {
    let e = Endpoint::new("/tmp/x.sock");
    assert_eq!(e.kind, TransportKind::LocalIpc);
    assert_eq!(e.path, PathBuf::from("/tmp/x.sock"));
}

#[test]
fn endpoint_from_pathbuf() {
    let e = Endpoint::new(PathBuf::from("a/b"));
    assert_eq!(e.path, PathBuf::from("a/b"));
}

#[test]
fn transport_kind_default() {
    assert_eq!(TransportKind::default(), TransportKind::LocalIpc);
}
