use acme_server::provision::{plan_listeners, socket_kind, ListenerPlan, TransportKind};

#[test]
fn two_inherited_descriptors_are_adopted() {
    assert_eq!(plan_listeners(Some(2)), ListenerPlan::Adopt { web_fd: 3, c2_fd: 4 });
}

#[test]
fn other_counts_bind_fresh_listeners() {
    let bind = ListenerPlan::Bind { web_port: 80, c2_port: 7777 };
    assert_eq!(plan_listeners(None), bind);
    assert_eq!(plan_listeners(Some(1)), bind);
    assert_eq!(plan_listeners(Some(3)), bind);
}

#[test]
fn socket_families_are_classified() {
    assert_eq!(socket_kind(libc::AF_UNIX), Some(TransportKind::Local));
    assert_eq!(socket_kind(libc::AF_INET), Some(TransportKind::Network));
    assert_eq!(socket_kind(libc::AF_INET6), Some(TransportKind::Network));
    assert_eq!(socket_kind(libc::AF_NETLINK), None);
}
