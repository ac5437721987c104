use vstd::prelude::*;

verus! {

/// Number of inherited descriptors that switches to socket activation.
pub const ACTIVATED_COUNT: u8 = 2;

/// The first descriptor handed over by socket activation.
pub const FIRST_ACTIVATED_FD: i32 = 3;

/// Port of the status page when listeners are bound afresh.
pub const WEB_PORT: u16 = 80;

/// Port of the agent channel when listeners are bound afresh.
pub const C2_PORT: u16 = 7777;

/// How the two listeners come to be.
#[derive(Clone, Copy, Debug, PartialEq, Eq, Structural)]
pub enum ListenerPlan {
    /// Adopt the inherited descriptors: the status page's, then the agent channel's.
    Adopt { web_fd: i32, c2_fd: i32 },
    /// Bind fresh listeners on all interfaces at these ports.
    Bind { web_port: u16, c2_port: u16 },
}

/// The kind of transport behind a listening socket.
#[derive(Clone, Copy, Debug, PartialEq, Eq, Structural)]
pub enum TransportKind {
    /// An IPv4 or IPv6 stream socket.
    Network,
    /// A local-domain stream socket.
    Local,
}

/// Chooses between adopting inherited sockets and binding fresh ones, from
/// the announced count of inherited descriptors, if any was announced.
pub fn plan_listeners(listen_fds: Option<u8>) -> (r: ListenerPlan)
    ensures
        r == (if listen_fds == Some(ACTIVATED_COUNT) {
            ListenerPlan::Adopt { web_fd: FIRST_ACTIVATED_FD, c2_fd: (FIRST_ACTIVATED_FD + 1) as i32 }
        } else {
            ListenerPlan::Bind { web_port: WEB_PORT, c2_port: C2_PORT }
        }),
{
    match listen_fds {
        Some(n) if n == ACTIVATED_COUNT => ListenerPlan::Adopt {
            web_fd: FIRST_ACTIVATED_FD,
            c2_fd: FIRST_ACTIVATED_FD + 1,
        },
        _ => ListenerPlan::Bind { web_port: WEB_PORT, c2_port: C2_PORT },
    }
}

/// Relies on libc's `AF_UNIX`, which its Linux definitions set to 1.
/// Other targets may number it otherwise (libc gives `AF_INET6` as 30 on
/// macOS and 28 on FreeBSD); there this contract would not hold.
#[verifier::external_body]
fn af_unix() -> (r: i32)
    ensures
        r == 1,
{
    libc::AF_UNIX
}

/// Relies on libc's `AF_INET`, which its Linux definitions set to 2.
/// Other targets may number it otherwise (libc gives `AF_INET6` as 30 on
/// macOS and 28 on FreeBSD); there this contract would not hold.
#[verifier::external_body]
fn af_inet() -> (r: i32)
    ensures
        r == 2,
{
    libc::AF_INET
}

/// Relies on libc's `AF_INET6`, which its Linux definitions set to 10.
/// Other targets may number it otherwise (libc gives `AF_INET6` as 30 on
/// macOS and 28 on FreeBSD); there this contract would not hold.
#[verifier::external_body]
fn af_inet6() -> (r: i32)
    ensures
        r == 10,
{
    libc::AF_INET6
}

/// The transport behind a socket of address family `family`; `None` for a
/// family that cannot be served, which is fatal at startup. The family
/// numbers are Linux's, where the descriptor's family is queried.
pub fn socket_kind(family: i32) -> (r: Option<TransportKind>)
    ensures
        r == (if family == 1 {
            Some(TransportKind::Local)
        } else if family == 2 || family == 10 {
            Some(TransportKind::Network)
        } else {
            None
        }),
{
    if family == af_unix() {
        Some(TransportKind::Local)
    } else if family == af_inet() || family == af_inet6() {
        Some(TransportKind::Network)
    } else {
        None
    }
}

} // verus!
