//! The data the resolver works over: point-in-time socket records, process
//! snapshot entries, and the per-target outcome that is reported back.

use vstd::prelude::*;

verus! {

/// Transport protocol of a socket.
#[derive(Clone, Copy, Debug, PartialEq, Eq, Structural)]
pub enum Protocol {
    Tcp,
    Udp,
}

/// One open socket together with the process that owns it, taken from a
/// point-in-time enumeration of the operating system's socket tables.
#[derive(Clone, Copy, Debug, PartialEq, Eq, Structural)]
pub struct SocketRecord {
    pub protocol: Protocol,
    pub local_port: u16,
    pub owning_pid: u64,
}

/// A raw socket entry as the operating system reports it, before ownerless
/// and unresolvable entries are dropped: the socket and every process
/// identifier the system associates with it.
#[derive(Clone, Debug)]
pub struct RawSocketEntry {
    pub protocol: Protocol,
    pub local_port: u16,
    pub pids: Vec<u64>,
}

/// One entry of a point-in-time snapshot of the live process list.
#[derive(Clone, Debug)]
pub struct ProcessInfo {
    pub pid: u64,
    pub name: String,
}

/// The report for one requested target: the token as given, whether the
/// kill succeeded, and a human-readable message.
#[derive(Clone, Debug)]
pub struct Outcome {
    pub target: String,
    pub success: bool,
    pub message: String,
}

} // verus!
