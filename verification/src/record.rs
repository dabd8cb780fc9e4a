//! What one refresh brings: the sockets that were observed, or the reason
//! why none could be read.

use vstd::prelude::*;

verus! {

/// One end of a socket: an address in its text form, and a port.
#[derive(Debug, PartialEq, Eq)]
pub struct Endpoint {
    pub address: String,
    pub port: u16,
}

/// The state of a TCP connection.
#[derive(Debug, Clone, Copy, PartialEq, Eq)]
pub enum TcpState {
    Closed,
    Listen,
    SynSent,
    SynReceived,
    Established,
    FinWait1,
    FinWait2,
    CloseWait,
    Closing,
    LastAck,
    TimeWait,
    DeleteTcb,
    Unknown,
}

impl TcpState {
    /// The name under which the state is shown.
    pub open spec fn label(self) -> Seq<char> {
        match self {
            TcpState::Closed => "CLOSED"@,
            TcpState::Listen => "LISTEN"@,
            TcpState::SynSent => "SYN_SENT"@,
            TcpState::SynReceived => "SYN_RCVD"@,
            TcpState::Established => "ESTABLISHED"@,
            TcpState::FinWait1 => "FIN_WAIT_1"@,
            TcpState::FinWait2 => "FIN_WAIT_2"@,
            TcpState::CloseWait => "CLOSE_WAIT"@,
            TcpState::Closing => "CLOSING"@,
            TcpState::LastAck => "LAST_ACK"@,
            TcpState::TimeWait => "TIME_WAIT"@,
            TcpState::DeleteTcb => "DELETE_TCB"@,
            TcpState::Unknown => "__UNKNOWN"@,
        }
    }

    /// The name under which the state is shown.
    pub fn name(&self) -> (name: &'static str)
        ensures
            name@ == self.label(),
    {
        match self {
            TcpState::Closed => "CLOSED",
            TcpState::Listen => "LISTEN",
            TcpState::SynSent => "SYN_SENT",
            TcpState::SynReceived => "SYN_RCVD",
            TcpState::Established => "ESTABLISHED",
            TcpState::FinWait1 => "FIN_WAIT_1",
            TcpState::FinWait2 => "FIN_WAIT_2",
            TcpState::CloseWait => "CLOSE_WAIT",
            TcpState::Closing => "CLOSING",
            TcpState::LastAck => "LAST_ACK",
            TcpState::TimeWait => "TIME_WAIT",
            TcpState::DeleteTcb => "DELETE_TCB",
            TcpState::Unknown => "__UNKNOWN",
        }
    }
}

/// One observed socket. A TCP socket has two ends and a state; a UDP socket
/// is bound to a local end only. Either may belong to no process that could
/// be found, or to several.
#[derive(Debug, PartialEq, Eq)]
pub enum ConnectionRecord {
    Tcp { local: Endpoint, remote: Endpoint, state: TcpState, pids: Vec<u32> },
    Udp { local: Endpoint, pids: Vec<u32> },
}

impl ConnectionRecord {
    /// The identifiers of the processes that own the socket.
    pub open spec fn owners(self) -> Seq<u32> {
        match self {
            ConnectionRecord::Tcp { pids, .. } => pids@,
            ConnectionRecord::Udp { pids, .. } => pids@,
        }
    }

    /// The first owner of the socket, if it has one.
    pub open spec fn first_owner(self) -> Option<u32> {
        if self.owners().len() > 0 {
            Some(self.owners()[0])
        } else {
            None
        }
    }

    /// The identifiers of the processes that own the socket.
    pub fn pids(&self) -> (pids: &Vec<u32>)
        ensures
            pids@ == self.owners(),
    {
        match self {
            ConnectionRecord::Tcp { pids, .. } => pids,
            ConnectionRecord::Udp { pids, .. } => pids,
        }
    }

    /// The first owner of the socket, if it has one.
    pub fn first_pid(&self) -> (pid: Option<u32>)
        ensures
            pid == self.first_owner(),
    {
        let pids = self.pids();
        if pids.len() > 0 {
            Some(pids[0])
        } else {
            None
        }
    }
}

/// Why the sockets could not be read. The dashboard shows the message and
/// asks nothing else of the error.
#[derive(Debug, PartialEq, Eq)]
pub struct FetchError {
    pub message: String,
}

} // verus!
