use netdash::record::TcpState;
use netdash::usage::ProcessStatus;

fn status_name(status: ProcessStatus) -> String {
    let mut out = String::new();
    status.push_name(&mut out);
    out
}

#[test]
fn tcp_state_names_agree_with_netstat2() {
    let pairs = [
        (TcpState::Closed, netstat2::TcpState::Closed),
        (TcpState::Listen, netstat2::TcpState::Listen),
        (TcpState::SynSent, netstat2::TcpState::SynSent),
        (TcpState::SynReceived, netstat2::TcpState::SynReceived),
        (TcpState::Established, netstat2::TcpState::Established),
        (TcpState::FinWait1, netstat2::TcpState::FinWait1),
        (TcpState::FinWait2, netstat2::TcpState::FinWait2),
        (TcpState::CloseWait, netstat2::TcpState::CloseWait),
        (TcpState::Closing, netstat2::TcpState::Closing),
        (TcpState::LastAck, netstat2::TcpState::LastAck),
        (TcpState::TimeWait, netstat2::TcpState::TimeWait),
        (TcpState::DeleteTcb, netstat2::TcpState::DeleteTcb),
        (TcpState::Unknown, netstat2::TcpState::Unknown),
    ];
    for (state, outside) in pairs {
        assert_eq!(state.name(), outside.to_string());
        assert_eq!(format!("{:?}", state), format!("{:?}", outside));
    }
}

#[test]
fn process_status_names_agree_with_sysinfo() {
    let pairs = [
        (ProcessStatus::Idle, sysinfo::ProcessStatus::Idle),
        (ProcessStatus::Run, sysinfo::ProcessStatus::Run),
        (ProcessStatus::Sleep, sysinfo::ProcessStatus::Sleep),
        (ProcessStatus::Stop, sysinfo::ProcessStatus::Stop),
        (ProcessStatus::Zombie, sysinfo::ProcessStatus::Zombie),
        (ProcessStatus::Tracing, sysinfo::ProcessStatus::Tracing),
        (ProcessStatus::Dead, sysinfo::ProcessStatus::Dead),
        (ProcessStatus::Wakekill, sysinfo::ProcessStatus::Wakekill),
        (ProcessStatus::Waking, sysinfo::ProcessStatus::Waking),
        (ProcessStatus::Parked, sysinfo::ProcessStatus::Parked),
        (ProcessStatus::LockBlocked, sysinfo::ProcessStatus::LockBlocked),
        (
            ProcessStatus::UninterruptibleDiskSleep,
            sysinfo::ProcessStatus::UninterruptibleDiskSleep,
        ),
        (ProcessStatus::Unknown(0), sysinfo::ProcessStatus::Unknown(0)),
        (ProcessStatus::Unknown(120), sysinfo::ProcessStatus::Unknown(120)),
        (
            ProcessStatus::Unknown(u32::MAX),
            sysinfo::ProcessStatus::Unknown(u32::MAX),
        ),
    ];
    for (status, outside) in pairs {
        assert_eq!(status_name(status), format!("{:?}", outside));
    }
}
