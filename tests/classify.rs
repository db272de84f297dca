use fdcount::fds::{classify, error_from, stats_from_targets, FdList, FdTarget, ProcFailure};
use fdcount::stats::{bsd_kind, tally, BsdFdType, FdError, FdKind, Pid, ProcStats};
use rustix::net::{AddressFamily, SocketType};

#[test]
fn pid_must_be_positive() {
    assert!(Pid::new(0).is_none());
    assert!(Pid::new(-1).is_none());
    assert_eq!(Pid::new(42).map(|p| p.get()), Some(42));
}

#[test]
fn new_stats_start_at_zero() {
    let s = ProcStats::new(5);
    assert_eq!((s.pid, s.file_descriptors, s.socket_descriptors), (5, 0, 0));
}

#[test]
fn tally_counts_files_and_sockets() {
    let kinds = vec![FdKind::File, FdKind::Other, FdKind::Socket, FdKind::File];
    let s = tally(3, &kinds);
    assert_eq!((s.pid, s.file_descriptors, s.socket_descriptors), (3, 2, 1));
    assert_eq!(tally(3, &vec![]), ProcStats::new(3));
}

#[test]
fn only_paths_and_sockets_are_counted() {
    assert_eq!(classify(FdTarget::Path), FdKind::File);
    assert_eq!(classify(FdTarget::Socket), FdKind::Socket);
    for t in [FdTarget::Net, FdTarget::Pipe, FdTarget::AnonInode, FdTarget::MemFd, FdTarget::Other] {
        assert_eq!(classify(t), FdKind::Other);
    }
    let targets = vec![
        FdTarget::Path,
        FdTarget::Pipe,
        FdTarget::Socket,
        FdTarget::AnonInode,
        FdTarget::Path,
        FdTarget::Socket,
        FdTarget::Path,
    ];
    let s = stats_from_targets(11, &targets);
    assert_eq!((s.pid, s.file_descriptors, s.socket_descriptors), (11, 3, 2));
}

#[test]
fn only_vnodes_and_bsd_sockets_are_counted() {
    assert_eq!(bsd_kind(BsdFdType::VNode), FdKind::File);
    assert_eq!(bsd_kind(BsdFdType::Socket), FdKind::Socket);
    for t in [BsdFdType::Pipe, BsdFdType::KQueue, BsdFdType::SharedMemory, BsdFdType::Unknown] {
        assert_eq!(bsd_kind(t), FdKind::Other);
    }
}

#[test]
fn failures_map_to_errors() {
    assert_eq!(error_from(ProcFailure::NotFound), FdError::ProcessNotFound);
    assert_eq!(error_from(ProcFailure::PermissionDenied), FdError::PermissionDenied);
    assert_eq!(error_from(ProcFailure::Io(Some(5))), FdError::OsQueryFailed(Some(5)));
    assert_eq!(error_from(ProcFailure::Incomplete), FdError::OsQueryFailed(None));
    assert_eq!(error_from(ProcFailure::Internal), FdError::OsQueryFailed(None));
}

#[test]
fn list_of_pid_zero_is_not_found() {
    assert_eq!(FdList::list(0), Err(FdError::ProcessNotFound));
    assert_eq!(FdList::list(-3), Err(FdError::ProcessNotFound));
}

#[test]
fn list_of_missing_process_is_not_found() {
    assert_eq!(FdList::list(i32::MAX), Err(FdError::ProcessNotFound));
}

fn own_pid() -> i32 {
    procfs::process::Process::myself().unwrap().pid
}

#[test]
fn list_of_own_process_is_repeatable() {
    let me = own_pid();
    let a = FdList::list(me).unwrap();
    let b = FdList::list(me).unwrap();
    assert_eq!(a, b);
    assert_eq!(a.pid, me);
}

#[test]
fn list_counts_newly_opened_files_and_sockets() {
    let me = own_pid();
    let before = FdList::list(me).unwrap();
    let files: Vec<_> = (0..3)
        .map(|_| {
            rustix::fs::open("/proc/self/stat", rustix::fs::OFlags::RDONLY, rustix::fs::Mode::empty())
                .unwrap()
        })
        .collect();
    // Two TCP sockets; they are counted as soon as they are created.
    let first = rustix::net::socket(AddressFamily::INET, SocketType::STREAM, None).unwrap();
    let second = rustix::net::socket(AddressFamily::INET6, SocketType::STREAM, None)
        .or_else(|_| rustix::net::socket(AddressFamily::INET, SocketType::STREAM, None))
        .unwrap();
    let after = FdList::list(me).unwrap();
    assert_eq!(after.file_descriptors, before.file_descriptors + 3);
    assert_eq!(after.socket_descriptors, before.socket_descriptors + 2);
    assert_eq!(after.pid, before.pid);
    drop((files, first, second));
}

#[test]
fn list_ignores_pipes_and_timers() {
    let me = own_pid();
    let before = FdList::list(me).unwrap();
    let pipe = rustix::pipe::pipe().unwrap();
    let timer = rustix::time::timerfd_create(
        rustix::time::TimerfdClockId::Monotonic,
        rustix::time::TimerfdFlags::empty(),
    )
    .unwrap();
    let after = FdList::list(me).unwrap();
    assert_eq!(after, before);
    drop((pipe, timer));
}
