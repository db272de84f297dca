//! Counting a Linux process's descriptors through the per-process listing that
//! procfs gives.
use crate::stats::{count_kind, tally, FdError, FdKind, Pid, ProcStats};
use procfs::process::FDTarget as ListedTarget;
use procfs::ProcError;
use vstd::prelude::*;

verus! {

#[verifier::external_type_specification]
#[verifier::external_body]
pub struct ExProcess(procfs::process::Process);

#[verifier::external_type_specification]
#[verifier::external_body]
pub struct ExProcError(ProcError);

/// What a descriptor points at, as the process's descriptor listing reports it.
#[derive(Clone, Copy, Debug, PartialEq, Eq, Structural)]
pub enum FdTarget {
    /// A file or a device, by path.
    Path,
    /// A socket.
    Socket,
    /// A network namespace.
    Net,
    /// A pipe.
    Pipe,
    /// An object without an inode (an event, a timer, an epoll set).
    AnonInode,
    /// An anonymous memory file.
    MemFd,
    /// Any other kind of object.
    Other,
}

/// Why a query of the process's listing failed.
#[derive(Clone, Copy, Debug, PartialEq, Eq, Structural)]
pub enum ProcFailure {
    PermissionDenied,
    NotFound,
    Incomplete,
    /// An input/output error, with the operating system's code if it gave one.
    Io(Option<i32>),
    Other,
    Internal,
}

/// Paths count as files and sockets as sockets; nothing else is counted.
pub open spec fn target_kind(t: FdTarget) -> FdKind {
    match t {
        FdTarget::Path => FdKind::File,
        FdTarget::Socket => FdKind::Socket,
        _ => FdKind::Other,
    }
}

pub open spec fn kinds_of(targets: Seq<FdTarget>) -> Seq<FdKind> {
    targets.map_values(|t: FdTarget| target_kind(t))
}

/// The error that a failed query stands for.
pub open spec fn failure_error(f: ProcFailure) -> FdError {
    match f {
        ProcFailure::NotFound => FdError::ProcessNotFound,
        ProcFailure::PermissionDenied => FdError::PermissionDenied,
        ProcFailure::Io(code) => FdError::OsQueryFailed(code),
        _ => FdError::OsQueryFailed(None),
    }
}

/// Classifies one descriptor target.
pub fn classify(t: FdTarget) -> (r: FdKind)
    ensures
        r == target_kind(t),
{
    match t {
        FdTarget::Path => FdKind::File,
        FdTarget::Socket => FdKind::Socket,
        _ => FdKind::Other,
    }
}

/// Counts the file and socket targets among `targets`, for process `pid`.
pub fn stats_from_targets(pid: i32, targets: &Vec<FdTarget>) -> (r: ProcStats)
    ensures
        r.pid == pid,
        r.file_descriptors == count_kind(kinds_of(targets@), FdKind::File),
        r.socket_descriptors == count_kind(kinds_of(targets@), FdKind::Socket),
{
    let mut kinds: Vec<FdKind> = Vec::new();
    let mut i: usize = 0;
    while i < targets.len()
        invariant
            i <= targets.len(),
            kinds@ =~= kinds_of(targets@.take(i as int)),
        decreases targets.len() - i,
    {
        kinds.push(classify(targets[i]));
        i = i + 1;
        assert(kinds@ =~= kinds_of(targets@.take(i as int)));
    }
    assert(targets@.take(targets.len() as int) =~= targets@);
    tally(pid, &kinds)
}

/// Maps a failed query to the library's error.
pub fn error_from(f: ProcFailure) -> (r: FdError)
    ensures
        r == failure_error(f),
{
    match f {
        ProcFailure::NotFound => FdError::ProcessNotFound,
        ProcFailure::PermissionDenied => FdError::PermissionDenied,
        ProcFailure::Io(code) => FdError::OsQueryFailed(code),
        _ => FdError::OsQueryFailed(None),
    }
}

/// Relies on procfs::process::Process::new, which opens the process's
/// directory under /proc. Whether that succeeds depends on the system.
#[verifier::external_body]
fn open_process(pid: i32) -> (r: Result<procfs::process::Process, ProcError>) {
    procfs::process::Process::new(pid)
}

/// Relies on procfs::process::Process::fd and the iterator it returns, which
/// read each entry of the process's descriptor directory. Each target variant
/// is passed on as the like-named variant, without its data.
#[verifier::external_body]
fn fd_targets(p: &procfs::process::Process) -> (r: Result<Vec<FdTarget>, ProcError>) {
    let mut out = Vec::new();
    for fd in p.fd()? {
        out.push(match fd?.target {
            ListedTarget::Path(_) => FdTarget::Path,
            ListedTarget::Socket(_) => FdTarget::Socket,
            ListedTarget::Net(_) => FdTarget::Net,
            ListedTarget::Pipe(_) => FdTarget::Pipe,
            ListedTarget::AnonInode(_) => FdTarget::AnonInode,
            ListedTarget::MemFD(_) => FdTarget::MemFd,
            ListedTarget::Other(_, _) => FdTarget::Other,
        });
    }
    Ok(out)
}

/// Relies on the variants of ProcError, passed on as the like-named
/// variants, and on std::io::Error::raw_os_error for the code of an I/O error.
#[verifier::external_body]
fn failure_of(e: &ProcError) -> (r: ProcFailure) {
    match e {
        ProcError::PermissionDenied(_) => ProcFailure::PermissionDenied,
        ProcError::NotFound(_) => ProcFailure::NotFound,
        ProcError::Incomplete(_) => ProcFailure::Incomplete,
        ProcError::Io(io, _) => ProcFailure::Io(io.raw_os_error()),
        ProcError::Other(_) => ProcFailure::Other,
        ProcError::InternalError(_) => ProcFailure::Internal,
    }
}

/// Lists the descriptors of a process.
pub struct FdList;

impl FdList {
    /// Counts the open file and socket descriptors of process `pid`.
    ///
    /// A pid that is not positive is not found, without a query. Otherwise the
    /// process is opened and its descriptors listed; what the system answers
    /// decides the counts, and a failure of either query is returned as the
    /// error it stands for.
    pub fn list(pid: i32) -> (r: Result<ProcStats, FdError>)
        ensures
            pid <= 0 ==> r == Err::<ProcStats, FdError>(FdError::ProcessNotFound),
            r matches Ok(s) ==> s.pid == pid,
            r matches Err(e) ==> e is ProcessNotFound || e is PermissionDenied || e is OsQueryFailed,
    {
        let target = match Pid::new(pid) {
            Some(p) => p,
            None => return Err(FdError::ProcessNotFound),
        };
        let process = match open_process(target.get()) {
            Ok(p) => p,
            Err(e) => return Err(error_from(failure_of(&e))),
        };
        match fd_targets(&process) {
            Ok(targets) => Ok(stats_from_targets(pid, &targets)),
            Err(e) => Err(error_from(failure_of(&e))),
        }
    }
}

} // verus!
