use vstd::prelude::*;

verus! {

/// A process identifier, always positive.
#[derive(Clone, Copy, Debug, PartialEq, Eq, Structural)]
pub struct Pid {
    value: i32,
}

impl Pid {
    #[verifier::type_invariant]
    spec fn positive(self) -> bool {
        self.value > 0
    }

    pub closed spec fn spec_get(self) -> i32 {
        self.value
    }

    /// Accepts `value` if it is positive.
    pub fn new(value: i32) -> (r: Option<Pid>)
        ensures
            r.is_some() <==> value > 0,
            r matches Some(p) ==> p.spec_get() == value,
    {
        if value > 0 {
            Some(Pid { value })
        } else {
            None
        }
    }

    pub fn get(&self) -> (r: i32)
        ensures
            r == self.spec_get(),
            r > 0,
    {
        proof {
            use_type_invariant(self);
        }
        self.value
    }
}

/// What went wrong while counting the descriptors of a process.
#[derive(Clone, Copy, Debug, PartialEq, Eq, Structural)]
pub enum FdError {
    /// The pid does not name a live process.
    ProcessNotFound,
    /// The caller may not inspect the process.
    PermissionDenied,
    /// No provider exists, or a field cannot represent the pid.
    UnsupportedPlatform,
    /// An operating-system query failed, with its raw code where one was given.
    OsQueryFailed(Option<i32>),
    /// A snapshot does not hold what its header declares.
    ParseError,
    /// The snapshot did not fit in the largest buffer that is tried.
    SnapshotTooLarge,
}

/// The counts of one process's open descriptors.
#[derive(Clone, Copy, Debug, PartialEq, Eq, Structural)]
pub struct ProcStats {
    pub pid: i32,
    pub file_descriptors: usize,
    pub socket_descriptors: usize,
}

impl ProcStats {
    /// A record for `pid` with both counters at zero.
    pub fn new(pid: i32) -> (r: ProcStats)
        ensures
            r.pid == pid,
            r.file_descriptors == 0,
            r.socket_descriptors == 0,
    {
        ProcStats { pid, file_descriptors: 0, socket_descriptors: 0 }
    }
}

/// What an open descriptor refers to, as far as the counters care.
#[derive(Clone, Copy, Debug, PartialEq, Eq, Structural)]
pub enum FdKind {
    /// A regular file or another path-backed object.
    File,
    /// A network socket or an inter-process channel endpoint.
    Socket,
    /// Anything else: a pipe, an event, a timer, a memory section.
    Other,
}

/// A descriptor type as the BSD process-information interface reports it.
#[derive(Clone, Copy, Debug, PartialEq, Eq, Structural)]
pub enum BsdFdType {
    ATalk,
    /// A vnode: a file, a directory or a device.
    VNode,
    Socket,
    SharedMemory,
    Semaphore,
    KQueue,
    Pipe,
    FsEvents,
    NetPolicy,
    Unknown,
}

pub open spec fn bsd_kind_spec(t: BsdFdType) -> FdKind {
    match t {
        BsdFdType::VNode => FdKind::File,
        BsdFdType::Socket => FdKind::Socket,
        _ => FdKind::Other,
    }
}

/// Vnodes count as files and sockets as sockets; nothing else is counted.
pub fn bsd_kind(t: BsdFdType) -> (r: FdKind)
    ensures
        r == bsd_kind_spec(t),
{
    match t {
        BsdFdType::VNode => FdKind::File,
        BsdFdType::Socket => FdKind::Socket,
        _ => FdKind::Other,
    }
}

/// How many entries of `kinds` equal `k`.
pub open spec fn count_kind(kinds: Seq<FdKind>, k: FdKind) -> nat
    decreases kinds.len(),
{
    if kinds.len() == 0 {
        0
    } else {
        count_kind(kinds.drop_last(), k) + if kinds.last() == k { 1nat } else { 0nat }
    }
}

pub proof fn lemma_count_kind_bounded(kinds: Seq<FdKind>, k: FdKind)
    ensures
        count_kind(kinds, k) <= kinds.len(),
    decreases kinds.len(),
{
    if kinds.len() > 0 {
        lemma_count_kind_bounded(kinds.drop_last(), k);
    }
}

/// Opening descriptors adds exactly their own files and sockets to the counts:
/// for descriptors `before` and newly opened ones `opened`, each count over
/// both is the count over `before` plus the count over `opened`.
pub proof fn lemma_counts_add_up(before: Seq<FdKind>, opened: Seq<FdKind>, k: FdKind)
    ensures
        count_kind(before + opened, k) == count_kind(before, k) + count_kind(opened, k),
    decreases opened.len(),
{
    if opened.len() > 0 {
        lemma_counts_add_up(before, opened.drop_last(), k);
        assert((before + opened).drop_last() =~= before + opened.drop_last());
    }
}

/// Descriptors that are neither files nor sockets (pipes, timers, events)
/// change neither counter.
pub proof fn lemma_other_kinds_not_counted(before: Seq<FdKind>, opened: Seq<FdKind>)
    requires
        forall|i: int| 0 <= i < opened.len() ==> opened[i] == FdKind::Other,
    ensures
        count_kind(before + opened, FdKind::File) == count_kind(before, FdKind::File),
        count_kind(before + opened, FdKind::Socket) == count_kind(before, FdKind::Socket),
    decreases opened.len(),
{
    if opened.len() > 0 {
        let rest = opened.drop_last();
        lemma_other_kinds_not_counted(before, rest);
        assert((before + opened).drop_last() =~= before + rest);
    }
}

/// Counts the file and socket entries of `kinds` for process `pid`.
pub fn tally(pid: i32, kinds: &Vec<FdKind>) -> (r: ProcStats)
    ensures
        r.pid == pid,
        r.file_descriptors == count_kind(kinds@, FdKind::File),
        r.socket_descriptors == count_kind(kinds@, FdKind::Socket),
{
    let mut stats = ProcStats::new(pid);
    let mut i: usize = 0;
    while i < kinds.len()
        invariant
            i <= kinds.len(),
            stats.pid == pid,
            stats.file_descriptors == count_kind(kinds@.take(i as int), FdKind::File),
            stats.socket_descriptors == count_kind(kinds@.take(i as int), FdKind::Socket),
        decreases kinds.len() - i,
    {
        proof {
            let next = kinds@.take(i + 1);
            assert(next.drop_last() =~= kinds@.take(i as int));
            lemma_count_kind_bounded(kinds@.take(i as int), FdKind::File);
            lemma_count_kind_bounded(kinds@.take(i as int), FdKind::Socket);
        }
        match kinds[i] {
            FdKind::File => stats.file_descriptors = stats.file_descriptors + 1,
            FdKind::Socket => stats.socket_descriptors = stats.socket_descriptors + 1,
            FdKind::Other => {},
        }
        i = i + 1;
    }
    assert(kinds@.take(kinds.len() as int) =~= kinds@);
    stats
}

} // verus!
