//! The system-wide kernel handle table: sizing the buffer that receives it, and
//! counting one process's handles in it.
//!
//! The table is a little-endian header whose first four bytes declare a record
//! count, followed by that many fixed-size records from offset `HEADER_LEN`.
//! A record starts with the owner's process id in two bytes and holds the
//! object's type index at offset `TYPE_OFFSET`; the rest is not read.
use crate::stats::{count_kind, tally, FdError, FdKind, ProcStats};
use vstd::prelude::*;

verus! {

/// Bytes before the first record: the count, padded to the records' alignment.
pub const HEADER_LEN: usize = 8;

/// Bytes in one record.
pub const RECORD_LEN: usize = 24;

/// Offset of the object type index inside a record.
pub const TYPE_OFFSET: usize = 4;

/// Largest process id that a record's owner field can hold.
pub const MAX_OWNER: i32 = 65535;

/// Type index of a file object. It depends on the operating-system build.
pub const FILE_OBJECT_TYPE: u8 = 37;

/// Type index of a socket endpoint. It depends on the operating-system build.
pub const SOCKET_OBJECT_TYPE: u8 = 46;

/// The query filled the buffer.
pub const STATUS_SUCCESS: i32 = 0;

/// The buffer was too small for the table.
pub const STATUS_INFO_LENGTH_MISMATCH: i32 = -1073741820;

/// The buffer grows by this many bytes after each query that found it too small.
pub const BUFFER_STEP: usize = 262144;

/// The most queries that are made for one table.
pub const MAX_QUERIES: usize = 64;

/// The little-endian 32-bit integer at `at`.
pub open spec fn u32_le(b: Seq<u8>, at: int) -> int {
    b[at] + 256 * b[at + 1] + 65536 * b[at + 2] + 16777216 * b[at + 3]
}

/// The record count that the header declares.
pub open spec fn declared_count(b: Seq<u8>) -> int {
    u32_le(b, 0)
}

pub open spec fn record_start(i: int) -> int {
    HEADER_LEN + RECORD_LEN * i
}

/// The process id that owns record `i`.
pub open spec fn record_owner(b: Seq<u8>, i: int) -> int {
    b[record_start(i)] + 256 * b[record_start(i) + 1]
}

/// What record `i` refers to.
pub open spec fn record_kind(b: Seq<u8>, i: int) -> FdKind {
    let t = b[record_start(i) + TYPE_OFFSET];
    if t == FILE_OBJECT_TYPE {
        FdKind::File
    } else if t == SOCKET_OBJECT_TYPE {
        FdKind::Socket
    } else {
        FdKind::Other
    }
}

/// The header is there and the records it declares lie inside `b`.
pub open spec fn records_fit(b: Seq<u8>) -> bool {
    &&& b.len() >= HEADER_LEN
    &&& record_start(declared_count(b)) <= b.len()
}

/// The kinds of the records among the first `n` that `owner` holds, in order.
pub open spec fn owned_kinds(b: Seq<u8>, n: nat, owner: int) -> Seq<FdKind>
    decreases n,
{
    if n == 0 {
        Seq::empty()
    } else {
        let prev = owned_kinds(b, (n - 1) as nat, owner);
        if record_owner(b, n - 1) == owner {
            prev.push(record_kind(b, n - 1))
        } else {
            prev
        }
    }
}

/// The handles of `pid` among all records that the table declares.
pub open spec fn table_kinds(b: Seq<u8>, pid: i32) -> Seq<FdKind> {
    owned_kinds(b, declared_count(b) as nat, pid as int)
}

/// What counting `pid`'s handles in the table `b` gives.
pub open spec fn snapshot_result(b: Seq<u8>, pid: i32) -> Result<ProcStats, FdError> {
    if pid <= 0 {
        Err(FdError::ProcessNotFound)
    } else if pid > MAX_OWNER {
        Err(FdError::UnsupportedPlatform)
    } else if !records_fit(b) {
        Err(FdError::ParseError)
    } else if table_kinds(b, pid).len() == 0 {
        Err(FdError::ProcessNotFound)
    } else {
        Ok(
            ProcStats {
                pid,
                file_descriptors: count_kind(table_kinds(b, pid), FdKind::File) as usize,
                socket_descriptors: count_kind(table_kinds(b, pid), FdKind::Socket) as usize,
            },
        )
    }
}

/// Two readings of the table in which the process's own handles are the same,
/// in the same order, give the same result, whatever the other processes did
/// between them.
pub proof fn lemma_unchanged_handles_same_counts(first: Seq<u8>, second: Seq<u8>, pid: i32)
    requires
        records_fit(first),
        records_fit(second),
        table_kinds(first, pid) == table_kinds(second, pid),
    ensures
        snapshot_result(first, pid) == snapshot_result(second, pid),
{
}

proof fn lemma_owned_kinds_bounded(b: Seq<u8>, n: nat, owner: int)
    ensures
        owned_kinds(b, n, owner).len() <= n,
    decreases n,
{
    if n > 0 {
        lemma_owned_kinds_bounded(b, (n - 1) as nat, owner);
    }
}

/// Reads the little-endian 32-bit integer at `at`.
fn read_u32_le(buf: &[u8], at: usize) -> (r: u32)
    requires
        at + 4 <= buf@.len(),
    ensures
        r == u32_le(buf@, at as int),
{
    let b0 = buf[at] as u32;
    let b1 = buf[at + 1] as u32;
    let b2 = buf[at + 2] as u32;
    let b3 = buf[at + 3] as u32;
    b0 + 256 * b1 + 65536 * b2 + 16777216 * b3
}

/// Counts the file and socket handles that process `pid` holds in the handle
/// table `buf`.
///
/// A pid that is not positive, or that owns no record, is not found; one that
/// does not fit the owner field is refused rather than truncated; a header
/// that declares more records than `buf` holds is a parse error.
pub fn count_in_snapshot(buf: &[u8], pid: i32) -> (r: Result<ProcStats, FdError>)
    ensures
        r == snapshot_result(buf@, pid),
{
    if pid <= 0 {
        return Err(FdError::ProcessNotFound);
    }
    if pid > MAX_OWNER {
        return Err(FdError::UnsupportedPlatform);
    }
    if buf.len() < HEADER_LEN {
        return Err(FdError::ParseError);
    }
    let count = read_u32_le(buf, 0);
    if (count as u64) * (RECORD_LEN as u64) + (HEADER_LEN as u64) > buf.len() as u64 {
        return Err(FdError::ParseError);
    }
    let n = count as usize;
    let mut kinds: Vec<FdKind> = Vec::new();
    let mut i: usize = 0;
    let mut off: usize = HEADER_LEN;
    while i < n
        invariant
            records_fit(buf@),
            n == declared_count(buf@),
            0 < pid <= MAX_OWNER,
            i <= n,
            off == record_start(i as int),
            kinds@ == owned_kinds(buf@, i as nat, pid as int),
        decreases n - i,
    {
        let owner = buf[off] as i32 + 256 * (buf[off + 1] as i32);
        if owner == pid {
            let t = buf[off + TYPE_OFFSET];
            let kind = if t == FILE_OBJECT_TYPE {
                FdKind::File
            } else if t == SOCKET_OBJECT_TYPE {
                FdKind::Socket
            } else {
                FdKind::Other
            };
            kinds.push(kind);
        }
        i = i + 1;
        off = off + RECORD_LEN;
    }
    if kinds.len() == 0 {
        return Err(FdError::ProcessNotFound);
    }
    let stats = tally(pid, &kinds);
    proof {
        lemma_owned_kinds_bounded(buf@, n as nat, pid as int);
    }
    Ok(stats)
}

/// What to do after a query for the handle table has answered.
#[derive(Clone, Copy, Debug, PartialEq, Eq, Structural)]
pub enum QueryStep {
    /// Query again, into a buffer one step larger.
    Retry,
    /// The buffer holds the table: count in it.
    Complete,
    /// Give up with this error.
    Failed(FdError),
}

/// The step that follows the answer `status` to query number `queries`.
pub open spec fn next_step(queries: nat, status: i32) -> QueryStep {
    if status == STATUS_SUCCESS {
        QueryStep::Complete
    } else if status == STATUS_INFO_LENGTH_MISMATCH {
        if queries < MAX_QUERIES {
            QueryStep::Retry
        } else {
            QueryStep::Failed(FdError::SnapshotTooLarge)
        }
    } else {
        QueryStep::Failed(FdError::OsQueryFailed(Some(status)))
    }
}

/// Decides, query by query, how large the buffer for the handle table is and
/// when to stop asking.
#[derive(Debug)]
pub struct SnapshotSizer {
    queries: usize,
}

impl SnapshotSizer {
    #[verifier::type_invariant]
    spec fn within_bound(self) -> bool {
        1 <= self.queries <= MAX_QUERIES
    }

    /// The number of the query that is under way, from 1.
    pub closed spec fn spec_queries(self) -> nat {
        self.queries as nat
    }

    /// Starts with the first query.
    pub fn new() -> (r: SnapshotSizer)
        ensures
            r.spec_queries() == 1,
    {
        SnapshotSizer { queries: 1 }
    }

    /// The number of the query that is under way, from 1.
    pub fn queries(&self) -> (r: usize)
        ensures
            r == self.spec_queries(),
            1 <= r <= MAX_QUERIES,
    {
        proof {
            use_type_invariant(self);
        }
        self.queries
    }

    /// The buffer length for the query that is under way.
    pub fn buffer_len(&self) -> (r: usize)
        ensures
            r == self.spec_queries() * BUFFER_STEP,
    {
        proof {
            use_type_invariant(self);
        }
        self.queries * BUFFER_STEP
    }

    /// Takes the status of the query that is under way and says what follows.
    /// On `Retry` the next query is counted.
    pub fn on_status(&mut self, status: i32) -> (r: QueryStep)
        ensures
            r == next_step(old(self).spec_queries(), status),
            final(self).spec_queries() == if r is Retry {
                old(self).spec_queries() + 1
            } else {
                old(self).spec_queries()
            },
    {
        proof {
            use_type_invariant(&*self);
        }
        if status == STATUS_SUCCESS {
            QueryStep::Complete
        } else if status == STATUS_INFO_LENGTH_MISMATCH {
            if self.queries < MAX_QUERIES {
                self.queries = self.queries + 1;
                QueryStep::Retry
            } else {
                QueryStep::Failed(FdError::SnapshotTooLarge)
            }
        } else {
            QueryStep::Failed(FdError::OsQueryFailed(Some(status)))
        }
    }
}

/// Runs the sizer from query number `queries` against the answers `statuses`,
/// one per query in order. Gives the number of the last query made and the step
/// that ended the run, or `None` if the answers ran out first.
pub open spec fn run_queries(queries: nat, statuses: Seq<i32>) -> (nat, Option<QueryStep>)
    decreases statuses.len(),
{
    if statuses.len() == 0 {
        (queries, None)
    } else {
        let step = next_step(queries, statuses[0]);
        if step is Retry {
            run_queries(queries + 1, statuses.drop_first())
        } else {
            (queries, Some(step))
        }
    }
}

proof fn lemma_run_from(queries: nat, statuses: Seq<i32>)
    requires
        1 <= queries <= MAX_QUERIES,
        statuses.len() + queries > MAX_QUERIES,
    ensures
        run_queries(queries, statuses).1 is Some,
        !(run_queries(queries, statuses).1 matches Some(QueryStep::Retry)),
        queries <= run_queries(queries, statuses).0 <= MAX_QUERIES,
        run_queries(queries, statuses).0 - queries < statuses.len(),
        (forall|i: int| 0 <= i < statuses.len() ==> statuses[i] == STATUS_INFO_LENGTH_MISMATCH)
            ==> run_queries(queries, statuses) == (
        MAX_QUERIES as nat,
        Some(QueryStep::Failed(FdError::SnapshotTooLarge)),
        ),
    decreases statuses.len(),
{
    let step = next_step(queries, statuses[0]);
    if step is Retry {
        let rest = statuses.drop_first();
        lemma_run_from(queries + 1, rest);
        if forall|i: int| 0 <= i < statuses.len() ==> statuses[i] == STATUS_INFO_LENGTH_MISMATCH {
            assert forall|i: int| 0 <= i < rest.len() implies rest[i] == STATUS_INFO_LENGTH_MISMATCH by {
                assert(rest[i] == statuses[i + 1]);
            }
        }
    }
}

/// However the operating system answers, the sizer stops within
/// `MAX_QUERIES` queries, with a result or an error and never another retry;
/// and where every answer says that the buffer is too small, it stops at query
/// `MAX_QUERIES` with `SnapshotTooLarge`.
pub proof fn lemma_sizing_is_bounded(statuses: Seq<i32>)
    requires
        statuses.len() >= MAX_QUERIES,
    ensures
        run_queries(1, statuses).1 is Some,
        !(run_queries(1, statuses).1 matches Some(QueryStep::Retry)),
        run_queries(1, statuses).0 <= MAX_QUERIES,
        (forall|i: int| 0 <= i < statuses.len() ==> statuses[i] == STATUS_INFO_LENGTH_MISMATCH)
            ==> run_queries(1, statuses) == (
        MAX_QUERIES as nat,
        Some(QueryStep::Failed(FdError::SnapshotTooLarge)),
        ),
{
    lemma_run_from(1, statuses);
}

} // verus!
