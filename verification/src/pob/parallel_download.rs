//! Planning a download: one stream, or byte ranges fetched side by side.
//!
//! Nothing here touches the network or the disk. The functions decide what
//! is to be fetched and written, and what is to be reported; the caller
//! performs the transfers and hands back what happened.

use vstd::prelude::*;
use vstd::arithmetic::div_mod::{lemma_fundamental_div_mod, lemma_mod_bound};

use crate::pob::error::PobError;
use crate::pob::google_drive::FileDownloadInfo;
use crate::pob::progress::{
    progress_report, started_status, throttle_after, InstallStatus, ProgressThrottle,
};

verus! {

/// How a file is fetched.
#[derive(Debug, Clone, Copy, PartialEq, Eq, Structural)]
pub enum DownloadMode {
    /// Ranges side by side where the host allows it and the file is large.
    Auto,
    /// Ranges side by side wherever the host allows it.
    Parallel,
    /// Always one stream.
    Single,
}

impl Default for DownloadMode {
    /// `Auto`.
    fn default() -> (m: Self)
        ensures
            m == DownloadMode::Auto,
    {
        DownloadMode::Auto
    }
}

/// The policy of one download.
#[derive(Debug, Clone, Copy)]
pub struct ParallelDownloadConfig {
    /// How many ranges are in flight at once.
    pub concurrency: usize,
    /// The smallest file, in bytes, that `Auto` fetches in ranges.
    pub min_parallel_size: u64,
    /// The size of a range in bytes.
    pub chunk_size: u64,
    pub mode: DownloadMode,
}

impl Default for ParallelDownloadConfig {
    /// Four ranges of 128 MiB at once, for files of 50 MiB and more.
    fn default() -> (c: Self)
        ensures
            c.concurrency == 4,
            c.min_parallel_size == 50 * 1024 * 1024,
            c.chunk_size == 128 * 1024 * 1024,
            c.mode == DownloadMode::Auto,
    {
        ParallelDownloadConfig {
            concurrency: 4,
            min_parallel_size: 50 * 1024 * 1024,
            chunk_size: 128 * 1024 * 1024,
            mode: DownloadMode::Auto,
        }
    }
}

/// One byte range of a file: the bytes from `start` to `end`, both included.
#[derive(Debug, Clone, Copy, PartialEq, Eq, Structural)]
pub struct Chunk {
    pub index: usize,
    pub start: u64,
    pub end: u64,
}

impl Chunk {
    /// The number of bytes in the range.
    pub open spec fn len(self) -> int {
        self.end - self.start + 1
    }

    /// Whether byte `offset` of the file lies in the range.
    pub open spec fn holds(self, offset: int) -> bool {
        self.start <= offset <= self.end
    }
}

/// The number of ranges of `chunk_size` bytes that a file of `total` bytes
/// is cut into.
pub open spec fn chunk_count(total: u64, chunk_size: u64) -> int
    recommends
        chunk_size > 0,
{
    (total + chunk_size - 1) / (chunk_size as int)
}

/// The `i`-th range of a file of `total` bytes cut into ranges of
/// `chunk_size` bytes.
pub open spec fn chunk_at(i: int, total: u64, chunk_size: u64) -> Chunk {
    Chunk {
        index: i as usize,
        start: (i * chunk_size) as u64,
        end: (if (i + 1) * chunk_size < total {
            (i + 1) * chunk_size - 1
        } else {
            total - 1
        }) as u64,
    }
}

/// The ranges of a file of `total` bytes, in order.
pub open spec fn chunk_plan(total: u64, chunk_size: u64) -> Seq<Chunk>
    recommends
        chunk_size > 0,
{
    Seq::new(chunk_count(total, chunk_size) as nat, |i: int| chunk_at(i, total, chunk_size))
}

/// The `i`-th range begins inside the file exactly when `i` is below the
/// number of ranges.
pub proof fn lemma_chunk_count_bounds(i: int, total: u64, chunk_size: u64)
    requires
        chunk_size > 0,
        0 <= i,
    ensures
        0 <= chunk_count(total, chunk_size) <= total,
        i < chunk_count(total, chunk_size) <==> i * chunk_size < total,
{
    let cs = chunk_size as int;
    let x = total + cs - 1;
    let q = x / cs;
    lemma_fundamental_div_mod(x, cs);
    lemma_mod_bound(x, cs);
    assert(0 <= q) by (nonlinear_arith)
        requires
            x == cs * q + x % cs,
            0 <= x % cs < cs,
            x >= 0,
            cs > 0,
    ;
    assert(q <= total) by (nonlinear_arith)
        requires
            x == cs * q + x % cs,
            0 <= x % cs < cs,
            x == total + cs - 1,
            cs > 0,
            q >= 0,
    ;
    if i < q {
        assert(i * cs < total) by (nonlinear_arith)
            requires
                x == cs * q + x % cs,
                0 <= x % cs < cs,
                x == total + cs - 1,
                0 <= i < q,
                cs > 0,
        ;
    } else {
        assert(i * cs >= total) by (nonlinear_arith)
            requires
                x == cs * q + x % cs,
                0 <= x % cs < cs,
                x == total + cs - 1,
                i >= q,
                cs > 0,
        ;
    }
}

/// The ranges of a plan are a partition of the file: the first begins at
/// byte 0, each begins where the one before it ended, the last ends at the
/// last byte, none is empty, and all but the last hold `chunk_size` bytes,
/// the last what is left. So every byte of the file lies in exactly one
/// range.
pub proof fn lemma_chunk_plan_partitions(total: u64, chunk_size: u64)
    requires
        chunk_size > 0,
    ensures
        chunk_plan(total, chunk_size).len() == 0 <==> total == 0,
        total > 0 ==> chunk_plan(total, chunk_size).first().start == 0,
        total > 0 ==> chunk_plan(total, chunk_size).last().end == total - 1,
        forall|i: int|
            0 <= i < chunk_plan(total, chunk_size).len() ==> {
                let c = #[trigger] chunk_plan(total, chunk_size)[i];
                &&& c.start == i * chunk_size
                &&& c.start <= c.end < total
                &&& 1 <= c.len() <= chunk_size
                &&& i + 1 < chunk_plan(total, chunk_size).len() ==> c.len() == chunk_size
            },
        forall|i: int|
            0 <= i && i + 1 < chunk_plan(total, chunk_size).len() ==> (#[trigger] chunk_plan(
                total,
                chunk_size,
            )[i + 1]).start == chunk_plan(total, chunk_size)[i].end + 1,
        forall|i: int, j: int, offset: int|
            0 <= i < chunk_plan(total, chunk_size).len() && 0 <= j < chunk_plan(
                total,
                chunk_size,
            ).len() && #[trigger] chunk_plan(total, chunk_size)[i].holds(offset)
                && #[trigger] chunk_plan(total, chunk_size)[j].holds(offset) ==> i == j,
        forall|offset: int|
            0 <= offset < total ==> {
                &&& 0 <= #[trigger] (offset / (chunk_size as int)) < chunk_plan(total, chunk_size).len()
                &&& chunk_plan(total, chunk_size)[offset / (chunk_size as int)].holds(offset)
            },
{
    let cs = chunk_size as int;
    let plan = chunk_plan(total, chunk_size);
    let n = chunk_count(total, chunk_size);
    lemma_chunk_count_bounds(0, total, chunk_size);
    assert forall|i: int| 0 <= i < n implies {
        let c = #[trigger] plan[i];
        &&& c.start == i * cs
        &&& c.start <= c.end < total
        &&& 1 <= c.len() <= cs
        &&& (i + 1 < n ==> c.len() == cs)
        &&& c.end == (if (i + 1) * cs < total {
            (i + 1) * cs - 1
        } else {
            total - 1
        })
    } by {
        lemma_chunk_count_bounds(i, total, chunk_size);
        lemma_chunk_count_bounds(i + 1, total, chunk_size);
        assert((i + 1) * cs == i * cs + cs) by (nonlinear_arith);
        assert(0 <= i * cs) by (nonlinear_arith)
            requires
                0 <= i,
                0 < cs,
        ;
    }
    if total > 0 {
        lemma_chunk_count_bounds(n, total, chunk_size);
    }
    assert forall|i: int| 0 <= i && i + 1 < n implies (#[trigger] plan[i + 1]).start == plan[i].end
        + 1 by {
        lemma_chunk_count_bounds(i + 1, total, chunk_size);
    }
    assert forall|i: int, j: int, offset: int|
        0 <= i < n && 0 <= j < n && #[trigger] plan[i].holds(offset) && #[trigger] plan[j].holds(
            offset,
        ) implies i == j by {
        assert((i + 1) * cs == i * cs + cs) by (nonlinear_arith);
        assert((j + 1) * cs == j * cs + cs) by (nonlinear_arith);
        if i < j {
            assert((i + 1) * cs <= j * cs) by (nonlinear_arith)
                requires
                    i + 1 <= j,
                    cs > 0,
            ;
        }
        if j < i {
            assert((j + 1) * cs <= i * cs) by (nonlinear_arith)
                requires
                    j + 1 <= i,
                    cs > 0,
            ;
        }
    }
    assert forall|offset: int| 0 <= offset < total implies {
        &&& 0 <= #[trigger] (offset / cs) < n
        &&& plan[offset / cs].holds(offset)
    } by {
        let k = offset / cs;
        lemma_fundamental_div_mod(offset, cs);
        lemma_mod_bound(offset, cs);
        assert(0 <= k) by (nonlinear_arith)
            requires
                offset == cs * k + offset % cs,
                0 <= offset % cs < cs,
                offset >= 0,
                cs > 0,
        ;
        assert(k * cs <= offset) by (nonlinear_arith)
            requires
                offset == cs * k + offset % cs,
                0 <= offset % cs,
        ;
        assert((k + 1) * cs > offset) by (nonlinear_arith)
            requires
                offset == cs * k + offset % cs,
                offset % cs < cs,
        ;
        lemma_chunk_count_bounds(k, total, chunk_size);
    }
}

/// Writing `data` into `file` from byte `offset` on, over what was there.
pub open spec fn write_at(file: Seq<u8>, offset: int, data: Seq<u8>) -> Seq<u8>
    recommends
        0 <= offset,
        offset + data.len() <= file.len(),
{
    Seq::new(
        file.len(),
        |k: int|
            if offset <= k < offset + data.len() {
                data[k - offset]
            } else {
                file[k]
            },
    )
}

/// The file after the ranges `order[0]`, `order[1]`, ... of `plan` have been
/// written into `file`, each with the bytes that `content` has there.
pub open spec fn assembled(
    file: Seq<u8>,
    content: Seq<u8>,
    plan: Seq<Chunk>,
    order: Seq<int>,
) -> Seq<u8>
    decreases order.len(),
{
    if order.len() == 0 {
        file
    } else {
        let c = plan[order.last()];
        write_at(
            assembled(file, content, plan, order.drop_last()),
            c.start as int,
            content.subrange(c.start as int, c.end + 1),
        )
    }
}

/// The order in which ranges complete does not matter. Let a destination
/// file have the size of the remote content, whatever bytes it holds. Once
/// every range of the plan has been written to it at its offset, in any
/// order and however often, the file equals the content byte for byte: what
/// one stream from the first byte to the last would have written.
pub proof fn lemma_ranges_assemble_in_any_order(
    file: Seq<u8>,
    content: Seq<u8>,
    chunk_size: u64,
    order: Seq<int>,
)
    requires
        chunk_size > 0,
        content.len() <= u64::MAX,
        file.len() == content.len(),
        forall|k: int|
            0 <= k < order.len() ==> 0 <= #[trigger] order[k] < chunk_plan(
                content.len() as u64,
                chunk_size,
            ).len(),
        forall|i: int|
            0 <= i < chunk_plan(content.len() as u64, chunk_size).len() ==> order.contains(i),
    ensures
        assembled(file, content, chunk_plan(content.len() as u64, chunk_size), order) == content,
{
    let total = content.len() as u64;
    let plan = chunk_plan(total, chunk_size);
    let done = assembled(file, content, plan, order);
    lemma_assembled_prefix(file, content, chunk_size, order);
    lemma_chunk_plan_partitions(total, chunk_size);
    assert forall|b: int| 0 <= b < content.len() implies done[b] == content[b] by {
        let i = b / (chunk_size as int);
        assert(order.contains(i));
        let k = choose|k: int| 0 <= k < order.len() && order[k] == i;
        assert(plan[order[k]].holds(b));
    }
}

/// After the ranges of `order` have been written, the file has kept its
/// size and agrees with the content on every byte of those ranges.
proof fn lemma_assembled_prefix(
    file: Seq<u8>,
    content: Seq<u8>,
    chunk_size: u64,
    order: Seq<int>,
)
    requires
        chunk_size > 0,
        content.len() <= u64::MAX,
        file.len() == content.len(),
        forall|k: int|
            0 <= k < order.len() ==> 0 <= #[trigger] order[k] < chunk_plan(
                content.len() as u64,
                chunk_size,
            ).len(),
    ensures
        assembled(file, content, chunk_plan(content.len() as u64, chunk_size), order).len()
            == content.len(),
        forall|k: int, b: int|
            0 <= k < order.len() && #[trigger] chunk_plan(content.len() as u64, chunk_size)[order[k]].holds(
                b,
            ) ==> assembled(file, content, chunk_plan(content.len() as u64, chunk_size), order)[b]
                == content[b],
    decreases order.len(),
{
    let total = content.len() as u64;
    let plan = chunk_plan(total, chunk_size);
    if order.len() > 0 {
        let before = order.drop_last();
        lemma_assembled_prefix(file, content, chunk_size, before);
        lemma_chunk_plan_partitions(total, chunk_size);
        let c = plan[order.last()];
        let done = assembled(file, content, plan, order);
        assert forall|k: int, b: int|
            0 <= k < order.len() && #[trigger] plan[order[k]].holds(b) implies done[b]
            == content[b] by {
            if !c.holds(b) {
                assert(before[k] == order[k]);
            }
        }
    }
}

/// The way a file is fetched once its size and the host's abilities are known.
#[derive(Debug)]
pub enum DownloadPlan {
    /// One sequential stream of `total_size` bytes.
    SingleStream { total_size: u64 },
    /// The given ranges, side by side.
    Parallel { total_size: u64, chunks: Vec<Chunk> },
}

/// Whether a file is fetched in ranges: never in mode `Single`, else only
/// where the host honours ranges, and in mode `Auto` only a file of at least
/// `min_parallel_size` bytes.
pub open spec fn fetches_in_ranges(config: ParallelDownloadConfig, info: FileDownloadInfo) -> bool {
    match config.mode {
        DownloadMode::Single => false,
        DownloadMode::Parallel => info.accepts_ranges,
        DownloadMode::Auto => info.accepts_ranges && info.content_length
            >= config.min_parallel_size,
    }
}

/// Decides how files are fetched under one policy.
#[derive(Debug, Clone, Copy)]
pub struct ParallelDownloader {
    pub config: ParallelDownloadConfig,
}

impl ParallelDownloader {
    /// The downloader that follows the policy `config`.
    pub fn new(config: ParallelDownloadConfig) -> (d: Self)
        ensures
            d.config == config,
    {
        ParallelDownloader { config }
    }

    /// Whether the host has to be asked if it honours ranges. Mode `Single`
    /// needs the size alone.
    pub fn needs_range_probe(&self) -> (b: bool)
        ensures
            b == (self.config.mode != DownloadMode::Single),
    {
        match self.config.mode {
            DownloadMode::Single => false,
            _ => true,
        }
    }

    /// Whether the file that `info` describes is fetched in ranges.
    pub fn takes_ranges(&self, info: &FileDownloadInfo) -> (b: bool)
        ensures
            b == fetches_in_ranges(self.config, *info),
    {
        match self.config.mode {
            DownloadMode::Single => false,
            DownloadMode::Parallel => info.accepts_ranges,
            DownloadMode::Auto => info.accepts_ranges && info.content_length
                >= self.config.min_parallel_size,
        }
    }

    /// Chooses between one stream and ranges side by side for the file that
    /// `info` describes.
    pub fn download(&self, info: &FileDownloadInfo) -> (plan: DownloadPlan)
        requires
            fetches_in_ranges(self.config, *info) ==> self.config.chunk_size > 0,
        ensures
            match plan {
                DownloadPlan::SingleStream { total_size } => {
                    &&& !fetches_in_ranges(self.config, *info)
                    &&& total_size == info.content_length
                },
                DownloadPlan::Parallel { total_size, chunks } => {
                    &&& fetches_in_ranges(self.config, *info)
                    &&& total_size == info.content_length
                    &&& chunks@ == chunk_plan(info.content_length, self.config.chunk_size)
                },
            },
    {
        if self.takes_ranges(info) {
            DownloadPlan::Parallel {
                total_size: info.content_length,
                chunks: self.create_chunks(info.content_length),
            }
        } else {
            DownloadPlan::SingleStream { total_size: info.content_length }
        }
    }

    /// Cuts a file of `total_size` bytes into ranges of `chunk_size` bytes,
    /// the last one shorter where the size is no multiple of it.
    pub fn create_chunks(&self, total_size: u64) -> (chunks: Vec<Chunk>)
        requires
            self.config.chunk_size > 0,
        ensures
            chunks@ == chunk_plan(total_size, self.config.chunk_size),
            chunks@.len() == chunk_count(total_size, self.config.chunk_size),
            chunks@.len() == 0 <==> total_size == 0,
            total_size > 0 ==> chunks@[0].start == 0 && chunks@[chunks@.len() - 1].end
                == total_size - 1,
            forall|i: int|
                0 <= i < chunks@.len() ==> {
                    let c = #[trigger] chunks@[i];
                    &&& c.index == i
                    &&& c.start == i * self.config.chunk_size
                    &&& c.start <= c.end < total_size
                    &&& 1 <= c.len() <= self.config.chunk_size
                    &&& i + 1 < chunks@.len() ==> c.len() == self.config.chunk_size
                },
            forall|i: int|
                0 <= i && i + 1 < chunks@.len() ==> (#[trigger] chunks@[i + 1]).start
                    == chunks@[i].end + 1,
    {
        let chunk_size = self.config.chunk_size;
        let ghost plan = chunk_plan(total_size, chunk_size);
        let mut chunks: Vec<Chunk> = Vec::new();
        let mut start: u64 = 0;
        let mut index: usize = 0;
        proof {
            lemma_chunk_count_bounds(0, total_size, chunk_size);
        }
        while start < total_size
            invariant
                chunk_size > 0,
                chunk_size == self.config.chunk_size,
                plan == chunk_plan(total_size, chunk_size),
                index == chunks@.len(),
                index <= plan.len(),
                index < plan.len() ==> start == index * chunk_size,
                index == plan.len() ==> start == total_size,
                chunks@ == plan.subrange(0, index as int),
            decreases plan.len() - index,
        {
            proof {
                lemma_chunk_count_bounds(index as int, total_size, chunk_size);
                lemma_chunk_count_bounds(index + 1, total_size, chunk_size);
                assert((index + 1) * chunk_size == index * chunk_size + chunk_size)
                    by (nonlinear_arith);
            }
            let end: u64 = if chunk_size - 1 >= total_size - 1 - start {
                total_size - 1
            } else {
                start + (chunk_size - 1)
            };
            chunks.push(Chunk { index, start, end });
            start = end + 1;
            // A vector never holds more than `usize` can count.
            index = chunks.len();
        }
        proof {
            lemma_chunk_count_bounds(index as int, total_size, chunk_size);
            lemma_chunk_plan_partitions(total_size, chunk_size);
        }
        chunks
    }
}

/// Counts the bytes that the ranges of one download have received, and
/// reports the count no more often than the throttle allows.
#[derive(Debug, Clone, Copy)]
pub struct ProgressTracker {
    pub total_size: u64,
    pub downloaded: u64,
    pub throttle: ProgressThrottle,
}

impl ProgressTracker {
    /// A tracker for a download of `total_size` bytes that begins at `now`.
    pub fn new(total_size: u64, now: u64) -> (t: Self)
        ensures
            t.total_size == total_size,
            t.downloaded == 0,
            t.throttle.last_emit == Some(now),
    {
        ProgressTracker { total_size, downloaded: 0, throttle: ProgressThrottle::starting_at(now) }
    }

    /// Adds `bytes` to the count, which never goes down and stops at the
    /// largest number it can hold. Returns the report that is due at `now`,
    /// if one is.
    pub fn add_progress(&mut self, bytes: u64, now: u64) -> (report: Option<InstallStatus>)
        ensures
            final(self).total_size == old(self).total_size,
            final(self).downloaded >= old(self).downloaded,
            final(self).downloaded == if old(self).downloaded + bytes > u64::MAX {
                u64::MAX
            } else {
                (old(self).downloaded + bytes) as u64
            },
            report == progress_report(
                old(self).throttle.last_emit,
                final(self).downloaded,
                old(self).total_size,
                now,
            ),
            final(self).throttle.last_emit == throttle_after(
                old(self).throttle.last_emit,
                InstallStatus::InProgress {
                    done: final(self).downloaded,
                    total: old(self).total_size,
                },
                now,
            ),
    {
        self.downloaded = if bytes > u64::MAX - self.downloaded {
            u64::MAX
        } else {
            self.downloaded + bytes
        };
        let status = InstallStatus::InProgress { done: self.downloaded, total: self.total_size };
        if self.throttle.offer(&status, now) {
            Some(status)
        } else {
            None
        }
    }
}

/// What ends a download: the last report, whether the destination file is
/// to be deleted, and what the caller is told.
#[derive(Debug)]
pub struct DownloadOutcome {
    pub report: InstallStatus,
    pub remove_destination: bool,
    pub result: Result<(), PobError>,
}

/// The outcome of a download whose first failure, if any, was `first_error`.
/// Without a failure the download is complete and its file stays. With one
/// the file is deleted and the failure is handed on; a cancellation is
/// reported as such, anything else as a failure with its text.
pub open spec fn is_outcome_of(outcome: DownloadOutcome, first_error: Option<PobError>) -> bool {
    match first_error {
        None => outcome.report is Completed && !outcome.remove_destination && outcome.result
            is Ok,
        Some(e) => {
            &&& outcome.remove_destination
            &&& outcome.result == Err::<(), PobError>(e)
            &&& if e is Cancelled {
                outcome.report is Cancelled
            } else {
                (outcome.report matches InstallStatus::Failed { reason } && reason@ == e.message())
            }
        },
    }
}

/// The outcome of a download whose first failure, if any, was `first_error`.
pub fn conclude(first_error: Option<PobError>) -> (outcome: DownloadOutcome)
    ensures
        is_outcome_of(outcome, first_error),
{
    match first_error {
        None => DownloadOutcome {
            report: InstallStatus::Completed,
            remove_destination: false,
            result: Ok(()),
        },
        Some(e) => {
            let report = match &e {
                PobError::Cancelled => InstallStatus::Cancelled,
                _ => InstallStatus::Failed { reason: e.to_string() },
            };
            DownloadOutcome { report, remove_destination: true, result: Err(e) }
        },
    }
}

/// A download in ranges: which ranges are under way, and what went wrong
/// first.
///
/// The caller asks for ranges with [`ParallelDownload::next_chunk`] until
/// none is handed out, fetches them side by side, tells of each that ends
/// with [`ParallelDownload::chunk_finished`], and asks again. When all are
/// dealt with, [`ParallelDownload::outcome`] says how the download ended.
#[derive(Debug)]
pub struct ParallelDownload {
    /// The ranges of the file, in order.
    pub chunks: Vec<Chunk>,
    /// How many ranges may be under way at once.
    pub concurrency: usize,
    /// How many ranges have been handed out or given up.
    pub started: usize,
    /// How many ranges are under way.
    pub in_flight: usize,
    /// The first failure, in the order in which the ranges ended.
    pub first_error: Option<PobError>,
    /// Whether the ranges still under way have been told to stop.
    pub cancel_raised: bool,
}

impl ParallelDownload {
    /// Never more ranges are under way than the policy allows.
    pub open spec fn wf(self) -> bool {
        &&& self.concurrency > 0
        &&& self.started <= self.chunks@.len()
        &&& self.in_flight <= self.started
        &&& self.in_flight <= self.concurrency
        &&& self.first_error is Some ==> self.cancel_raised
    }

    /// Whether every range has been dealt with.
    pub open spec fn settled(self) -> bool {
        self.started == self.chunks@.len() && self.in_flight == 0
    }

    /// Begins the download of a file of `total_size` bytes in the ranges
    /// `chunks`, at most `concurrency` of them at once. The status is to be
    /// reported once the destination file has been created and sized.
    pub fn begin(total_size: u64, chunks: Vec<Chunk>, concurrency: usize) -> (r: (
        Self,
        InstallStatus,
    ))
        requires
            concurrency > 0,
        ensures
            r.0.wf(),
            r.0.chunks == chunks,
            r.0.concurrency == concurrency,
            r.0.started == 0,
            r.0.in_flight == 0,
            r.0.first_error is None,
            !r.0.cancel_raised,
            r.1 == started_status(total_size),
    {
        (
            ParallelDownload {
                chunks,
                concurrency,
                started: 0,
                in_flight: 0,
                first_error: None,
                cancel_raised: false,
            },
            InstallStatus::started(total_size),
        )
    }

    /// Hands out the next range to fetch, if one may start now.
    ///
    /// `cancelled` says whether the cancellation signal is up. Once it is,
    /// or once a range has failed, no further range starts: those not yet
    /// handed out end as cancelled, which is the first failure if there was
    /// none before. Otherwise the next range of the plan is handed out,
    /// unless as many are under way as the policy allows.
    pub fn next_chunk(&mut self, cancelled: bool) -> (next: Option<Chunk>)
        requires
            old(self).wf(),
        ensures
            final(self).wf(),
            final(self).chunks == old(self).chunks,
            final(self).concurrency == old(self).concurrency,
            cancelled || old(self).cancel_raised ==> {
                &&& next is None
                &&& final(self).started == old(self).chunks@.len()
                &&& final(self).in_flight == old(self).in_flight
                &&& final(self).cancel_raised
                &&& final(self).first_error == if old(self).first_error is None && old(self).started < old(self).chunks@.len() {
                    Some(PobError::Cancelled)
                } else {
                    old(self).first_error
                }
            },
            !cancelled && !old(self).cancel_raised ==> {
                &&& final(self).first_error == old(self).first_error
                &&& !final(self).cancel_raised
                &&& if old(self).started < old(self).chunks@.len() && old(self).in_flight < old(self).concurrency {
                    &&& next == Some(old(self).chunks@[old(self).started as int])
                    &&& final(self).started == old(self).started + 1
                    &&& final(self).in_flight == old(self).in_flight + 1
                } else {
                    &&& next is None
                    &&& final(self).started == old(self).started
                    &&& final(self).in_flight == old(self).in_flight
                }
            },
    {
        if cancelled || self.cancel_raised {
            if self.first_error.is_none() && self.started < self.chunks.len() {
                self.first_error = Some(PobError::Cancelled);
            }
            self.started = self.chunks.len();
            self.cancel_raised = true;
            None
        } else if self.started < self.chunks.len() && self.in_flight < self.concurrency {
            let chunk = self.chunks[self.started];
            self.started = self.started + 1;
            self.in_flight = self.in_flight + 1;
            Some(chunk)
        } else {
            None
        }
    }

    /// Takes note that a range under way has ended with `result`. A failure
    /// is kept if it is the first, and the answer says whether the ranges
    /// still under way are to be told to stop: after every failure.
    pub fn chunk_finished(&mut self, result: Result<(), PobError>) -> (cancel_siblings: bool)
        requires
            old(self).wf(),
            old(self).in_flight > 0,
        ensures
            final(self).wf(),
            final(self).chunks == old(self).chunks,
            final(self).concurrency == old(self).concurrency,
            final(self).started == old(self).started,
            final(self).in_flight == old(self).in_flight - 1,
            cancel_siblings == result is Err,
            final(self).cancel_raised == (old(self).cancel_raised || result is Err),
            final(self).first_error == if old(self).first_error is Some {
                old(self).first_error
            } else {
                match result {
                    Ok(_) => None,
                    Err(e) => Some(e),
                }
            },
    {
        self.in_flight = self.in_flight - 1;
        match result {
            Ok(_) => false,
            Err(e) => {
                if self.first_error.is_none() {
                    self.first_error = Some(e);
                }
                self.cancel_raised = true;
                true
            },
        }
    }

    /// Whether every range has been dealt with.
    pub fn is_settled(&self) -> (b: bool)
        ensures
            b == self.settled(),
    {
        self.started == self.chunks.len() && self.in_flight == 0
    }

    /// How the download ended, once every range has been dealt with: it is
    /// complete only if none of them failed.
    pub fn outcome(&self) -> (outcome: Option<DownloadOutcome>)
        ensures
            outcome is Some <==> self.settled(),
            outcome matches Some(o) ==> is_outcome_of(o, self.first_error),
    {
        if self.is_settled() {
            Some(conclude(self.first_error.clone()))
        } else {
            None
        }
    }
}

/// What is to be written to the destination file for one range.
#[derive(Debug)]
pub struct ChunkWrite {
    /// The byte of the file at which the data begins.
    pub offset: u64,
    pub data: Vec<u8>,
}

/// The transfer of one range: its bytes are collected as they arrive and
/// written in one piece at the end.
#[derive(Debug)]
pub struct ChunkTransfer {
    pub chunk: Chunk,
    pub buffer: Vec<u8>,
}

/// Whether a range may be requested: not once the cancellation signal is up.
pub fn download_chunk(chunk: Chunk, cancelled: bool) -> (r: Result<ChunkTransfer, PobError>)
    ensures
        cancelled ==> r == Err::<ChunkTransfer, PobError>(PobError::Cancelled),
        !cancelled ==> (r matches Ok(t) && t.chunk == chunk && t.buffer@.len() == 0),
{
    if cancelled {
        Err(PobError::Cancelled)
    } else {
        Ok(ChunkTransfer { chunk, buffer: Vec::new() })
    }
}

impl ChunkTransfer {
    /// Takes the next piece of the response. With the cancellation signal
    /// up the transfer ends as cancelled, whatever arrived. A transport
    /// failure, given by its text, ends it as a failed download. Otherwise
    /// the bytes are kept, and their number is handed back to be added to
    /// the progress of the download.
    pub fn received(&mut self, cancelled: bool, piece: Result<Vec<u8>, String>) -> (r: Result<
        u64,
        PobError,
    >)
        ensures
            final(self).chunk == old(self).chunk,
            cancelled ==> r == Err::<u64, PobError>(PobError::Cancelled) && final(self).buffer@
                == old(self).buffer@,
            !cancelled ==> match piece {
                Ok(bytes) => r == Ok::<u64, PobError>(bytes@.len() as u64) && final(self).buffer@
                    == old(self).buffer@ + bytes@,
                Err(text) => r == Err::<u64, PobError>(PobError::DownloadFailed(text)) && final(self).buffer@ == old(self).buffer@,
            },
    {
        if cancelled {
            return Err(PobError::Cancelled);
        }
        match piece {
            Ok(bytes) => {
                let mut bytes = bytes;
                let n = bytes.len();
                self.buffer.append(&mut bytes);
                Ok(n as u64)
            },
            Err(text) => Err(PobError::DownloadFailed(text)),
        }
    }

    /// The one write that ends the transfer: everything that arrived, at
    /// the offset where the range begins.
    pub fn finish(self) -> (w: ChunkWrite)
        ensures
            w.offset == self.chunk.start,
            w.data@ == self.buffer@,
    {
        ChunkWrite { offset: self.chunk.start, data: self.buffer }
    }
}

/// What happened to a single-stream transfer since the last step.
#[derive(Debug)]
pub enum StreamEvent {
    /// The cancellation signal is up.
    Cancelled,
    /// That many bytes arrived and were written to the destination.
    Written(u64),
    /// Bytes arrived and could not be written; the text says why.
    WriteFailed(String),
    /// The transport failed; the text says why.
    StreamFailed(String),
    /// The stream ended and the destination was flushed.
    Finished,
    /// The stream ended and the destination could not be flushed.
    FlushFailed(String),
}

/// What a single-stream transfer does next.
#[derive(Debug)]
pub enum StreamStep {
    /// Go on reading, after the report if there is one.
    Continue { report: Option<InstallStatus> },
    /// Stop. The report, if there is one, comes first; then the destination
    /// is deleted if `remove_destination` says so.
    Done { report: Option<InstallStatus>, remove_destination: bool, result: Result<(), PobError> },
}

/// How a single-stream transfer begins.
#[derive(Debug)]
pub struct StreamStart {
    /// The size to give the destination file in advance, if it is known. A
    /// failure to do so is no failure of the download.
    pub preallocate: Option<u64>,
    /// To be reported once the destination file exists.
    pub report: InstallStatus,
}

/// One sequential transfer of a whole file.
#[derive(Debug, Clone, Copy)]
pub struct SingleStream {
    pub total_size: u64,
    pub downloaded: u64,
    pub throttle: ProgressThrottle,
}

impl SingleStream {
    /// Begins, at time `now`, the transfer of a file of `total_size` bytes;
    /// 0 stands for an unknown size.
    pub fn begin(total_size: u64, now: u64) -> (r: (Self, StreamStart))
        ensures
            r.0.total_size == total_size,
            r.0.downloaded == 0,
            r.0.throttle.last_emit == Some(now),
            r.1.preallocate == if total_size > 0 {
                Some(total_size)
            } else {
                None
            },
            r.1.report == started_status(total_size),
    {
        (
            SingleStream { total_size, downloaded: 0, throttle: ProgressThrottle::starting_at(now) },
            StreamStart {
                preallocate: if total_size > 0 {
                    Some(total_size)
                } else {
                    None
                },
                report: InstallStatus::started(total_size),
            },
        )
    }

    /// Decides what follows `event`, which happened at time `now`.
    ///
    /// - Cancelled: reported as such, the partial file is deleted.
    /// - Bytes written: counted, and reported if a report is due.
    /// - A transport failure: reported with its text; the file is left to
    ///   the caller.
    /// - The end of the stream: reported as completed.
    /// - A failure to write or to flush ends the transfer with that error
    ///   and without a report.
    pub fn on_event(&mut self, event: StreamEvent, now: u64) -> (step: StreamStep)
        ensures
            final(self).total_size == old(self).total_size,
            final(self).downloaded >= old(self).downloaded,
            is_stream_step(*old(self), event, now, *final(self), step),
    {
        match event {
            StreamEvent::Cancelled => StreamStep::Done {
                report: Some(InstallStatus::Cancelled),
                remove_destination: true,
                result: Err(PobError::Cancelled),
            },
            StreamEvent::Written(n) => {
                self.downloaded = if n > u64::MAX - self.downloaded {
                    u64::MAX
                } else {
                    self.downloaded + n
                };
                let status = InstallStatus::InProgress {
                    done: self.downloaded,
                    total: self.total_size,
                };
                if self.throttle.offer(&status, now) {
                    StreamStep::Continue { report: Some(status) }
                } else {
                    StreamStep::Continue { report: None }
                }
            },
            StreamEvent::WriteFailed(text) => StreamStep::Done {
                report: None,
                remove_destination: false,
                result: Err(PobError::Io(text)),
            },
            StreamEvent::StreamFailed(text) => StreamStep::Done {
                report: Some(InstallStatus::Failed { reason: text.clone() }),
                remove_destination: false,
                result: Err(PobError::DownloadFailed(text)),
            },
            StreamEvent::Finished => StreamStep::Done {
                report: Some(InstallStatus::Completed),
                remove_destination: false,
                result: Ok(()),
            },
            StreamEvent::FlushFailed(text) => StreamStep::Done {
                report: None,
                remove_destination: false,
                result: Err(PobError::Io(text)),
            },
        }
    }
}

/// What [`SingleStream::on_event`] decides: the step that follows `event`
/// at time `now` in state `before`, and the state `after` it.
pub open spec fn is_stream_step(
    before: SingleStream,
    event: StreamEvent,
    now: u64,
    after: SingleStream,
    step: StreamStep,
) -> bool {
    match event {
        StreamEvent::Cancelled => after == before && step == (StreamStep::Done {
            report: Some(InstallStatus::Cancelled),
            remove_destination: true,
            result: Err(PobError::Cancelled),
        }),
        StreamEvent::Written(n) => {
            &&& after.total_size == before.total_size
            &&& after.downloaded == if before.downloaded + n > u64::MAX {
                u64::MAX
            } else {
                (before.downloaded + n) as u64
            }
            &&& after.throttle.last_emit == throttle_after(
                before.throttle.last_emit,
                InstallStatus::InProgress { done: after.downloaded, total: before.total_size },
                now,
            )
            &&& step == (StreamStep::Continue {
                report: progress_report(
                    before.throttle.last_emit,
                    after.downloaded,
                    before.total_size,
                    now,
                ),
            })
        },
        StreamEvent::WriteFailed(text) => after == before && step == (StreamStep::Done {
            report: None,
            remove_destination: false,
            result: Err(PobError::Io(text)),
        }),
        StreamEvent::StreamFailed(text) => after == before && step == (StreamStep::Done {
            report: Some(InstallStatus::Failed { reason: text }),
            remove_destination: false,
            result: Err(PobError::DownloadFailed(text)),
        }),
        StreamEvent::Finished => after == before && step == (StreamStep::Done {
            report: Some(InstallStatus::Completed),
            remove_destination: false,
            result: Ok(()),
        }),
        StreamEvent::FlushFailed(text) => after == before && step == (StreamStep::Done {
            report: None,
            remove_destination: false,
            result: Err(PobError::Io(text)),
        }),
    }
}

} // verus!
