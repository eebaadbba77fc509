//! Splitting a run into files and each file into batches.
//!
//! A run of `T` rows is cut into files of the estimated rows-per-file, the last
//! one holding whatever is left; each file is cut the same way into batches of
//! at most the batch cap. [`FileSplitWriter`] hands out one file at a time, so
//! the caller opens, fills and closes it before asking for the next.

use vstd::prelude::*;

verus! {

/// Consecutive pieces of `chunk` that add up to `total`, the last one possibly smaller.
pub open spec fn chunk_sizes(total: nat, chunk: nat) -> Seq<nat>
    decreases total,
{
    if total == 0 || chunk == 0 {
        Seq::empty()
    } else if total <= chunk {
        seq![total]
    } else {
        seq![chunk] + chunk_sizes((total - chunk) as nat, chunk)
    }
}

/// Sum of a sequence of counts.
pub open spec fn total_of(s: Seq<nat>) -> nat
    decreases s.len(),
{
    if s.len() == 0 {
        0
    } else {
        s[0] + total_of(s.drop_first())
    }
}

/// A vector of counts as a sequence of naturals.
pub open spec fn as_nats(v: Seq<usize>) -> Seq<nat> {
    v.map_values(|x: usize| x as nat)
}

/// Seed of file `index` of a run with base seed `base`: their sum, wrapping at 2^64.
pub open spec fn file_seed(base: u64, index: nat) -> u64 {
    ((base + index) % 0x1_0000_0000_0000_0000) as u64
}

/// Splitting `total` rows into pieces of at most `chunk` loses and invents no
/// row: the pieces add up to `total`, each holds between one and `chunk` rows,
/// every piece but the last holds exactly `chunk`, and there are no more pieces
/// than rows.
pub proof fn lemma_chunk_sizes(total: nat, chunk: nat)
    requires
        chunk >= 1,
    ensures
        total_of(chunk_sizes(total, chunk)) == total,
        chunk_sizes(total, chunk).len() <= total,
        total > 0 ==> chunk_sizes(total, chunk).len() >= 1,
        forall|i: int|
            0 <= i < chunk_sizes(total, chunk).len() ==> 1 <= #[trigger] chunk_sizes(
                total,
                chunk,
            )[i] <= chunk,
        forall|i: int|
            0 <= i < chunk_sizes(total, chunk).len() - 1 ==> #[trigger] chunk_sizes(
                total,
                chunk,
            )[i] == chunk,
    decreases total,
{
    let s = chunk_sizes(total, chunk);
    if total == 0 {
    } else if total <= chunk {
        assert(s.drop_first() =~= Seq::<nat>::empty());
        assert(total_of(s.drop_first()) == 0);
    } else {
        let rest = chunk_sizes((total - chunk) as nat, chunk);
        lemma_chunk_sizes((total - chunk) as nat, chunk);
        assert(s.drop_first() =~= rest);
        assert forall|i: int| 0 < i < s.len() implies s[i] == rest[i - 1] by {}
    }
}

/// Peeling the first piece off a split leaves the split of what remains.
proof fn lemma_chunk_sizes_step(total: nat, chunk: nat)
    requires
        chunk >= 1,
        total >= 1,
    ensures
        chunk_sizes(total, chunk).len() >= 1,
        chunk_sizes(total, chunk)[0] == if total <= chunk { total } else { chunk },
        chunk_sizes(total, chunk).drop_first() =~= chunk_sizes(
            (total - (if total <= chunk { total } else { chunk })) as nat,
            chunk,
        ),
{
    if total <= chunk {
        assert(chunk_sizes(0, chunk) =~= Seq::<nat>::empty());
    }
}

/// Splits `total` into pieces of at most `chunk`, in order.
pub fn split_rows(total: usize, chunk: usize) -> (r: Vec<usize>)
    requires
        chunk >= 1,
    ensures
        as_nats(r@) == chunk_sizes(total as nat, chunk as nat),
{
    let mut out: Vec<usize> = Vec::new();
    let mut left: usize = total;
    while left > 0
        invariant
            chunk >= 1,
            as_nats(out@) + chunk_sizes(left as nat, chunk as nat) == chunk_sizes(
                total as nat,
                chunk as nat,
            ),
        decreases left,
    {
        let n: usize = if left <= chunk {
            left
        } else {
            chunk
        };
        proof {
            lemma_chunk_sizes_step(left as nat, chunk as nat);
            let s = chunk_sizes(left as nat, chunk as nat);
            assert(s =~= seq![n as nat] + s.drop_first());
            assert(as_nats(out@.push(n)) =~= as_nats(out@).push(n as nat));
            assert(as_nats(out@).push(n as nat) + s.drop_first() =~= as_nats(out@) + s);
        }
        out.push(n);
        left = left - n;
    }
    assert(chunk_sizes(0, chunk as nat) =~= Seq::<nat>::empty());
    assert(as_nats(out@) + Seq::<nat>::empty() =~= as_nats(out@));
    out
}

/// A finished run has written exactly the files of its plan and exactly the
/// target number of rows, and every file it wrote held between one and
/// `rows_per_file` rows, all but the last exactly `rows_per_file`.
pub proof fn lemma_run_complete(w: FileSplitWriter)
    requires
        w.wf(),
        w.is_done(),
    ensures
        w.files_written == w.file_plan().len(),
        w.total_rows_written == w.total_rows_target,
        total_of(w.file_plan()) == w.total_rows_written,
        forall|i: int|
            0 <= i < w.files_written ==> 1 <= #[trigger] w.file_plan()[i] <= w.rows_per_file,
        forall|i: int|
            0 <= i < w.files_written - 1 ==> #[trigger] w.file_plan()[i] == w.rows_per_file,
{
    lemma_chunk_sizes(w.total_rows_target as nat, w.rows_per_file as nat);
    assert(w.file_plan().skip(w.files_written as int).len() == 0);
}

/// One file to write: its position in the run, the seed its rows come from,
/// its row count and the sizes of the batches that make it up.
#[derive(Debug, Clone, PartialEq, Eq)]
pub struct FileJob {
    pub index: usize,
    pub seed: u64,
    pub rows: usize,
    pub batches: Vec<usize>,
}

/// Progress of a run (idle, or writing one file) and the rule for the next file.
///
/// `remaining` counts the rows not yet given to a file; `files_written` and
/// `total_rows_written` count the files closed so far and the rows in them.
/// While a file is open, `open_rows` is its row count.
#[derive(Debug, Clone, Copy, PartialEq, Eq, Structural)]
pub struct FileSplitWriter {
    pub total_rows_target: usize,
    pub rows_per_file: usize,
    pub batch_size_cap: usize,
    pub base_seed: u64,
    pub remaining: usize,
    pub files_written: usize,
    pub total_rows_written: usize,
    pub file_open: bool,
    pub open_rows: usize,
}

impl FileSplitWriter {
    /// Row counts of all the files of the run, in order.
    pub open spec fn file_plan(self) -> Seq<nat> {
        chunk_sizes(self.total_rows_target as nat, self.rows_per_file as nat)
    }

    /// Files handed out so far: the closed ones and the open one, if any.
    pub open spec fn files_opened(self) -> nat {
        (self.files_written + if self.file_open { 1nat } else { 0nat }) as nat
    }

    /// The files handed out are the first ones of the plan, the open one is
    /// the next entry after the closed ones, the rest of the plan is the split
    /// of the remaining rows, and written, open and remaining rows make the
    /// target.
    pub open spec fn wf(self) -> bool {
        &&& self.rows_per_file >= 1
        &&& self.batch_size_cap >= 1
        &&& self.files_opened() <= self.file_plan().len()
        &&& self.file_plan().skip(self.files_opened() as int) == chunk_sizes(
            self.remaining as nat,
            self.rows_per_file as nat,
        )
        &&& self.file_open ==> self.open_rows as nat == self.file_plan()[self.files_written as int]
        &&& !self.file_open ==> self.open_rows == 0
        &&& self.total_rows_written + self.open_rows + self.remaining == self.total_rows_target
    }

    /// Every row has gone into a file and the last file is closed.
    pub open spec fn is_done(self) -> bool {
        self.remaining == 0 && !self.file_open
    }

    /// Starts a run of `total_rows_target` rows, nothing written yet.
    pub fn new(total_rows_target: usize, rows_per_file: usize, batch_size_cap: usize, base_seed: u64) -> (r: Self)
        requires
            rows_per_file >= 1,
            batch_size_cap >= 1,
        ensures
            r.wf(),
            r.total_rows_target == total_rows_target,
            r.rows_per_file == rows_per_file,
            r.batch_size_cap == batch_size_cap,
            r.base_seed == base_seed,
            r.remaining == total_rows_target,
            r.files_written == 0,
            r.total_rows_written == 0,
            !r.file_open,
    {
        let r = FileSplitWriter {
            total_rows_target,
            rows_per_file,
            batch_size_cap,
            base_seed,
            remaining: total_rows_target,
            files_written: 0,
            total_rows_written: 0,
            file_open: false,
            open_rows: 0,
        };
        assert(r.file_plan().skip(0) =~= r.file_plan());
        r
    }

    /// Opens the next file of the run, or gives `None` once every row has
    /// been given to a file. The file takes `min(rows_per_file, remaining)`
    /// rows, is the next entry of the plan, is seeded with the base seed plus
    /// its index, and is cut into batches of at most the batch cap.
    pub fn next_file(&mut self) -> (r: Option<FileJob>)
        requires
            old(self).wf(),
            !old(self).file_open,
        ensures
            final(self).wf(),
            final(self).total_rows_target == old(self).total_rows_target,
            final(self).rows_per_file == old(self).rows_per_file,
            final(self).batch_size_cap == old(self).batch_size_cap,
            final(self).base_seed == old(self).base_seed,
            final(self).files_written == old(self).files_written,
            final(self).total_rows_written == old(self).total_rows_written,
            r is None <==> old(self).remaining == 0,
            r is None ==> *final(self) == *old(self),
            r matches Some(job) ==> {
                &&& job.index == old(self).files_written
                &&& job.seed == file_seed(old(self).base_seed, job.index as nat)
                &&& job.rows as nat == old(self).file_plan()[job.index as int]
                &&& job.rows == if old(self).remaining <= old(self).rows_per_file {
                    old(self).remaining
                } else {
                    old(self).rows_per_file
                }
                &&& as_nats(job.batches@) == chunk_sizes(job.rows as nat, old(self).batch_size_cap as nat)
                &&& final(self).remaining == old(self).remaining - job.rows
                &&& final(self).file_open
                &&& final(self).open_rows == job.rows
            },
    {
        if self.remaining == 0 {
            return None;
        }
        let rows: usize = if self.remaining <= self.rows_per_file {
            self.remaining
        } else {
            self.rows_per_file
        };
        let index: usize = self.files_written;
        proof {
            let plan = self.file_plan();
            lemma_chunk_sizes_step(self.remaining as nat, self.rows_per_file as nat);
            assert(plan.skip(index as int)[0] == plan[index as int]);
            assert(plan.skip(index as int + 1) =~= plan.skip(index as int).drop_first());
        }
        let seed: u64 = self.base_seed.wrapping_add(index as u64);
        let batches = split_rows(rows, self.batch_size_cap);
        self.remaining = self.remaining - rows;
        self.file_open = true;
        self.open_rows = rows;
        Some(FileJob { index, seed, rows, batches })
    }

    /// Records that the open file has been closed; returns its row count, for
    /// progress reporting.
    pub fn close_file(&mut self) -> (r: usize)
        requires
            old(self).wf(),
            old(self).file_open,
        ensures
            final(self).wf(),
            r == old(self).open_rows,
            r as nat == old(self).file_plan()[old(self).files_written as int],
            !final(self).file_open,
            final(self).files_written == old(self).files_written + 1,
            final(self).total_rows_written == old(self).total_rows_written + r,
            final(self).remaining == old(self).remaining,
            final(self).total_rows_target == old(self).total_rows_target,
            final(self).rows_per_file == old(self).rows_per_file,
            final(self).batch_size_cap == old(self).batch_size_cap,
            final(self).base_seed == old(self).base_seed,
    {
        let rows = self.open_rows;
        proof {
            lemma_chunk_sizes(self.total_rows_target as nat, self.rows_per_file as nat);
        }
        self.files_written = self.files_written + 1;
        self.total_rows_written = self.total_rows_written + rows;
        self.file_open = false;
        self.open_rows = 0;
        rows
    }
}

} // verus!
