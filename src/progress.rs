//! Download progress: the counters read by the user interface and the
//! clamped update applied after every streamed chunk.

use vstd::prelude::*;

verus! {

/// Bytes downloaded so far (`.0`) and bytes expected in total (`.1`).
///
/// A total of 0 means "no active download" (the tool was already cached).
/// The value made at start-up is `(0, 1)`, so that no early read divides
/// by zero.
pub struct DownloadStatus(pub u64, pub u64);

impl DownloadStatus {
    /// The counters as they stand before any fetch: `(0, 1)`.
    pub fn new() -> (r: DownloadStatus)
        ensures
            r.0 == 0,
            r.1 == 1,
    {
        DownloadStatus(0, 1)
    }

    /// Overwrites the downloaded byte count.
    pub fn set_progress(&mut self, progress: u64)
        ensures
            final(self).0 == progress,
            final(self).1 == old(self).1,
    {
        self.0 = progress;
    }

    /// Overwrites the total byte count.
    pub fn set_total(&mut self, total: u64)
        ensures
            final(self).0 == old(self).0,
            final(self).1 == total,
    {
        self.1 = total;
    }

    /// Both counters, read together.
    pub fn snapshot(&self) -> (r: (u64, u64))
        ensures
            r == (self.0, self.1),
    {
        (self.0, self.1)
    }

    /// Whether a fetch is under way: a total is known and not yet reached.
    pub fn is_active(&self) -> (r: bool)
        ensures
            r == (self.1 != 0 && self.0 != self.1),
    {
        self.1 != 0 && self.0 != self.1
    }

    /// How far the fetch has come, in whole percent (rounded down), or
    /// `None` while no download is active (total 0).
    pub fn percent(&self) -> (r: Option<u64>)
        ensures
            self.1 == 0 ==> r is None,
            self.1 != 0 ==> r == Some(percent_of(self.0 as int, self.1 as int) as u64),
            r matches Some(p) ==> p <= 100,
    {
        if self.1 == 0 {
            None
        } else {
            let done: u64 = if self.0 < self.1 { self.0 } else { self.1 };
            let p: u128 = (done as u128) * 100 / (self.1 as u128);
            proof {
                assert(done as int * 100 / self.1 as int <= 100) by (nonlinear_arith)
                    requires done <= self.1, self.1 > 0;
            }
            Some(p as u64)
        }
    }
}

/// `done` over `total` in whole percent, rounded down, with `done` capped at
/// `total`.
pub open spec fn percent_of(done: int, total: int) -> int
    recommends
        total > 0,
{
    (if done < total { done } else { total }) * 100 / total
}

/// The downloaded count after a chunk of `len` bytes: the running sum,
/// clamped to the advertised total.
pub open spec fn next_progress(downloaded: int, len: int, total: int) -> int {
    if downloaded + len < total { downloaded + len } else { total }
}

/// The counts reported after each chunk of `lens`, starting from
/// `downloaded`.
pub open spec fn progress_trace(downloaded: int, total: int, lens: Seq<int>) -> Seq<int>
    decreases lens.len(),
{
    if lens.len() == 0 {
        Seq::empty()
    } else {
        let next = next_progress(downloaded, lens[0], total);
        seq![next].add(progress_trace(next, total, lens.drop_first()))
    }
}

/// The state of one streamed fetch: what has been counted and what the
/// server announced.
pub struct StreamProgress {
    downloaded: u64,
    total: u64,
}

impl StreamProgress {
    pub closed spec fn downloaded(&self) -> nat {
        self.downloaded as nat
    }

    pub closed spec fn total(&self) -> nat {
        self.total as nat
    }

    /// A fetch whose server announced `total` bytes, nothing counted yet.
    pub fn start(total: u64) -> (r: StreamProgress)
        ensures
            r.downloaded() == 0,
            r.total() == total,
    {
        StreamProgress { downloaded: 0, total }
    }

    /// Bytes counted so far.
    pub fn downloaded_bytes(&self) -> (r: u64)
        ensures
            r == self.downloaded(),
    {
        self.downloaded
    }

    /// Bytes announced.
    pub fn total_bytes(&self) -> (r: u64)
        ensures
            r == self.total(),
    {
        self.total
    }

    /// Counts a chunk of `len` bytes, clamped to the total, and reports the
    /// new count to `status`.
    pub fn record_chunk(&mut self, len: usize, status: &mut DownloadStatus)
        ensures
            final(self).downloaded() == next_progress(
                old(self).downloaded() as int,
                len as int,
                old(self).total() as int,
            ),
            final(self).total() == old(self).total(),
            final(status).0 == final(self).downloaded(),
            final(status).1 == old(status).1,
    {
        let sum: u64 = self.downloaded.saturating_add(len as u64);
        let next: u64 = if sum < self.total { sum } else { self.total };
        self.downloaded = next;
        status.set_progress(next);
    }
}

/// Whatever the chunk sizes, the reported count never decreases from one
/// chunk to the next and never exceeds the announced total.
pub proof fn lemma_progress_monotone_and_bounded(downloaded: int, total: int, lens: Seq<int>)
    requires
        0 <= downloaded <= total,
        forall|i: int| 0 <= i < lens.len() ==> lens[i] >= 0,
    ensures
        progress_trace(downloaded, total, lens).len() == lens.len(),
        forall|i: int|
            0 <= i < lens.len() ==> downloaded <= #[trigger] progress_trace(downloaded, total, lens)[i]
                <= total,
        forall|i: int, j: int|
            0 <= i <= j < lens.len() ==> progress_trace(downloaded, total, lens)[i]
                <= progress_trace(downloaded, total, lens)[j],
    decreases lens.len(),
{
    if lens.len() > 0 {
        let next = next_progress(downloaded, lens[0], total);
        let rest = lens.drop_first();
        lemma_progress_monotone_and_bounded(next, total, rest);
        let t = progress_trace(downloaded, total, lens);
        let tr = progress_trace(next, total, rest);
        assert(t == seq![next].add(tr));
        assert forall|i: int| 0 <= i < lens.len() implies downloaded <= #[trigger] t[i] <= total by {
            if i > 0 {
                assert(t[i] == tr[i - 1]);
            }
        }
        assert forall|i: int, j: int| 0 <= i <= j < lens.len() implies t[i] <= t[j] by {
            if i > 0 {
                assert(t[i] == tr[i - 1]);
                assert(t[j] == tr[j - 1]);
            } else if j > 0 {
                assert(t[j] == tr[j - 1]);
            }
        }
    }
}

} // verus!
