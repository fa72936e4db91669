//! The job dispatcher: a bounded first-in first-out queue of download jobs
//! and the bookkeeping of the single worker that runs them one at a time.
//!
//! The program around the dispatcher runs the tool and suspends callers;
//! the dispatcher decides what is accepted, what runs next (nothing before
//! start-up is ready) and when the completion signal flips.

use vstd::prelude::*;
use crate::bootstrap::{Bootstrap, BootstrapState};
use crate::completion::{CompletionSignal, CompletionWaiter, next_version};

verus! {

/// One user request: download format `format_id` of the resource at `url`,
/// optionally to `file_path`.
#[derive(Debug, Clone)]
pub struct VideoDownloadInfo {
    pub url: String,
    pub file_path: Option<String>,
    pub format_id: String,
}

/// The text `-f`.
pub open spec fn format_flag() -> Seq<char> {
    seq!['-', 'f']
}

/// The text `-o`.
pub open spec fn output_flag() -> Seq<char> {
    seq!['-', 'o']
}

/// The text `--dump-json`.
pub open spec fn dump_json_flag() -> Seq<char> {
    seq!['-', '-', 'd', 'u', 'm', 'p', '-', 'j', 's', 'o', 'n']
}

/// The tool's arguments for a job: `-f <format_id> <url>`, then
/// `-o <path>` when the job names a destination.
pub open spec fn download_args_of(job: VideoDownloadInfo) -> Seq<Seq<char>> {
    let base = seq![format_flag(), job.format_id@, job.url@];
    match job.file_path {
        Some(p) => base + seq![output_flag(), p@],
        None => base,
    }
}

/// The texts that a list of strings holds.
pub open spec fn texts(v: Seq<String>) -> Seq<Seq<char>> {
    v.map_values(|s: String| s@)
}

/// Builds the tool's arguments for a download job.
pub fn download_args(job: &VideoDownloadInfo) -> (r: Vec<String>)
    ensures
        texts(r@) == download_args_of(*job),
{
    let mut args: Vec<String> = Vec::new();
    proof {
        reveal_strlit("-f");
        reveal_strlit("-o");
        assert("-f"@ =~= format_flag());
        assert("-o"@ =~= output_flag());
    }
    args.push("-f".to_owned());
    args.push(job.format_id.clone());
    args.push(job.url.clone());
    match &job.file_path {
        Some(p) => {
            args.push("-o".to_owned());
            args.push(p.clone());
        },
        None => {},
    }
    assert(texts(args@) =~= download_args_of(*job));
    args
}

/// Builds the tool's arguments for a manifest query: `<url> --dump-json`.
pub fn manifest_query_args(url: &str) -> (r: Vec<String>)
    ensures
        texts(r@) == seq![url@, dump_json_flag()],
{
    let mut args: Vec<String> = Vec::new();
    proof {
        reveal_strlit("--dump-json");
        assert("--dump-json"@ =~= dump_json_flag());
    }
    args.push(url.to_owned());
    args.push("--dump-json".to_owned());
    assert(texts(args@) =~= seq![url@, dump_json_flag()]);
    args
}

/// Why a job was not queued. The job is handed back untouched.
#[derive(Debug)]
pub enum SubmitError {
    /// The queue is at capacity: the submitter waits for the worker to take
    /// a job, then submits again.
    Full(VideoDownloadInfo),
    /// The worker has shut down for good.
    Closed(VideoDownloadInfo),
}

/// The queue, the worker's bookkeeping and the completion signal.
pub struct Dispatcher {
    pending: Vec<VideoDownloadInfo>,
    capacity: usize,
    released: bool,
    running: bool,
    closed: bool,
    completion: CompletionSignal,
    accepted: Ghost<Seq<VideoDownloadInfo>>,
    finished: Ghost<nat>,
}

impl Dispatcher {
    /// Jobs waiting, the oldest first.
    pub closed spec fn pending(&self) -> Seq<VideoDownloadInfo> {
        self.pending@
    }

    /// How many jobs may wait at once.
    pub closed spec fn capacity(&self) -> nat {
        self.capacity as nat
    }

    /// Whether start-up has ended in `Ready`, so that jobs may run.
    pub closed spec fn released(&self) -> bool {
        self.released
    }

    /// Whether the worker is running a job.
    pub closed spec fn running(&self) -> bool {
        self.running
    }

    /// Whether the worker has shut down.
    pub closed spec fn closed(&self) -> bool {
        self.closed
    }

    /// The completion signal.
    pub closed spec fn signal(&self) -> CompletionSignal {
        self.completion
    }

    /// Every job ever queued, in the order it was queued.
    pub closed spec fn accepted(&self) -> Seq<VideoDownloadInfo> {
        self.accepted@
    }

    /// How many jobs the worker has taken, running or done.
    pub closed spec fn started(&self) -> nat {
        (self.accepted@.len() - self.pending@.len()) as nat
    }

    /// How many jobs the worker has finished.
    pub closed spec fn finished(&self) -> nat {
        self.finished@
    }

    /// The jobs the worker has taken, in the order it took them.
    pub open spec fn executed(&self) -> Seq<VideoDownloadInfo> {
        self.accepted().take(self.started() as int)
    }

    /// The dispatcher's invariant: the waiting jobs are the queued ones not
    /// yet taken, within capacity; a job is finished before the next is
    /// taken; and no job is taken before the dispatcher is released.
    pub closed spec fn wf(&self) -> bool {
        &&& self.pending@.len() <= self.capacity
        &&& self.pending@.len() <= self.accepted@.len()
        &&& self.pending@ == self.accepted@.skip(self.started() as int)
        &&& self.finished@ + (if self.running { 1nat } else { 0nat }) == self.started()
        &&& self.started() > 0 ==> self.released
    }

    /// An idle dispatcher with room for `capacity` waiting jobs.
    pub fn new(capacity: usize) -> (r: Dispatcher)
        ensures
            r.wf(),
            r.pending() == Seq::<VideoDownloadInfo>::empty(),
            r.accepted() == Seq::<VideoDownloadInfo>::empty(),
            r.capacity() == capacity,
            !r.released(),
            !r.running(),
            !r.closed(),
            r.finished() == 0,
            r.signal().value() == false,
            r.signal().version() == 0,
    {
        let r = Dispatcher {
            pending: Vec::new(),
            capacity,
            released: false,
            running: false,
            closed: false,
            completion: CompletionSignal::new(),
            accepted: Ghost(Seq::empty()),
            finished: Ghost(0),
        };
        assert(r.pending@ =~= r.accepted@.skip(0));
        r
    }

    /// Queues a job behind the ones already waiting. A full queue or a
    /// closed worker hands the job back and leaves everything as it was.
    pub fn submit(&mut self, job: VideoDownloadInfo) -> (r: Result<(), SubmitError>)
        requires
            old(self).wf(),
        ensures
            final(self).wf(),
            old(self).closed() ==> (r matches Err(SubmitError::Closed(j)) && j == job),
            !old(self).closed() && old(self).pending().len() >= old(self).capacity()
                ==> (r matches Err(SubmitError::Full(j)) && j == job),
            r is Err ==> *final(self) == *old(self),
            r is Ok <==> !old(self).closed() && old(self).pending().len() < old(self).capacity(),
            r is Ok ==> {
                &&& final(self).pending() == old(self).pending().push(job)
                &&& final(self).accepted() == old(self).accepted().push(job)
                &&& final(self).released() == old(self).released()
                &&& final(self).running() == old(self).running()
                &&& final(self).finished() == old(self).finished()
                &&& final(self).closed() == old(self).closed()
                &&& final(self).capacity() == old(self).capacity()
                &&& final(self).signal() == old(self).signal()
            },
    {
        if self.closed {
            return Err(SubmitError::Closed(job));
        }
        if self.pending.len() >= self.capacity {
            return Err(SubmitError::Full(job));
        }
        proof {
            let s = self.started() as int;
            assert(self.accepted@.push(job).skip(s) =~= self.accepted@.skip(s).push(job));
        }
        self.pending.push(job);
        self.accepted = Ghost(self.accepted@.push(job));
        Ok(())
    }

    /// The worker asks for its next job. It gets none before start-up has
    /// released the dispatcher, none while it is still running a job, so
    /// jobs never overlap, and none when nothing waits (in each case it
    /// suspends until woken). Otherwise it gets the oldest waiting job and
    /// is marked as running.
    pub fn next_job(&mut self) -> (r: Option<VideoDownloadInfo>)
        requires
            old(self).wf(),
        ensures
            final(self).wf(),
            (!old(self).released() || old(self).running() || old(self).pending().len() == 0) ==> r is None
                && *final(self) == *old(self),
            !(!old(self).released() || old(self).running() || old(self).pending().len() == 0) ==> {
                &&& r == Some(old(self).pending()[0])
                &&& r == Some(old(self).accepted()[old(self).started() as int])
                &&& final(self).pending() == old(self).pending().drop_first()
                &&& final(self).accepted() == old(self).accepted()
                &&& final(self).started() == old(self).started() + 1
                &&& final(self).running()
                &&& final(self).released()
                &&& final(self).finished() == old(self).finished()
                &&& final(self).closed() == old(self).closed()
                &&& final(self).capacity() == old(self).capacity()
                &&& final(self).signal() == old(self).signal()
            },
    {
        if !self.released || self.running || self.pending.len() == 0 {
            return None;
        }
        let job = self.pending.remove(0);
        self.running = true;
        proof {
            let s = old(self).started() as int;
            assert(old(self).pending@[0] == old(self).accepted@[s]);
            assert(self.pending@ =~= old(self).pending@.drop_first());
            assert(self.accepted@.skip(s + 1) =~= old(self).accepted@.skip(s).drop_first());
        }
        Some(job)
    }

    /// The worker's job has exited, successfully or not: the worker is free
    /// again and the completion signal flips. Returns whether a job was
    /// running; if none was, nothing changes.
    pub fn finish_job(&mut self) -> (r: bool)
        requires
            old(self).wf(),
        ensures
            final(self).wf(),
            r == old(self).running(),
            !r ==> *final(self) == *old(self),
            r ==> {
                &&& !final(self).running()
                &&& final(self).finished() == old(self).finished() + 1
                &&& final(self).released() == old(self).released()
                &&& final(self).pending() == old(self).pending()
                &&& final(self).accepted() == old(self).accepted()
                &&& final(self).closed() == old(self).closed()
                &&& final(self).capacity() == old(self).capacity()
                &&& final(self).signal().value() == !old(self).signal().value()
                &&& final(self).signal().version() == next_version(old(self).signal().version())
            },
    {
        if !self.running {
            return false;
        }
        self.running = false;
        self.finished = Ghost(self.finished@ + 1);
        self.completion.notify_completed();
        true
    }

    /// The worker shuts down: later submissions fail.
    pub fn close(&mut self)
        requires
            old(self).wf(),
        ensures
            final(self).wf(),
            final(self).closed(),
            final(self).released() == old(self).released(),
            final(self).pending() == old(self).pending(),
            final(self).accepted() == old(self).accepted(),
            final(self).running() == old(self).running(),
            final(self).finished() == old(self).finished(),
            final(self).capacity() == old(self).capacity(),
            final(self).signal() == old(self).signal(),
    {
        self.closed = true;
    }

    /// Lets jobs run once start-up is ready. A sequencer that is not ready
    /// leaves the dispatcher as it was.
    pub fn release(&mut self, boot: &Bootstrap)
        requires
            old(self).wf(),
        ensures
            final(self).wf(),
            final(self).released() == (old(self).released() || boot.state()
                == BootstrapState::Ready),
            final(self).pending() == old(self).pending(),
            final(self).accepted() == old(self).accepted(),
            final(self).running() == old(self).running(),
            final(self).finished() == old(self).finished(),
            final(self).closed() == old(self).closed(),
            final(self).capacity() == old(self).capacity(),
            final(self).signal() == old(self).signal(),
    {
        if boot.is_ready() {
            self.released = true;
        }
    }

    /// Whether jobs may run.
    pub fn is_released(&self) -> (r: bool)
        ensures
            r == self.released(),
    {
        self.released
    }

    /// Whether the worker is running a job.
    pub fn is_running(&self) -> (r: bool)
        ensures
            r == self.running(),
    {
        self.running
    }

    /// Whether the worker has shut down.
    pub fn is_closed(&self) -> (r: bool)
        ensures
            r == self.closed(),
    {
        self.closed
    }

    /// How many jobs wait.
    pub fn pending_len(&self) -> (r: usize)
        ensures
            r == self.pending().len(),
    {
        self.pending.len()
    }

    /// How many jobs may wait at once.
    pub fn capacity_limit(&self) -> (r: usize)
        ensures
            r == self.capacity(),
    {
        self.capacity
    }

    /// The completion signal.
    pub fn completion(&self) -> (r: &CompletionSignal)
        ensures
            *r == self.signal(),
    {
        &self.completion
    }

    /// A waiter for the next job completion.
    pub fn subscribe(&self) -> (w: CompletionWaiter)
        ensures
            w.seen() == self.signal().version(),
    {
        self.completion.subscribe()
    }
}

/// Jobs run in the order they were queued, one at a time, and only once
/// start-up is ready: the jobs the worker has taken are exactly the oldest
/// queued ones, in queue order, the waiting ones are the rest, every job
/// taken before the current one has finished, and none was taken before
/// the dispatcher was released.
pub proof fn lemma_fifo_and_serial(d: Dispatcher)
    requires
        d.wf(),
    ensures
        d.executed() + d.pending() == d.accepted(),
        d.started() <= d.accepted().len(),
        d.pending().len() <= d.capacity(),
        d.running() ==> d.finished() + 1 == d.started(),
        !d.running() ==> d.finished() == d.started(),
        d.started() > 0 ==> d.released(),
{
    assert(d.executed() + d.pending() =~= d.accepted());
}

} // verus!
