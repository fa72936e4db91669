//! The start-up sequence: fetch the tool if it is not cached, verify its
//! digest, and either become ready or fail for good.
//!
//! The sequencer only decides. The program around it checks the cache,
//! streams the download and reads the file, and hands each outcome back as
//! an event; the sequencer answers with the next thing to do.

use vstd::prelude::*;
use crate::integrity::{check_digest, check_integrity, digest_matches, sha256_of};
use crate::progress::{DownloadStatus, StreamProgress};

verus! {

/// Why start-up failed. Every one of them is fatal.
#[derive(Debug, Clone, Copy, PartialEq, Eq, Structural)]
pub enum BootstrapError {
    /// The transport failed while fetching the tool.
    Network,
    /// The server did not announce the length of the tool.
    LengthUnknown,
    /// Creating, writing or marking the cached file failed.
    Io,
    /// The cached file's digest is not the trusted one.
    IntegrityMismatch,
}

/// Where start-up stands.
#[derive(Debug, Clone, Copy, PartialEq, Eq, Structural)]
pub enum BootstrapState {
    NotStarted,
    Fetching,
    Verifying,
    Ready,
    Failed(BootstrapError),
}

/// What the program around the sequencer observed.
#[derive(Debug, Clone, Copy, PartialEq, Eq, Structural)]
pub enum BootstrapEvent {
    /// The tool is already at its cache path.
    CachePresent,
    /// Nothing is at the cache path.
    CacheAbsent,
    /// The tool was streamed to the cache path and marked executable.
    FetchCompleted,
    /// Fetching failed.
    FetchFailed(BootstrapError),
    /// The cached file could not be read for verification.
    ReadFailed,
    /// The cached file's digest is the trusted one.
    DigestMatched,
    /// The cached file's digest is not the trusted one.
    DigestMismatched,
}

/// What the program around the sequencer is to do next.
#[derive(Debug, Clone, Copy, PartialEq, Eq, Structural)]
pub enum BootstrapAction {
    /// Download the tool to the cache path.
    Fetch,
    /// Hash the cached file and report whether it matches.
    Verify,
    /// The tool is trusted: jobs may run.
    Proceed,
    /// Stop start-up and show the error.
    Abort(BootstrapError),
    /// The event does not apply in this state: nothing to do.
    Ignore,
}

/// The state after `e` in state `s`.
pub open spec fn transition(s: BootstrapState, e: BootstrapEvent) -> BootstrapState {
    match (s, e) {
        (BootstrapState::NotStarted, BootstrapEvent::CachePresent) => BootstrapState::Verifying,
        (BootstrapState::NotStarted, BootstrapEvent::CacheAbsent) => BootstrapState::Fetching,
        (BootstrapState::Fetching, BootstrapEvent::FetchCompleted) => BootstrapState::Verifying,
        (BootstrapState::Fetching, BootstrapEvent::FetchFailed(err)) => BootstrapState::Failed(err),
        (BootstrapState::Verifying, BootstrapEvent::ReadFailed) => BootstrapState::Failed(
            BootstrapError::Io,
        ),
        (BootstrapState::Verifying, BootstrapEvent::DigestMatched) => BootstrapState::Ready,
        (BootstrapState::Verifying, BootstrapEvent::DigestMismatched) => BootstrapState::Failed(
            BootstrapError::IntegrityMismatch,
        ),
        _ => s,
    }
}

/// The action that goes with the move from `s` on `e`.
pub open spec fn action_of(s: BootstrapState, e: BootstrapEvent) -> BootstrapAction {
    match (s, e) {
        (BootstrapState::NotStarted, BootstrapEvent::CachePresent) => BootstrapAction::Verify,
        (BootstrapState::NotStarted, BootstrapEvent::CacheAbsent) => BootstrapAction::Fetch,
        (BootstrapState::Fetching, BootstrapEvent::FetchCompleted) => BootstrapAction::Verify,
        (BootstrapState::Fetching, BootstrapEvent::FetchFailed(err)) => BootstrapAction::Abort(err),
        (BootstrapState::Verifying, BootstrapEvent::ReadFailed) => BootstrapAction::Abort(
            BootstrapError::Io,
        ),
        (BootstrapState::Verifying, BootstrapEvent::DigestMatched) => BootstrapAction::Proceed,
        (BootstrapState::Verifying, BootstrapEvent::DigestMismatched) => BootstrapAction::Abort(
            BootstrapError::IntegrityMismatch,
        ),
        _ => BootstrapAction::Ignore,
    }
}

/// The state reached from `s` through the events `es`, in order.
pub open spec fn run(s: BootstrapState, es: Seq<BootstrapEvent>) -> BootstrapState
    decreases es.len(),
{
    if es.len() == 0 {
        s
    } else {
        run(transition(s, es[0]), es.drop_first())
    }
}

/// The verdict event for a digest check.
pub open spec fn digest_event(matched: bool) -> BootstrapEvent {
    if matched {
        BootstrapEvent::DigestMatched
    } else {
        BootstrapEvent::DigestMismatched
    }
}

/// The start-up sequencer.
#[derive(Debug)]
pub struct Bootstrap {
    state: BootstrapState,
}

impl Bootstrap {
    pub closed spec fn state(&self) -> BootstrapState {
        self.state
    }

    /// A sequencer that has not looked at the cache yet.
    pub fn new() -> (r: Bootstrap)
        ensures
            r.state() == BootstrapState::NotStarted,
    {
        Bootstrap { state: BootstrapState::NotStarted }
    }

    /// Where start-up stands.
    pub fn current(&self) -> (r: BootstrapState)
        ensures
            r == self.state(),
    {
        self.state
    }

    /// Whether the tool is trusted and jobs may run.
    pub fn is_ready(&self) -> (r: bool)
        ensures
            r == (self.state() == BootstrapState::Ready),
    {
        match self.state {
            BootstrapState::Ready => true,
            _ => false,
        }
    }

    /// Takes one observed event and returns what to do next.
    pub fn step(&mut self, e: BootstrapEvent) -> (r: BootstrapAction)
        ensures
            final(self).state() == transition(old(self).state(), e),
            r == action_of(old(self).state(), e),
    {
        let (next, action) = match (self.state, e) {
            (BootstrapState::NotStarted, BootstrapEvent::CachePresent) => (
                BootstrapState::Verifying,
                BootstrapAction::Verify,
            ),
            (BootstrapState::NotStarted, BootstrapEvent::CacheAbsent) => (
                BootstrapState::Fetching,
                BootstrapAction::Fetch,
            ),
            (BootstrapState::Fetching, BootstrapEvent::FetchCompleted) => (
                BootstrapState::Verifying,
                BootstrapAction::Verify,
            ),
            (BootstrapState::Fetching, BootstrapEvent::FetchFailed(err)) => (
                BootstrapState::Failed(err),
                BootstrapAction::Abort(err),
            ),
            (BootstrapState::Verifying, BootstrapEvent::ReadFailed) => (
                BootstrapState::Failed(BootstrapError::Io),
                BootstrapAction::Abort(BootstrapError::Io),
            ),
            (BootstrapState::Verifying, BootstrapEvent::DigestMatched) => (
                BootstrapState::Ready,
                BootstrapAction::Proceed,
            ),
            (BootstrapState::Verifying, BootstrapEvent::DigestMismatched) => (
                BootstrapState::Failed(BootstrapError::IntegrityMismatch),
                BootstrapAction::Abort(BootstrapError::IntegrityMismatch),
            ),
            (s, _) => (s, BootstrapAction::Ignore),
        };
        self.state = next;
        action
    }

    /// Starts from what the cache check found. When the tool is already
    /// cached nothing is fetched, and the total in `status` becomes 0 so
    /// that no progress indicator is shown.
    pub fn start(&mut self, cache_present: bool, status: &mut DownloadStatus) -> (r: BootstrapAction)
        ensures
            ({
                let e = if cache_present {
                    BootstrapEvent::CachePresent
                } else {
                    BootstrapEvent::CacheAbsent
                };
                &&& final(self).state() == transition(old(self).state(), e)
                &&& r == action_of(old(self).state(), e)
            }),
            (cache_present && old(self).state() == BootstrapState::NotStarted) ==> (*final(status)
                == DownloadStatus(old(status).0, 0)),
            !(cache_present && old(self).state() == BootstrapState::NotStarted) ==> *final(status)
                == *old(status),
    {
        let was_new = match self.state {
            BootstrapState::NotStarted => true,
            _ => false,
        };
        if cache_present {
            if was_new {
                status.set_total(0);
            }
            self.step(BootstrapEvent::CachePresent)
        } else {
            self.step(BootstrapEvent::CacheAbsent)
        }
    }

    /// Takes the outcome of comparing an already computed digest with the
    /// hex-encoded reference.
    pub fn verify_digest(&mut self, computed: &[u8], reference_hex: &str) -> (r: BootstrapAction)
        ensures
            final(self).state() == transition(
                old(self).state(),
                digest_event(digest_matches(computed@, reference_hex@)),
            ),
            r == action_of(old(self).state(), digest_event(digest_matches(computed@, reference_hex@))),
    {
        match check_digest(computed, reference_hex) {
            Ok(()) => self.step(BootstrapEvent::DigestMatched),
            Err(_) => self.step(BootstrapEvent::DigestMismatched),
        }
    }

    /// Hashes the cached file's bytes with SHA-256 and takes the outcome of
    /// comparing the digest with the hex-encoded reference.
    pub fn verify_file(&mut self, file_bytes: &[u8], reference_hex: &str) -> (r: BootstrapAction)
        ensures
            final(self).state() == transition(
                old(self).state(),
                digest_event(digest_matches(sha256_of(file_bytes@), reference_hex@)),
            ),
            r == action_of(
                old(self).state(),
                digest_event(digest_matches(sha256_of(file_bytes@), reference_hex@)),
            ),
    {
        match check_integrity(file_bytes, reference_hex) {
            Ok(()) => self.step(BootstrapEvent::DigestMatched),
            Err(_) => self.step(BootstrapEvent::DigestMismatched),
        }
    }
}

/// Sets up the counters for a fetch whose server announced
/// `content_length` bytes. A response without a length fails with
/// `LengthUnknown`, since progress cannot be reported against it.
pub fn begin_download(content_length: Option<u64>, status: &mut DownloadStatus) -> (r: Result<
    StreamProgress,
    BootstrapError,
>)
    ensures
        content_length is None ==> r == Err::<StreamProgress, BootstrapError>(
            BootstrapError::LengthUnknown,
        ) && *final(status) == *old(status),
        content_length matches Some(n) ==> r matches Ok(p) && p.downloaded() == 0 && p.total() == n
            && *final(status) == DownloadStatus(0, n),
{
    match content_length {
        None => Err(BootstrapError::LengthUnknown),
        Some(n) => {
            status.set_total(n);
            status.set_progress(0);
            Ok(StreamProgress::start(n))
        },
    }
}

/// Failed is final: whatever is observed afterwards, start-up stays failed
/// with the same error.
pub proof fn lemma_failed_is_terminal(err: BootstrapError, es: Seq<BootstrapEvent>)
    ensures
        run(BootstrapState::Failed(err), es) == BootstrapState::Failed(err),
    decreases es.len(),
{
    if es.len() > 0 {
        lemma_failed_is_terminal(err, es.drop_first());
    }
}

/// Start-up becomes ready only through a digest that matched: a run that
/// was not ready and ends ready observed `DigestMatched`.
pub proof fn lemma_ready_needs_matching_digest(s: BootstrapState, es: Seq<BootstrapEvent>)
    requires
        s != BootstrapState::Ready,
        run(s, es) == BootstrapState::Ready,
    ensures
        exists|i: int| 0 <= i < es.len() && es[i] == BootstrapEvent::DigestMatched,
    decreases es.len(),
{
    if es.len() > 0 && es[0] != BootstrapEvent::DigestMatched {
        let rest = es.drop_first();
        lemma_ready_needs_matching_digest(transition(s, es[0]), rest);
        let j = choose|j: int| 0 <= j < rest.len() && rest[j] == BootstrapEvent::DigestMatched;
        assert(es[j + 1] == BootstrapEvent::DigestMatched);
    }
}

/// A digest that does not match the reference is fatal: verification
/// fails with `IntegrityMismatch`, start-up aborts, and no later event
/// brings it to ready.
pub proof fn lemma_mismatch_is_fatal(computed: Seq<u8>, reference: Seq<char>, es: Seq<BootstrapEvent>)
    requires
        !digest_matches(computed, reference),
    ensures
        transition(BootstrapState::Verifying, digest_event(digest_matches(computed, reference)))
            == BootstrapState::Failed(BootstrapError::IntegrityMismatch),
        action_of(BootstrapState::Verifying, digest_event(digest_matches(computed, reference)))
            == BootstrapAction::Abort(BootstrapError::IntegrityMismatch),
        run(
            transition(BootstrapState::Verifying, digest_event(digest_matches(computed, reference))),
            es,
        ) != BootstrapState::Ready,
{
    lemma_failed_is_terminal(BootstrapError::IntegrityMismatch, es);
}

/// Once start-up has left `NotStarted` it never comes back to it.
pub proof fn lemma_never_restarts(s: BootstrapState, es: Seq<BootstrapEvent>)
    requires
        s != BootstrapState::NotStarted,
    ensures
        run(s, es) != BootstrapState::NotStarted,
    decreases es.len(),
{
    if es.len() > 0 {
        lemma_never_restarts(transition(s, es[0]), es.drop_first());
    }
}

/// A cached tool is never downloaded: when the cache check finds the tool,
/// the next step is verification, and no later event, in any order, asks
/// for a fetch.
pub proof fn lemma_cached_tool_is_not_fetched(es: Seq<BootstrapEvent>)
    ensures
        action_of(BootstrapState::NotStarted, BootstrapEvent::CachePresent)
            == BootstrapAction::Verify,
        forall|i: int|
            0 <= i < es.len() ==> action_of(
                #[trigger] run(BootstrapState::Verifying, es.take(i)),
                es[i],
            ) != BootstrapAction::Fetch,
{
    assert forall|i: int| 0 <= i < es.len() implies action_of(
        #[trigger] run(BootstrapState::Verifying, es.take(i)),
        es[i],
    ) != BootstrapAction::Fetch by {
        lemma_never_restarts(BootstrapState::Verifying, es.take(i));
    }
}

} // verus!
