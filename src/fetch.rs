//! The fetcher's decisions: whether a download is needed, how each failed
//! attempt is reported, and when to retry or give up.
use vstd::prelude::*;
use crate::text::concat;

verus! {

/// Attempts at most this many downloads.
pub const MAX_ATTEMPTS: u32 = 15;

/// Waits this long between two attempts.
pub const RETRY_DELAY_MS: u64 = 200;

/// Why one download attempt failed.
pub enum AttemptFailure {
    /// The download into the temporary file failed, for this reason.
    Download(String),
    /// The target path has no parent directory.
    NoParent,
    /// The target's parent directory could not be created, for this reason.
    CreateDir(String),
    /// The downloaded file does not parse as a tokenizer.
    NotATokenizer,
    /// The downloaded file could not be moved into place, for this reason.
    Copy(String),
}

/// The message that reports a failed attempt.
pub open spec fn failure_text(f: AttemptFailure) -> Seq<char> {
    match f {
        AttemptFailure::Download(e) => "failed to download tokenizer: "@ + e@,
        AttemptFailure::NoParent => "failed to download tokenizer: parent is not set"@,
        AttemptFailure::CreateDir(e) => "failed to create parent dir: "@ + e@,
        AttemptFailure::NotATokenizer => "failed to download tokenizer: file is not a tokenizer"@,
        AttemptFailure::Copy(e) => "failed to copy tokenizer file: "@ + e@,
    }
}

/// The message that reports a failed attempt.
pub fn failure_message(f: &AttemptFailure) -> (r: String)
    ensures
        r@ == failure_text(*f),
{
    match f {
        AttemptFailure::Download(e) => concat("failed to download tokenizer: ", e.as_str()),
        AttemptFailure::NoParent => String::from_str(
            "failed to download tokenizer: parent is not set",
        ),
        AttemptFailure::CreateDir(e) => concat("failed to create parent dir: ", e.as_str()),
        AttemptFailure::NotATokenizer => String::from_str(
            "failed to download tokenizer: file is not a tokenizer",
        ),
        AttemptFailure::Copy(e) => concat("failed to copy tokenizer file: ", e.as_str()),
    }
}

/// What the fetcher does next.
#[derive(Debug)]
pub enum FetchStep {
    /// The target holds a valid tokenizer: stop with success.
    Done,
    /// Wait `delay_ms`, then make one more attempt.
    Attempt { delay_ms: u64 },
    /// Stop with this error: the last attempt's message.
    GiveUp(String),
}

/// The wait before attempt number `k`, counting from zero.
pub open spec fn delay_before(k: nat) -> u64 {
    if k == 0 {
        0
    } else {
        RETRY_DELAY_MS
    }
}

/// Whether another attempt follows after `made` failed attempts.
pub open spec fn retries_after(made: nat) -> bool {
    made < MAX_ATTEMPTS
}

/// The state of one fetch: attempts made so far and the last failure.
pub struct Fetcher {
    pub attempts_made: u32,
    pub last_error: String,
}

impl Fetcher {
    /// Starts a fetch. A target that already holds a valid tokenizer needs no
    /// download at all; otherwise the first attempt comes at once.
    pub fn start(target_valid: bool) -> (r: (Fetcher, FetchStep))
        ensures
            r.0.attempts_made == 0,
            r.0.last_error@.len() == 0,
            target_valid ==> r.1 is Done,
            !target_valid ==> r.1 == (FetchStep::Attempt { delay_ms: delay_before(0) }),
    {
        let f = Fetcher { attempts_made: 0, last_error: String::new() };
        if target_valid {
            (f, FetchStep::Done)
        } else {
            (f, FetchStep::Attempt { delay_ms: 0 })
        }
    }

    /// Takes the outcome of the attempt just made and says what comes next:
    /// success ends the fetch; a failure is recorded and retried after the
    /// delay, until the attempts are spent, when it becomes the fetch's error.
    pub fn after_attempt(&mut self, outcome: Result<(), AttemptFailure>) -> (r: FetchStep)
        requires
            old(self).attempts_made < MAX_ATTEMPTS,
        ensures
            final(self).attempts_made == old(self).attempts_made + 1,
            outcome is Ok ==> r is Done && final(self).last_error == old(self).last_error,
            outcome is Err ==> final(self).last_error@ == failure_text(outcome->Err_0),
            outcome is Err && retries_after(final(self).attempts_made as nat) ==> r == (
            FetchStep::Attempt { delay_ms: delay_before(final(self).attempts_made as nat) }),
            outcome is Err && !retries_after(final(self).attempts_made as nat) ==> r is GiveUp
                && r->GiveUp_0 == final(self).last_error,
    {
        self.attempts_made = self.attempts_made + 1;
        match outcome {
            Ok(()) => FetchStep::Done,
            Err(f) => {
                self.last_error = failure_message(&f);
                if self.attempts_made < MAX_ATTEMPTS {
                    FetchStep::Attempt { delay_ms: RETRY_DELAY_MS }
                } else {
                    FetchStep::GiveUp(self.last_error.clone())
                }
            },
        }
    }
}

/// Against a source that always fails, a fetch makes exactly
/// `MAX_ATTEMPTS` attempts: the first at once, each of the other fourteen
/// after a wait of `RETRY_DELAY_MS`, and then gives up.
pub proof fn lemma_retry_exhaustion()
    ensures
        delay_before(0) == 0,
        forall|k: nat| 1 <= k < MAX_ATTEMPTS ==> #[trigger] retries_after(k) && delay_before(k)
            == RETRY_DELAY_MS,
        !retries_after(MAX_ATTEMPTS as nat),
        MAX_ATTEMPTS == 15,
        RETRY_DELAY_MS == 200,
{
}

} // verus!
