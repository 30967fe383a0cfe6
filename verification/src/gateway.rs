//! The rules by which the system clipboard is used.
//!
//! The clipboard belongs to the whole system, and another process may hold it
//! for a moment. An attempt to open it that finds it held is repeated after a
//! pause, up to a fixed number of attempts; any other failure ends the opening
//! at once. The caller makes the attempts and keeps the pauses; [`OpenRetry`]
//! counts and decides.
//!
//! Text is looked for among the formats that the clipboard offers, and is
//! handed over as bytes that end in a zero byte.

use crate::clipboard::ClipboardError;
use vstd::prelude::*;
use vstd::string::StringSliceAdditionalSpecFns;

verus! {

/// The most attempts that are made to open the clipboard.
pub const MAX_ATTEMPTS: u32 = 10;

/// The pause between two attempts, in milliseconds.
pub const RETRY_PAUSE_MS: u64 = 100;

/// The error code with which the operating system refuses access: what an
/// attempt to open the clipboard gets while another process holds it.
pub const ACCESS_DENIED: i32 = -2147024891;

/// How one attempt to open the clipboard ended.
#[derive(Debug, Clone, Copy, PartialEq, Eq, Structural)]
pub enum Attempt {
    /// The clipboard is open.
    Opened,
    /// Another process holds the clipboard.
    Busy,
    /// The operating system refused for another reason, with this error code.
    Failed(i32),
}

impl Attempt {
    /// Reads what the operating system answered to an attempt: success, or
    /// the code of its error.
    pub fn from_answer(answer: Result<(), i32>) -> (attempt: Attempt)
        ensures
            attempt == match answer {
                Ok(_) => Attempt::Opened,
                Err(code) => if code == ACCESS_DENIED {
                    Attempt::Busy
                } else {
                    Attempt::Failed(code)
                },
            },
    {
        match answer {
            Ok(_) => Attempt::Opened,
            Err(code) => if code == ACCESS_DENIED {
                Attempt::Busy
            } else {
                Attempt::Failed(code)
            },
        }
    }
}

/// What follows an attempt.
#[derive(Debug, Clone, Copy, PartialEq, Eq, Structural)]
pub enum Verdict {
    /// The clipboard is open: go on.
    Proceed,
    /// Wait this many milliseconds, then try again.
    RetryAfter(u64),
    /// Stop trying, with this error.
    GiveUp(ClipboardError),
}

/// What follows an attempt that ended as `outcome`, when `made` attempts,
/// that one included, have been made.
pub open spec fn verdict_after(made: nat, outcome: Attempt) -> Verdict {
    match outcome {
        Attempt::Opened => Verdict::Proceed,
        Attempt::Failed(code) => Verdict::GiveUp(ClipboardError::Os(code)),
        Attempt::Busy => if made < MAX_ATTEMPTS {
            Verdict::RetryAfter(RETRY_PAUSE_MS)
        } else {
            Verdict::GiveUp(ClipboardError::Busy)
        },
    }
}

/// The course of one opening, attempt by attempt.
#[derive(Debug)]
pub struct OpenRetry {
    made: u32,
}

impl OpenRetry {
    /// The number of attempts recorded so far, none beyond the most that are made.
    pub closed spec fn made(&self) -> nat {
        self.made as nat
    }

    #[verifier::type_invariant]
    spec fn within_bounds(&self) -> bool {
        self.made <= MAX_ATTEMPTS
    }

    /// An opening in which no attempt has been made yet.
    pub fn new() -> (retry: OpenRetry)
        ensures
            retry.made() == 0,
    {
        OpenRetry { made: 0 }
    }

    /// The number of attempts recorded so far.
    pub fn attempts(&self) -> (n: u32)
        ensures
            n == self.made(),
    {
        self.made
    }

    /// Records that an attempt ended as `outcome`, and says what follows.
    ///
    /// A busy clipboard is tried again as long as fewer than the most attempts
    /// have been made; with the last of them the opening is given up as busy.
    pub fn record(&mut self, outcome: Attempt) -> (verdict: Verdict)
        ensures
            final(self).made() == if old(self).made() < MAX_ATTEMPTS {
                old(self).made() + 1
            } else {
                old(self).made()
            },
            verdict == verdict_after(final(self).made(), outcome),
    {
        proof {
            use_type_invariant(&*self);
        }
        if self.made < MAX_ATTEMPTS {
            self.made = self.made + 1;
        }
        match outcome {
            Attempt::Opened => Verdict::Proceed,
            Attempt::Failed(code) => Verdict::GiveUp(ClipboardError::Os(code)),
            Attempt::Busy => if self.made < MAX_ATTEMPTS {
                Verdict::RetryAfter(RETRY_PAUSE_MS)
            } else {
                Verdict::GiveUp(ClipboardError::Busy)
            },
        }
    }
}

/// The number of the clipboard format that holds plain text.
pub const CF_TEXT: u32 = 1;

/// What follows one step through the formats that the clipboard offers.
#[derive(Debug, Clone, Copy, PartialEq, Eq, Structural)]
pub enum Scan {
    /// The format is plain text: the clipboard holds text.
    Found,
    /// There are no more formats: the clipboard holds no text.
    Exhausted,
    /// Another format: look at the next.
    Next,
}

/// What one step through the formats makes of `format`, the number that the
/// enumeration of formats gave, where 0 says that there are no more.
pub open spec fn judged(format: u32) -> Scan {
    if format == CF_TEXT {
        Scan::Found
    } else if format == 0 {
        Scan::Exhausted
    } else {
        Scan::Next
    }
}

/// Judges `format`, the number that the enumeration of formats gave, where 0
/// says that there are no more.
pub fn after_format(format: u32) -> (scan: Scan)
    ensures
        scan == judged(format),
{
    if format == CF_TEXT {
        Scan::Found
    } else if format == 0 {
        Scan::Exhausted
    } else {
        Scan::Next
    }
}

/// How the scan goes on from position `from`, when the enumeration gives
/// `answers` in turn: whether text is found, `None` while the scan is not
/// over.
pub open spec fn scan_from(answers: Seq<u32>, from: int) -> Option<bool>
    decreases answers.len() - from,
{
    if from < 0 || from >= answers.len() {
        None
    } else {
        match judged(answers[from]) {
            Scan::Found => Some(true),
            Scan::Exhausted => Some(false),
            Scan::Next => scan_from(answers, from + 1),
        }
    }
}

/// How the scan goes when the enumeration gives `answers` in turn.
pub open spec fn scan(answers: Seq<u32>) -> Option<bool> {
    scan_from(answers, 0)
}

/// From any position on, the scan of the formats that a clipboard offers,
/// with the 0 that ends the enumeration, finds text exactly where plain text
/// is among the formats still to come.
pub proof fn lemma_scan_from(offered: Seq<u32>, from: int)
    requires
        0 <= from <= offered.len(),
        forall|i: int| 0 <= i < offered.len() ==> offered[i] != 0,
    ensures
        scan_from(offered.push(0), from) == Some(
            exists|i: int| from <= i < offered.len() && offered[i] == CF_TEXT,
        ),
    decreases offered.len() - from,
{
    if from < offered.len() {
        assert(offered.push(0)[from] == offered[from]);
        if offered[from] != CF_TEXT {
            lemma_scan_from(offered, from + 1);
        }
    } else {
        assert(offered.push(0)[from] == 0);
    }
}

/// The scan says that the clipboard holds text exactly where plain text is
/// among the formats that it offers.
pub proof fn law_text_is_found_where_it_is_offered(offered: Seq<u32>)
    requires
        forall|i: int| 0 <= i < offered.len() ==> offered[i] != 0,
    ensures
        scan(offered.push(0)) == Some(offered.contains(CF_TEXT)),
{
    lemma_scan_from(offered, 0);
}

/// The bytes of `text` with a zero byte after them, as the clipboard wants
/// them; `None` where the text holds a zero byte itself.
pub fn terminated(text: &str) -> (buffer: Option<Vec<u8>>)
    ensures
        buffer is None <==> text.spec_bytes().contains(0),
        buffer matches Some(bytes) ==> bytes@ == text.spec_bytes().push(0),
{
    let bytes = text.as_bytes();
    let mut buffer: Vec<u8> = Vec::new();
    let mut i: usize = 0;
    while i < bytes.len()
        invariant
            i <= bytes@.len(),
            bytes@ == text.spec_bytes(),
            buffer@ == bytes@.take(i as int),
            forall|k: int| 0 <= k < i ==> bytes@[k] != 0,
        decreases bytes@.len() - i,
    {
        if bytes[i] == 0 {
            return None;
        }
        buffer.push(bytes[i]);
        assert(buffer@ =~= bytes@.take(i + 1));
        i += 1;
    }
    assert(bytes@.take(i as int) =~= bytes@);
    buffer.push(0);
    Some(buffer)
}

/// How an opening went: the attempts made, the time spent in pauses, and the
/// verdict that ended it, `None` while it is still to be tried again.
pub struct Course {
    pub attempts: int,
    pub paused_ms: int,
    pub end: Option<Verdict>,
}

/// How an opening goes on, of which `made` attempts and `paused` milliseconds
/// of pauses lie behind, when its attempts end as `outcomes` say in turn.
pub open spec fn course_from(outcomes: Seq<Attempt>, made: int, paused: int) -> Course
    decreases outcomes.len() - made,
{
    if made < 0 || made >= outcomes.len() {
        Course { attempts: made, paused_ms: paused, end: None }
    } else {
        match verdict_after((made + 1) as nat, outcomes[made]) {
            Verdict::RetryAfter(ms) => course_from(outcomes, made + 1, paused + ms),
            verdict => Course { attempts: made + 1, paused_ms: paused, end: Some(verdict) },
        }
    }
}

/// How an opening goes when its attempts end as `outcomes` say in turn.
pub open spec fn course(outcomes: Seq<Attempt>) -> Course {
    course_from(outcomes, 0, 0)
}

/// A run of busy attempts that stays below the most attempts is waited out,
/// with one pause for each.
pub proof fn lemma_busy_run(outcomes: Seq<Attempt>, made: int, paused: int, upto: int)
    requires
        0 <= made <= upto <= outcomes.len(),
        upto < MAX_ATTEMPTS,
        forall|i: int| made <= i < upto ==> outcomes[i] == Attempt::Busy,
    ensures
        course_from(outcomes, made, paused) == course_from(
            outcomes,
            upto,
            paused + (upto - made) * RETRY_PAUSE_MS,
        ),
    decreases upto - made,
{
    if made < upto {
        assert(outcomes[made] == Attempt::Busy);
        lemma_busy_run(outcomes, made + 1, paused + RETRY_PAUSE_MS, upto);
        assert(paused + RETRY_PAUSE_MS + (upto - (made + 1)) * RETRY_PAUSE_MS == paused + (upto
            - made) * RETRY_PAUSE_MS) by (nonlinear_arith);
    }
}

/// Where the clipboard is busy for `busy` attempts, fewer than the most that
/// are made, and then opens, the opening succeeds: with one attempt more than
/// were busy, a pause after each busy one, and no error.
pub proof fn law_contention_is_waited_out(outcomes: Seq<Attempt>, busy: int)
    requires
        0 <= busy < MAX_ATTEMPTS,
        busy < outcomes.len(),
        forall|i: int| 0 <= i < busy ==> outcomes[i] == Attempt::Busy,
        outcomes[busy] == Attempt::Opened,
    ensures
        course(outcomes) == (Course {
            attempts: busy + 1,
            paused_ms: busy * RETRY_PAUSE_MS,
            end: Some(Verdict::Proceed),
        }),
{
    lemma_busy_run(outcomes, 0, 0, busy);
}

/// Where the clipboard is busy at every one of the most attempts that are
/// made, the opening is given up as busy: after exactly that many attempts,
/// with a pause between each two of them.
pub proof fn law_contention_ends_the_opening(outcomes: Seq<Attempt>)
    requires
        outcomes.len() >= MAX_ATTEMPTS,
        forall|i: int| 0 <= i < MAX_ATTEMPTS ==> outcomes[i] == Attempt::Busy,
    ensures
        course(outcomes) == (Course {
            attempts: MAX_ATTEMPTS as int,
            paused_ms: (MAX_ATTEMPTS - 1) * RETRY_PAUSE_MS,
            end: Some(Verdict::GiveUp(ClipboardError::Busy)),
        }),
        course(outcomes).paused_ms == 900,
{
    lemma_busy_run(outcomes, 0, 0, MAX_ATTEMPTS - 1);
    assert(outcomes[MAX_ATTEMPTS - 1] == Attempt::Busy);
}

/// A failure other than a busy clipboard ends the opening at once, with the
/// operating system's error code.
pub proof fn law_other_failure_is_final(outcomes: Seq<Attempt>, busy: int, code: i32)
    requires
        0 <= busy < MAX_ATTEMPTS,
        busy < outcomes.len(),
        forall|i: int| 0 <= i < busy ==> outcomes[i] == Attempt::Busy,
        outcomes[busy] == Attempt::Failed(code),
    ensures
        course(outcomes) == (Course {
            attempts: busy + 1,
            paused_ms: busy * RETRY_PAUSE_MS,
            end: Some(Verdict::GiveUp(ClipboardError::Os(code))),
        }),
{
    lemma_busy_run(outcomes, 0, 0, busy);
}

} // verus!
