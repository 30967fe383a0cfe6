use clipboard_herald::clipboard::ClipboardError;
use clipboard_herald::gateway::{
    after_format, terminated, Attempt, OpenRetry, Scan, Verdict, ACCESS_DENIED, CF_TEXT,
    MAX_ATTEMPTS, RETRY_PAUSE_MS,
};

/// Opens against a clipboard whose attempts end as `outcomes` say in turn, the
/// last one repeated for ever. Returns the verdict that ended the opening, the
/// attempts made and the milliseconds spent in pauses.
fn open_against(outcomes: &[Attempt]) -> (Verdict, u32, u64) {
    let mut retry = OpenRetry::new();
    let mut attempts: u32 = 0;
    let mut paused: u64 = 0;
    loop {
        let index = (attempts as usize).min(outcomes.len() - 1);
        attempts += 1;
        assert!(attempts <= 1000, "the opening does not end");
        match retry.record(outcomes[index]) {
            Verdict::RetryAfter(ms) => paused += ms,
            verdict => return (verdict, attempts, paused),
        }
    }
}

#[test]
fn the_limits_are_ten_attempts_and_a_tenth_of_a_second() {
    assert_eq!(MAX_ATTEMPTS, 10);
    assert_eq!(RETRY_PAUSE_MS, 100);
}

#[test]
fn a_free_clipboard_opens_at_once() {
    assert_eq!(open_against(&[Attempt::Opened]), (Verdict::Proceed, 1, 0));
}

#[test]
fn contention_below_the_limit_is_waited_out() {
    for busy in 0..10usize {
        let mut outcomes = vec![Attempt::Busy; busy];
        outcomes.push(Attempt::Opened);
        let (verdict, attempts, paused) = open_against(&outcomes);
        assert_eq!(verdict, Verdict::Proceed);
        assert_eq!(attempts as usize, busy + 1);
        assert_eq!(paused, 100 * busy as u64);
    }
}

#[test]
fn nine_busy_attempts_then_open_succeeds_on_the_tenth() {
    let mut outcomes = vec![Attempt::Busy; 9];
    outcomes.push(Attempt::Opened);
    assert_eq!(open_against(&outcomes), (Verdict::Proceed, 10, 900));
}

#[test]
fn contention_on_every_attempt_gives_up_after_exactly_ten() {
    let (verdict, attempts, paused) = open_against(&[Attempt::Busy]);
    assert_eq!(verdict, Verdict::GiveUp(ClipboardError::Busy));
    assert_eq!(attempts, 10);
    assert_eq!(paused, 900);
    assert!((900..=1000).contains(&paused));
}

#[test]
fn an_eleventh_attempt_would_come_too_late() {
    let mut outcomes = vec![Attempt::Busy; 10];
    outcomes.push(Attempt::Opened);
    assert_eq!(open_against(&outcomes), (Verdict::GiveUp(ClipboardError::Busy), 10, 900));
}

#[test]
fn another_failure_ends_the_opening_at_once() {
    assert_eq!(
        open_against(&[Attempt::Failed(-2147024890)]),
        (Verdict::GiveUp(ClipboardError::Os(-2147024890)), 1, 0)
    );
}

#[test]
fn another_failure_after_contention_ends_the_opening() {
    let outcomes = [Attempt::Busy, Attempt::Busy, Attempt::Failed(7), Attempt::Opened];
    assert_eq!(open_against(&outcomes), (Verdict::GiveUp(ClipboardError::Os(7)), 3, 200));
}

#[test]
fn record_counts_attempts_up_to_the_limit() {
    let mut retry = OpenRetry::new();
    assert_eq!(retry.attempts(), 0);
    for made in 1..=9u32 {
        assert_eq!(retry.record(Attempt::Busy), Verdict::RetryAfter(100));
        assert_eq!(retry.attempts(), made);
    }
    assert_eq!(retry.record(Attempt::Busy), Verdict::GiveUp(ClipboardError::Busy));
    assert_eq!(retry.attempts(), 10);
    assert_eq!(retry.record(Attempt::Busy), Verdict::GiveUp(ClipboardError::Busy));
    assert_eq!(retry.attempts(), 10);
    assert_eq!(retry.record(Attempt::Opened), Verdict::Proceed);
    assert_eq!(retry.record(Attempt::Failed(5)), Verdict::GiveUp(ClipboardError::Os(5)));
}

#[test]
fn the_codes_are_those_of_the_system() {
    assert_eq!(ACCESS_DENIED, windows::Win32::Foundation::ERROR_ACCESS_DENIED.to_hresult().0);
    assert_eq!(ACCESS_DENIED as u32, 0x8007_0005);
    assert_eq!(CF_TEXT, u32::from(windows::Win32::System::Ole::CF_TEXT.0));
}

#[test]
fn an_answer_becomes_an_attempt() {
    assert_eq!(Attempt::from_answer(Ok(())), Attempt::Opened);
    assert_eq!(Attempt::from_answer(Err(ACCESS_DENIED)), Attempt::Busy);
    assert_eq!(Attempt::from_answer(Err(-2147024891)), Attempt::Busy);
    assert_eq!(Attempt::from_answer(Err(5)), Attempt::Failed(5));
    assert_eq!(Attempt::from_answer(Err(0)), Attempt::Failed(0));
    assert_eq!(Attempt::from_answer(Err(-2147024890)), Attempt::Failed(-2147024890));
}

#[test]
fn text_is_found_among_the_formats() {
    assert_eq!(after_format(1), Scan::Found);
    assert_eq!(after_format(0), Scan::Exhausted);
    assert_eq!(after_format(2), Scan::Next);
    assert_eq!(after_format(13), Scan::Next);
    assert_eq!(after_format(49161), Scan::Next);
    assert_eq!(after_format(u32::MAX), Scan::Next);
}

#[test]
fn text_is_handed_over_with_a_zero_byte_at_its_end() {
    assert_eq!(terminated(""), Some(vec![0]));
    assert_eq!(terminated("abc"), Some(vec![b'a', b'b', b'c', 0]));
    assert_eq!(terminated("https://new.example.com/"), Some(b"https://new.example.com/\0".to_vec()));
    assert_eq!(terminated("\u{e9}"), Some(vec![0xC3, 0xA9, 0]));
}

#[test]
fn text_with_a_zero_byte_cannot_be_handed_over() {
    assert_eq!(terminated("\0"), None);
    assert_eq!(terminated("ab\0cd"), None);
    assert_eq!(terminated("abcd\0"), None);
}

/// Scans the formats that the enumeration gives in turn, as a session does.
fn scan(answers: &[u32]) -> Option<bool> {
    for format in answers {
        match after_format(*format) {
            Scan::Found => return Some(true),
            Scan::Exhausted => return Some(false),
            Scan::Next => {}
        }
    }
    None
}

#[test]
fn the_scan_finds_text_where_it_is_offered() {
    assert_eq!(scan(&[0]), Some(false));
    assert_eq!(scan(&[1, 0]), Some(true));
    assert_eq!(scan(&[13, 16, 1, 7, 0]), Some(true));
    assert_eq!(scan(&[13, 16, 7, 0]), Some(false));
    assert_eq!(scan(&[49161, 2, 8, 17, 0]), Some(false));
    assert_eq!(scan(&[49161, 2, 8, 1]), Some(true));
    assert_eq!(scan(&[13, 16]), None);
}
