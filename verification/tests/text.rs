//! Text primitives, lines, child processes and usage.
use runebench_pi_agent::lines::{find_last_line_break, find_line_break};
use runebench_pi_agent::process::{
    capture_name, capture_step, describe_capture_failure, next_child_action, CaptureFailure,
    CaptureStep, ChildAction, ChildEvent, CreateOutcome, DeadlineGuard,
};
use runebench_pi_agent::text::{
    chars_of, contains, control, decimal, is_blank, join, lowercase, parse_unsigned, same_text,
    signed_decimal, starts_with, strip_prefix, take_chars, text_of, trim, white_space,
};
use runebench_pi_agent::usage::{usage_report, Usage, UsageTotals};

#[test]
fn character_classes_agree_with_std() {
    for code in 0..=0x10ffffu32 {
        if let Some(c) = char::from_u32(code) {
            assert_eq!(white_space(c), c.is_whitespace(), "{code:x}");
            assert_eq!(control(c), c.is_control(), "{code:x}");
        }
    }
}

#[test]
fn slices_agree_with_std() {
    let samples = ["", " ", "a", "  a b\t\n", "\u{3000}ä\u{85}", "ABC äÖ xyz", "--flag", "\r\n x"];
    for sample in samples {
        assert_eq!(trim(sample), sample.trim());
        assert_eq!(is_blank(sample), sample.trim().is_empty());
        assert_eq!(lowercase(sample), sample.to_ascii_lowercase());
        assert_eq!(chars_of(sample), sample.chars().collect::<Vec<char>>());
        for needle in samples {
            assert_eq!(contains(sample, needle), sample.contains(needle));
            assert_eq!(starts_with(sample, needle), sample.starts_with(needle));
            assert_eq!(same_text(sample, needle), sample == needle);
            assert_eq!(
                strip_prefix(sample, needle),
                sample.strip_prefix(needle).map(str::to_owned)
            );
        }
        for n in 0..5 {
            assert_eq!(take_chars(sample, n), sample.chars().take(n).collect::<String>());
        }
    }
    assert_eq!(text_of(&chars_of("häuser"), 1, 4), "äus");
}

#[test]
fn joining_agrees_with_std() {
    let parts = vec!["a".to_owned(), String::new(), "b".to_owned()];
    assert_eq!(join(&parts, ", "), parts.join(", "));
    assert_eq!(join(&Vec::new(), ", "), "");
}

#[test]
fn numerals_agree_with_std() {
    for n in [0u64, 7, 10, 99, 100, 65535, 65536, u64::MAX] {
        assert_eq!(decimal(n), n.to_string());
        assert_eq!(parse_unsigned(&decimal(n), u64::MAX), Some(n));
    }
    for n in [0i64, -1, 42, -1200, i64::MAX, i64::MIN] {
        assert_eq!(signed_decimal(n), n.to_string());
    }
    for text in ["", "+", "-1", "+7", "007", "1 ", "18446744073709551615", "18446744073709551616"] {
        assert_eq!(parse_unsigned(text, u64::MAX), text.parse::<u64>().ok(), "{text}");
    }
    for text in ["65535", "65536", "200", "+200", "2e2"] {
        assert_eq!(
            parse_unsigned(text, 65535),
            text.parse::<u16>().ok().map(u64::from),
            "{text}"
        );
    }
}

#[test]
fn line_breaks_are_found() {
    assert_eq!(find_last_line_break(b"a\nb\nc"), Some(3));
    assert_eq!(find_last_line_break(b"abc"), None);
    assert_eq!(find_last_line_break(b""), None);
    assert_eq!(find_line_break(b"a\nb\nc", 0), Some(1));
    assert_eq!(find_line_break(b"a\nb\nc", 2), Some(3));
    assert_eq!(find_line_break(b"a\nb\nc", 4), None);
    assert_eq!(find_line_break(b"a\n", 2), None);
}

#[test]
fn capture_names_hold_process_and_sequence() {
    assert_eq!(
        capture_name("openrouter", 42, 7, "stdout"),
        "pi-agent-runebench-openrouter-42-7-stdout"
    );
    assert_ne!(
        capture_name("mcp", 1, 23, "stderr"),
        capture_name("mcp", 12, 3, "stderr")
    );
}

#[test]
fn capture_attempts_are_limited() {
    assert_eq!(capture_step(1, CreateOutcome::Created), CaptureStep::Use);
    assert_eq!(capture_step(15, CreateOutcome::AlreadyExists), CaptureStep::Retry);
    assert_eq!(
        capture_step(16, CreateOutcome::AlreadyExists),
        CaptureStep::GiveUp(CaptureFailure::Exhausted)
    );
    assert_eq!(
        capture_step(3, CreateOutcome::Failed("denied".to_owned())),
        CaptureStep::GiveUp(CaptureFailure::Refused("denied".to_owned()))
    );
    assert_eq!(
        describe_capture_failure("openrouter", &CaptureFailure::Exhausted),
        "cannot allocate a unique private openrouter capture after 16 attempts"
    );
    assert_eq!(
        describe_capture_failure("openrouter", &CaptureFailure::Refused("denied".to_owned())),
        "cannot create private openrouter capture: denied"
    );
}

#[test]
fn a_cancelled_child_is_killed_and_reaped() {
    assert_eq!(next_child_action(ChildEvent::Running, false), ChildAction::Sleep);
    assert_eq!(next_child_action(ChildEvent::Running, true), ChildAction::Kill);
    assert_eq!(next_child_action(ChildEvent::Killed, true), ChildAction::Reap);
    assert_eq!(
        next_child_action(ChildEvent::Reaped, true),
        ChildAction::Finish { cancelled: true }
    );
    assert_eq!(
        next_child_action(ChildEvent::Exited, true),
        ChildAction::Finish { cancelled: false }
    );
    assert_eq!(
        next_child_action(ChildEvent::PollFailed("gone".to_owned()), false),
        ChildAction::Fail("child status could not be read: gone".to_owned())
    );
    assert_eq!(
        next_child_action(ChildEvent::KillFailed("gone".to_owned()), true),
        ChildAction::Fail("cancelled child could not be killed: gone".to_owned())
    );
    assert_eq!(
        next_child_action(ChildEvent::ReapFailed("gone".to_owned()), true),
        ChildAction::Fail("cancelled child could not be reaped: gone".to_owned())
    );
}

#[test]
fn deadline_invokes_its_expiration_callback_once() {
    let mut deadline = DeadlineGuard::arm();
    let mut fired = 0;
    for _ in 0..2 {
        if deadline.settle(true) {
            fired += 1;
        }
    }
    assert_eq!(fired, 1);
    assert!(deadline.expired());
    deadline.disarm();
    assert!(deadline.expired());
}

#[test]
fn disarmed_deadline_never_invokes_its_callback() {
    let mut deadline = DeadlineGuard::arm();
    deadline.disarm();
    assert!(!deadline.expired());
    assert!(!deadline.settle(true));
    assert!(!deadline.expired());
}

#[test]
fn a_deadline_that_wakes_early_does_not_expire() {
    let mut deadline = DeadlineGuard::arm();
    assert!(!deadline.settle(false));
    assert!(!deadline.expired());
}

#[test]
fn usage_adds_up_in_any_order() {
    let a = Usage {
        input_tokens: Some(10),
        output_tokens: None,
        reasoning_tokens: Some(3),
    };
    let b = Usage {
        input_tokens: Some(5),
        output_tokens: Some(7),
        reasoning_tokens: None,
    };
    let mut first = UsageTotals::default();
    assert_eq!(first.snapshot(), Usage::default());
    first.add(a);
    first.add(b);
    let mut second = UsageTotals::default();
    second.add(b);
    second.add(a);
    assert_eq!(first.snapshot(), second.snapshot());
    assert_eq!(
        usage_report(first.snapshot()),
        "[pi-agent-core] usage input=15 output=7 reasoning=3"
    );
    let most = Usage {
        input_tokens: Some(u64::MAX),
        output_tokens: None,
        reasoning_tokens: None,
    };
    assert!(!first.has_room_for(most));
    assert!(UsageTotals::default().has_room_for(most));
}
