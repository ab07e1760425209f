use cta_bot::util::{bool_from_string, countdown, minutes_between, minutes_until, Instant};

#[test]
fn countdown_words() {
    assert_eq!(countdown(-5), "Due");
    assert_eq!(countdown(0), "Due");
    assert_eq!(countdown(1), "Due");
    assert_eq!(countdown(2), "2 min");
    assert_eq!(countdown(58), "58 min");
    assert_eq!(countdown(60), "1 hr");
    assert_eq!(countdown(61), "1 hr 1 min");
    assert_eq!(countdown(125), "5 hr -175 min");
}

#[test]
fn bool_from_string_accepts_the_eight_spellings() {
    for s in ["1", "true", "True", "TRUE"] {
        assert_eq!(bool_from_string(s).unwrap(), true);
    }
    for s in ["0", "false", "False", "FALSE"] {
        assert_eq!(bool_from_string(s).unwrap(), false);
    }
}

#[test]
fn bool_from_string_rejects_anything_else() {
    for s in ["", "yes", "no", "tRUE", "2", " true", "true ", "T", "null"] {
        let e = bool_from_string(s).unwrap_err();
        assert_eq!(e.unexpected, s);
    }
}

#[test]
fn minutes_between_rounds_toward_zero() {
    let epoch = Instant { secs: 0, nanos: 0 };
    assert_eq!(minutes_between(120, epoch), 2);
    assert_eq!(minutes_between(119, epoch), 1);
    assert_eq!(minutes_between(0, Instant { secs: 119, nanos: 0 }), -1);
    assert_eq!(minutes_between(0, Instant { secs: 120, nanos: 0 }), -2);
    assert_eq!(minutes_between(60, Instant { secs: 0, nanos: 1 }), 0);
    assert_eq!(minutes_between(60, Instant { secs: 0, nanos: 0 }), 1);
    assert_eq!(minutes_between(0, Instant { secs: 59, nanos: 999_999_999 }), 0);
    assert_eq!(minutes_between(0, Instant { secs: 60, nanos: 0 }), -1);
    assert_eq!(minutes_between(i64::MAX, epoch), i32::MAX);
    assert_eq!(minutes_between(i64::MIN, epoch), i32::MIN);
    assert_eq!(minutes_between(i64::MIN, Instant { secs: i64::MAX, nanos: u32::MAX }), i32::MIN);
}

#[test]
fn minutes_until_reads_the_clock() {
    assert!(minutes_until(0) < -28_000_000);
    assert!(minutes_until(4_102_444_800) > 0);
    assert_eq!(minutes_until(i64::MAX), i32::MAX);
    assert_eq!(minutes_until(i64::MIN), i32::MIN);
}
