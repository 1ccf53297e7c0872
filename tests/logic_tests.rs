use gpio_session::args::{parse_blink_args, parse_poll_args, parse_u64, Arguments};
use gpio_session::blink::{blink_iterations, BlinkError, BlinkSchedule, BlinkStep};
use gpio_session::poll::{level_name, LevelWatch};
use gpio_session::registry::PinRegistry;
use gpio_session::version::{is_release, parts_match, ReleaseParts};

fn all_steps(mut s: BlinkSchedule) -> Vec<BlinkStep> {
    let mut v = Vec::new();
    while let Some(step) = s.next_step() {
        v.push(step);
    }
    v
}

fn strings(xs: &[&str]) -> Vec<String> {
    xs.iter().map(|x| x.to_string()).collect()
}

#[test]
fn blink_one_cycle_ends_low() {
    assert_eq!(blink_iterations(400, 200), Ok(1));
    let s = BlinkSchedule::for_blink(400, 200).unwrap();
    assert_eq!(
        all_steps(s),
        vec![
            BlinkStep::Drive(0),
            BlinkStep::Hold(200),
            BlinkStep::Drive(1),
            BlinkStep::Hold(200),
            BlinkStep::Drive(0),
        ]
    );
}

#[test]
fn blink_zero_period_is_invalid() {
    assert_eq!(blink_iterations(400, 0), Err(BlinkError::InvalidArgument));
    assert!(matches!(BlinkSchedule::for_blink(400, 0), Err(BlinkError::InvalidArgument)));
}

#[test]
fn blink_iteration_formula() {
    assert_eq!(blink_iterations(1000, 100), Ok(5));
    assert_eq!(blink_iterations(999, 100), Ok(4));
    assert_eq!(blink_iterations(100, 200), Ok(0));
    assert_eq!(blink_iterations(u64::MAX, 1), Ok(u64::MAX / 2));
}

#[test]
fn blink_short_duration_only_drives_low() {
    let s = BlinkSchedule::for_blink(100, 200).unwrap();
    assert_eq!(all_steps(s), vec![BlinkStep::Drive(0)]);
}

#[test]
fn blink_three_cycles() {
    let steps = all_steps(BlinkSchedule::for_blink(1200, 200).unwrap());
    assert_eq!(steps.len(), 13);
    assert_eq!(steps.iter().filter(|s| **s == BlinkStep::Drive(1)).count(), 3);
    assert_eq!(steps[12], BlinkStep::Drive(0));
}

#[test]
fn worker_cycle_steps() {
    let mut s = BlinkSchedule::cycle(200);
    assert!(!s.is_finished());
    let steps = {
        let mut v = Vec::new();
        while let Some(x) = s.next_step() {
            v.push(x);
        }
        v
    };
    assert_eq!(
        steps,
        vec![BlinkStep::Drive(0), BlinkStep::Hold(200), BlinkStep::Drive(1), BlinkStep::Hold(200)]
    );
    assert!(s.is_finished());
    assert_eq!(s.next_step(), None);
}

#[test]
fn parse_numbers() {
    assert_eq!(parse_u64("22"), Some(22));
    assert_eq!(parse_u64("+7"), Some(7));
    assert_eq!(parse_u64("0"), Some(0));
    assert_eq!(parse_u64("18446744073709551615"), Some(u64::MAX));
    assert_eq!(parse_u64("18446744073709551616"), None);
    assert_eq!(parse_u64("99999999999999999999x"), None);
    assert_eq!(parse_u64(""), None);
    assert_eq!(parse_u64("+"), None);
    assert_eq!(parse_u64("-1"), None);
    assert_eq!(parse_u64("1 2"), None);
    assert_eq!(parse_u64("12a"), None);
}

#[test]
fn blink_args_accepted() {
    let a = parse_blink_args(&strings(&["blink", "22", "400", "200"]));
    assert_eq!(a, Some(Arguments { pin: 22, duration_ms: 400, period_ms: 200 }));
}

#[test]
fn blink_args_wrong_count_shows_usage() {
    assert_eq!(parse_blink_args(&strings(&["blink", "22", "400"])), None);
    assert_eq!(parse_blink_args(&strings(&["blink", "22", "400", "200", "1"])), None);
    assert_eq!(parse_blink_args(&strings(&["blink", "22", "x", "200"])), None);
}

#[test]
fn poll_args() {
    assert_eq!(parse_poll_args(&strings(&["poll", "17"])), Some(17));
    assert_eq!(parse_poll_args(&strings(&["poll"])), None);
    assert_eq!(parse_poll_args(&strings(&["poll", "a"])), None);
}

#[test]
fn level_watch_reports_changes() {
    let mut w = LevelWatch::new();
    assert!(w.observe(0));
    assert!(!w.observe(0));
    assert!(w.observe(1));
    assert!(!w.observe(1));
    assert!(w.observe(0));
    assert_eq!(w.last, Some(0));
    assert_eq!(level_name(0), "Low");
    assert_eq!(level_name(1), "High");
}

#[test]
fn registry_one_owner_per_line() {
    let mut r = PinRegistry::new();
    assert!(r.claim(22));
    assert!(!r.claim(22));
    assert!(r.claim(23));
    assert!(r.is_claimed(22));
    assert!(r.release(22));
    assert!(!r.is_claimed(22));
    assert!(r.is_claimed(23));
    assert!(!r.release(22));
    assert!(r.claim(22));
}

#[test]
fn release_check() {
    assert!(is_release("1.0.1", 1, 0, 1));
    assert!(!is_release("1.0.2", 1, 0, 1));
    assert!(!is_release("1.0.1-alpha", 1, 0, 1));
    assert!(!is_release("1.0.1+build5", 1, 0, 1));
    assert!(!is_release("1.0", 1, 0, 1));
    assert!(!is_release("", 1, 0, 1));
}

#[test]
fn release_parts_match() {
    let p = ReleaseParts { major: 2, minor: 3, patch: 4, pre: String::new(), build: String::new() };
    assert!(parts_match(&Some(p.clone()), 2, 3, 4));
    assert!(!parts_match(&Some(p), 2, 3, 5));
    let q = ReleaseParts { major: 2, minor: 3, patch: 4, pre: "rc1".to_string(), build: String::new() };
    assert!(!parts_match(&Some(q), 2, 3, 4));
    assert!(!parts_match(&None, 2, 3, 4));
}
