use ip_monitor::escalation::{decide, escalate, AlertDecision, AlertReason, CheckOutcome};
use ip_monitor::settings::{MonitorConfig, MonitorResult};

fn config_with_threshold(threshold: u8) -> MonitorConfig {
    MonitorConfig {
        email_enabled: true,
        ipv4: String::from("192.0.2.1:443"),
        ipv6: String::from("[2001:db8::1]:443"),
        ipv6_enabled: true,
        sender_email: String::from("monitor@example.org"),
        sender_name: String::from("Monitor"),
        recipient_email: String::from("ops@example.org"),
        recipient_name: String::from("Ops"),
        seconds_between_checks: 60,
        sendgrid_apikey: String::from("key"),
        how_many_failures_before_send_email: threshold,
    }
}

fn outcome(ipv4_ok: bool, ipv6_ok: bool, ipv6_checked: bool) -> CheckOutcome {
    CheckOutcome { ipv4_ok, ipv6_ok, ipv6_checked }
}

fn record(failed: bool, count: u8) -> MonitorResult {
    MonitorResult { failed, count }
}

#[test]
fn handle_failure_counts_and_reports_threshold() {
    let config = config_with_threshold(2);
    let mut state = record(false, 0);
    assert!(!state.handle_failure(&config));
    assert_eq!(state, record(true, 1));
    assert!(state.handle_failure(&config));
    assert_eq!(state, record(true, 2));
    assert!(state.handle_failure(&config));
    assert_eq!(state, record(true, 3));
}

#[test]
fn handle_failure_reaches_the_counter_limit() {
    let config = config_with_threshold(255);
    let mut state = record(true, 254);
    assert!(state.handle_failure(&config));
    assert_eq!(state, record(true, 255));
}

#[test]
fn handle_failure_marks_an_inconsistent_record_failed() {
    let config = config_with_threshold(5);
    let mut state = record(false, 3);
    assert!(!state.handle_failure(&config));
    assert_eq!(state, record(true, 4));
}

#[test]
fn handle_success_clears_the_record() {
    let mut state = record(true, 17);
    state.handle_success();
    assert_eq!(state, record(false, 0));
    state.handle_success();
    assert_eq!(state, record(false, 0));
}

#[test]
fn success_clears_any_count_and_never_alerts() {
    let config = config_with_threshold(1);
    for count in [0u8, 1, 2, 100, 255] {
        for failed in [false, true] {
            let (next, decision) = escalate(record(failed, count), outcome(true, true, true), &config);
            assert_eq!(next, record(false, 0));
            assert_eq!(
                decision,
                AlertDecision { should_alert: false, reason: AlertReason::NoneDown }
            );
        }
    }
}

#[test]
fn failure_adds_exactly_one() {
    let config = config_with_threshold(200);
    for count in [0u8, 1, 7, 199, 253, 254] {
        let (next, _) = escalate(record(count > 0, count), outcome(false, true, true), &config);
        assert_eq!(next, record(true, count + 1));
    }
}

#[test]
fn alert_fires_from_the_threshold_onwards() {
    let config = config_with_threshold(3);
    let mut state = record(false, 0);
    let mut alerts = Vec::new();
    for _ in 0..6 {
        let (next, decision) = escalate(state, outcome(false, true, true), &config);
        alerts.push((next.count, decision.should_alert));
        assert_eq!(decision.should_alert, next.count >= 3);
        state = next;
    }
    assert_eq!(
        alerts,
        vec![(1, false), (2, false), (3, true), (4, true), (5, true), (6, true)]
    );
}

#[test]
fn threshold_two_scenario() {
    let config = config_with_threshold(2);
    let start = record(false, 0);

    let (first, decision) = escalate(start, outcome(false, true, true), &config);
    assert_eq!(first, record(true, 1));
    assert!(!decision.should_alert);

    let (second, decision) = escalate(first, outcome(false, true, true), &config);
    assert_eq!(second, record(true, 2));
    assert_eq!(decision, AlertDecision { should_alert: true, reason: AlertReason::Ipv4Down });

    let (third, decision) = escalate(second, outcome(true, true, true), &config);
    assert_eq!(third, record(false, 0));
    assert_eq!(decision, AlertDecision { should_alert: false, reason: AlertReason::NoneDown });
}

#[test]
fn disabled_ipv6_is_ignored() {
    let config = config_with_threshold(1);

    let down = outcome(false, false, false);
    assert!(down.is_failure());
    assert!(down.ipv6_flag());
    assert_eq!(down.reason(), AlertReason::Ipv4Down);
    let (next, decision) = escalate(record(false, 0), down, &config);
    assert_eq!(next, record(true, 1));
    assert_eq!(decision, AlertDecision { should_alert: true, reason: AlertReason::Ipv4Down });

    let up = outcome(true, false, false);
    assert!(!up.is_failure());
    assert_eq!(up.reason(), AlertReason::NoneDown);
    let (next, decision) = escalate(record(true, 4), up, &config);
    assert_eq!(next, record(false, 0));
    assert!(!decision.should_alert);
}

#[test]
fn reason_names_what_is_down() {
    assert_eq!(outcome(true, true, true).reason(), AlertReason::NoneDown);
    assert_eq!(outcome(false, true, true).reason(), AlertReason::Ipv4Down);
    assert_eq!(outcome(true, false, true).reason(), AlertReason::Ipv6Down);
    assert_eq!(outcome(false, false, true).reason(), AlertReason::BothDown);
    assert_eq!(outcome(true, true, false).reason(), AlertReason::NoneDown);
    assert_eq!(outcome(false, true, false).reason(), AlertReason::Ipv4Down);

    assert!(!outcome(true, true, true).is_failure());
    assert!(outcome(false, true, true).is_failure());
    assert!(outcome(true, false, true).is_failure());
    assert!(outcome(false, false, true).is_failure());
    assert!(!outcome(true, false, true).ipv6_flag());
    assert!(outcome(true, true, true).ipv6_flag());
}

#[test]
fn reason_is_given_below_the_threshold_too() {
    let config = config_with_threshold(9);
    let (_, decision) = escalate(record(false, 0), outcome(true, false, true), &config);
    assert_eq!(decision, AlertDecision { should_alert: false, reason: AlertReason::Ipv6Down });
    let (_, decision) = escalate(record(true, 1), outcome(false, false, true), &config);
    assert_eq!(decision, AlertDecision { should_alert: false, reason: AlertReason::BothDown });
}

#[test]
fn threshold_zero_alerts_on_every_failure_only() {
    let config = config_with_threshold(0);
    let (_, decision) = escalate(record(false, 0), outcome(false, true, true), &config);
    assert!(decision.should_alert);
    let (_, decision) = escalate(record(true, 3), outcome(true, true, true), &config);
    assert!(!decision.should_alert);
}

#[test]
fn decide_needs_both_failure_and_threshold() {
    let failing = outcome(false, true, true);
    let fine = outcome(true, true, true);
    assert_eq!(
        decide(failing, 2, 3),
        AlertDecision { should_alert: false, reason: AlertReason::Ipv4Down }
    );
    assert_eq!(
        decide(failing, 3, 3),
        AlertDecision { should_alert: true, reason: AlertReason::Ipv4Down }
    );
    assert_eq!(
        decide(fine, 9, 3),
        AlertDecision { should_alert: false, reason: AlertReason::NoneDown }
    );
}

#[test]
fn nth_failure_after_a_success_alerts_from_the_threshold() {
    for threshold in [1u8, 2, 5, 255] {
        let config = config_with_threshold(threshold);
        let (mut state, _) = escalate(record(true, 9), outcome(true, true, true), &config);
        for n in 1..=255u16 {
            let (next, decision) = escalate(state, outcome(false, false, true), &config);
            assert_eq!(u16::from(next.count), n);
            assert!(next.failed);
            assert_eq!(decision.should_alert, n >= u16::from(threshold));
            state = next;
        }
    }
}
