use allgreen::config::AppConfig;
use allgreen::health::{conclude_probe, plan_probe, ProbePlan};
use allgreen::history::History;
use allgreen::pool::WorkerPool;
use allgreen::probe::{build_user_agent, classify, needs_retry, resolve, webhook_body, ProbeOutcome, ProbeResult};
use allgreen::status::Status;

fn received(body: &str) -> ProbeOutcome {
    ProbeOutcome::Received { body: body.to_string() }
}

#[test]
fn status_labels_round_trip() {
    for st in [Status::Created, Status::Up, Status::Down, Status::Paused] {
        assert_eq!(Status::from_label(st.label()), Some(st));
    }
    assert_eq!(Status::Up.label(), "up");
    assert_eq!(Status::from_label("bogus"), None);
    assert_eq!(Status::from_label(""), None);
}

#[test]
fn keyword_in_body_classifies_up() {
    let r = classify(&received("<html>all OK here</html>"), "OK", 321);
    assert_eq!(r, ProbeResult { status: Status::Up, duration_ms: 321 });
}

#[test]
fn keyword_missing_classifies_down() {
    let r = classify(&received("<html>maintenance</html>"), "OK", 300);
    assert_eq!(r, ProbeResult { status: Status::Down, duration_ms: 300 });
}

#[test]
fn transport_failure_classifies_down_with_zero_duration() {
    let r = classify(&ProbeOutcome::NoResponse, "OK", 450);
    assert_eq!(r, ProbeResult { status: Status::Down, duration_ms: 0 });
    let r = classify(&ProbeOutcome::BodyUnreadable, "OK", 450);
    assert_eq!(r, ProbeResult { status: Status::Down, duration_ms: 450 });
}

#[test]
fn retry_only_on_slow_down() {
    assert!(needs_retry(&ProbeResult { status: Status::Down, duration_ms: 10001 }));
    assert!(!needs_retry(&ProbeResult { status: Status::Down, duration_ms: 10000 }));
    assert!(!needs_retry(&ProbeResult { status: Status::Down, duration_ms: 0 }));
    assert!(!needs_retry(&ProbeResult { status: Status::Up, duration_ms: 999999 }));
}

#[test]
fn second_result_is_final_after_retry() {
    let first = ProbeResult { status: Status::Down, duration_ms: 12000 };
    assert!(needs_retry(&first));
    let second = ProbeResult { status: Status::Up, duration_ms: 200 };
    assert_eq!(resolve(first, Some(second)), second);
    let fast_down = ProbeResult { status: Status::Down, duration_ms: 300 };
    assert!(!needs_retry(&fast_down));
    assert_eq!(resolve(fast_down, None), fast_down);
}

#[test]
fn steady_up_writes_nothing_and_stays_quiet() {
    // Site is up, keyword "OK", body holds "...OK...": classified up,
    // no new row, no webhook.
    let r = classify(&received("...OK..."), "OK", 120);
    assert_eq!(r.status, Status::Up);
    let d = conclude_probe(Status::Up, r, true);
    assert_eq!(d.write, None);
    assert!(!d.notify);
}

#[test]
fn timeout_then_recovery_writes_nothing() {
    // First probe times out after 12 000 ms: down/12000, retried once;
    // the retry finds the keyword, so the final state is up and the
    // prior up state stands unchanged.
    let first = classify(&ProbeOutcome::TimedOut, "OK", 12000);
    assert_eq!(first, ProbeResult { status: Status::Down, duration_ms: 12000 });
    assert!(needs_retry(&first));
    let second = classify(&received("body with OK inside"), "OK", 350);
    assert_eq!(second.status, Status::Up);
    let fin = resolve(first, Some(second));
    assert_eq!(fin.status, Status::Up);
    let d = conclude_probe(Status::Up, fin, true);
    assert_eq!(d.write, None);
    assert!(!d.notify);
}

#[test]
fn fast_content_mismatch_transitions_and_notifies() {
    // HTTP 200 in 300 ms but the keyword is absent: down immediately,
    // no retry, a down row written, the webhook fired.
    let r = classify(&received("<html>200 but wrong page</html>"), "OK", 300);
    assert_eq!(r, ProbeResult { status: Status::Down, duration_ms: 300 });
    assert!(!needs_retry(&r));
    let fin = resolve(r, None);
    let d = conclude_probe(Status::Up, fin, true);
    assert_eq!(d.write, Some(ProbeResult { status: Status::Down, duration_ms: 300 }));
    assert!(d.notify);
    assert_eq!(
        webhook_body("https://c.example", Status::Down),
        "{ \"content\" : \" https://c.example is down \"  }"
    );
}

#[test]
fn transition_without_webhook_writes_but_does_not_notify() {
    let fin = ProbeResult { status: Status::Down, duration_ms: 40 };
    let d = conclude_probe(Status::Up, fin, false);
    assert_eq!(d.write, Some(fin));
    assert!(!d.notify);
}

#[test]
fn paused_site_is_never_probed() {
    assert_eq!(plan_probe(true, Status::Up), ProbePlan::RecordPaused);
    assert_eq!(plan_probe(true, Status::Down), ProbePlan::RecordPaused);
    assert_eq!(plan_probe(true, Status::Created), ProbePlan::RecordPaused);
    assert_eq!(plan_probe(true, Status::Paused), ProbePlan::SkipPaused);
    assert_eq!(plan_probe(false, Status::Up), ProbePlan::Probe);
}

#[test]
fn first_paused_cycle_writes_one_row_then_none() {
    let mut h = History::new(9);
    h.record(Status::Up, 100, 1_000);
    assert_eq!(h.len(), 1);
    // First paused cycle: current state is up, so one paused row goes in.
    assert_eq!(plan_probe(true, h.current().unwrap().state), ProbePlan::RecordPaused);
    h.record(Status::Paused, 0, 2_000);
    assert_eq!(h.len(), 2);
    // Later paused cycles skip the site; even a record would add nothing.
    assert_eq!(plan_probe(true, h.current().unwrap().state), ProbePlan::SkipPaused);
    h.record(Status::Paused, 0, 3_000);
    assert_eq!(h.len(), 2);
}

#[test]
fn current_state_is_latest_row_and_rows_are_append_only() {
    let mut h = History::new(4);
    assert!(h.current().is_none());
    h.record(Status::Created, 0, 10);
    h.record(Status::Up, 120, 20);
    h.record(Status::Down, 80, 30);
    assert_eq!(h.len(), 3);
    let first = h.row_at(0);
    assert_eq!(first.state, Status::Created);
    assert_eq!(first.created_at_ms, 10);
    assert_eq!(first.website_id, 4);
    // Recording more never rewrites what is already there.
    h.record(Status::Up, 75, 40);
    assert_eq!(h.row_at(0), first);
    assert_eq!(h.row_at(2).state, Status::Down);
    let cur = h.current().unwrap();
    assert_eq!(cur.state, Status::Up);
    assert_eq!(cur.created_at_ms, 40);
    for i in 0..h.len() {
        assert!(h.row_at(i).created_at_ms <= cur.created_at_ms);
    }
}

#[test]
fn history_records_transitions_only() {
    let mut h = History::new(1);
    h.record(Status::Up, 10, 100);
    h.record(Status::Up, 11, 200);
    h.record(Status::Up, 12, 300);
    assert_eq!(h.len(), 1);
    h.record(Status::Down, 13, 400);
    assert_eq!(h.len(), 2);
    for i in 1..h.len() {
        assert_ne!(h.row_at(i).state, h.row_at(i - 1).state);
    }
}

#[test]
fn pool_never_exceeds_its_bound() {
    // Launch 10 probes with a bound of 3, completing one whenever the
    // pool refuses a launch; the instrumented counter never passes 3.
    let mut pool = WorkerPool::new(3);
    let mut launched: usize = 0;
    let mut max_seen: usize = 0;
    while launched < 10 {
        if pool.try_launch() {
            launched += 1;
        } else {
            pool.complete();
        }
        assert!(pool.in_flight() <= pool.bound());
        if pool.in_flight() > max_seen {
            max_seen = pool.in_flight();
        }
    }
    assert_eq!(max_seen, 3);
    while pool.in_flight() > 0 {
        pool.complete();
    }
    assert_eq!(pool.in_flight(), 0);
    assert_eq!(pool.bound(), 3);
}

#[test]
fn user_agent_appends_signature_or_defaults() {
    let ua = build_user_agent(&Some("MyBot/1.0".to_string()));
    assert_eq!(ua, "MyBot/1.0 allgreen.me Up Time Checker");
    let def = build_user_agent(&None);
    assert!(def.ends_with(" allgreen.me Up Time Checker"));
    assert!(def.starts_with("Windows NT 10.0;"));
}

#[test]
fn config_needs_slots_and_timeout() {
    let mut c = AppConfig {
        secret: String::new(),
        host: String::new(),
        addr: String::new(),
        database_url: String::new(),
        assets: String::new(),
        checker_batch: 5,
        checker_timeout: 10,
        checker_sleep: 60,
        checker_log: false,
        mailer: String::new(),
        mailer_password: String::new(),
    };
    assert!(c.is_runnable());
    c.checker_batch = 0;
    assert!(!c.is_runnable());
}
