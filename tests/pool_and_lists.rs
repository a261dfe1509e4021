use scripty_core::botlists::{status_step, DisforgeCom, MotionDevelopmentTop, StatusStep};
use scripty_core::pool::{default_worker_count, get_completed_jobs, worker_count_for, JobLedger};
use scripty_core::text::decimal_string;
use scripty_core::window::ActiveSpeakerWindow;

#[test]
fn n_jobs_give_n_results() {
    let mut ledger = JobLedger::new();
    let before = get_completed_jobs(&ledger);
    let ids: Vec<u64> = (0..7).map(|_| ledger.submit()).collect();
    for id in ids.iter().rev() {
        assert!(ledger.complete(*id));
    }
    assert_eq!(get_completed_jobs(&ledger), before + 7);
}

#[test]
fn second_result_for_a_job_is_rejected() {
    let mut ledger = JobLedger::new();
    let id = ledger.submit();
    assert!(ledger.complete(id));
    assert!(!ledger.complete(id));
    assert!(!ledger.complete(99));
    assert_eq!(get_completed_jobs(&ledger), 1);
}

#[test]
fn lost_job_is_not_counted() {
    let mut ledger = JobLedger::new();
    let id = ledger.submit();
    assert!(ledger.cancel(id));
    assert!(!ledger.complete(id));
    assert_eq!(get_completed_jobs(&ledger), 0);
    assert_eq!(ledger.next_id(), 1);
}

#[test]
fn worker_count_is_half_the_cpus_at_least_one() {
    assert_eq!(worker_count_for(16), 8);
    assert_eq!(worker_count_for(3), 1);
    assert_eq!(worker_count_for(1), 1);
    assert!(default_worker_count() >= 1);
}

#[test]
fn window_evicts_oldest_when_full() {
    let mut w = ActiveSpeakerWindow::with_capacity(3);
    for u in 1..=4u64 {
        w.push(u);
    }
    assert_eq!(w.len(), 3);
    assert!(!w.contains(1));
    assert!(w.contains(4));
    w.remove(3);
    assert_eq!(w.len(), 2);
    assert!(!w.contains(3));
    assert_eq!(ActiveSpeakerWindow::new().capacity(), 10);
}

#[test]
fn decimal_rendering() {
    assert_eq!(decimal_string(0), "0");
    assert_eq!(decimal_string(907), "907");
    assert_eq!(decimal_string(u64::MAX), "18446744073709551615");
}

#[test]
fn disforge_request() {
    let d = DisforgeCom::new("tok".to_string(), 811652199100317726);
    assert_eq!(d.token(), "tok");
    assert_eq!(d.bot_id(), 811652199100317726);
    assert_eq!(d.stats_url(), "https://disforge.com/api/botstats/811652199100317726");
    assert_eq!(d.auth_header(), "Authorization");
    assert_eq!(d.stats_body(1234), "{\"servers\":1234}");
    assert!(d.accepted("success"));
    assert!(!d.accepted("error"));
}

#[test]
fn motiondevelopment_request() {
    let m = MotionDevelopmentTop::new("key".to_string(), 42);
    assert_eq!(m.token(), "key");
    assert_eq!(m.bot_id(), 42);
    assert_eq!(m.stats_url(), "https://motiondevelopment.top/api/v1.2/bots/42/stats");
    assert_eq!(m.auth_header(), "Key");
    assert_eq!(m.stats_body(5), "{\"guilds\":5}");
}

#[test]
fn status_handling() {
    assert_eq!(status_step(200), StatusStep::ReadBody);
    assert_eq!(status_step(204), StatusStep::NotAccepted);
    assert_eq!(status_step(404), StatusStep::Failed(404));
    assert_eq!(status_step(503), StatusStep::Failed(503));
}
