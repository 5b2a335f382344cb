use aliyun_ddns::aliyun_cli::ProviderError;
use aliyun_ddns::reconcile::{ReconcileError, ReconciliationOutcome};
use aliyun_ddns::update_loop::{update_one, Level, LoopState, Notice};
use aliyun_ddns::PERIOD_MILLIS;

fn fail() -> ReconciliationOutcome {
    ReconciliationOutcome::Failed(ReconcileError::GetDomainRecords {
        cause: ProviderError::CmdFailed,
    })
}

fn unchanged() -> ReconciliationOutcome {
    ReconciliationOutcome::Unchanged { ip: "1.2.3.4".to_string() }
}

fn updated() -> ReconciliationOutcome {
    ReconciliationOutcome::Updated { ip: "5.6.7.8".to_string() }
}

fn notices(outcomes: Vec<ReconciliationOutcome>) -> Vec<Notice> {
    let mut state = LoopState::new();
    let mut out = Vec::new();
    for outcome in outcomes {
        let (next, notice) = update_one(state, "home", outcome);
        state = next;
        out.push(notice);
    }
    out
}

#[test]
fn period_is_sixty_seconds() {
    assert_eq!(PERIOD_MILLIS, 60 * 1000);
}

#[test]
fn loop_starts_without_a_success() {
    assert_eq!(LoopState::new(), LoopState { last_ok: false });
}

fn places(seen: &[Notice], wanted: fn(&Notice) -> bool) -> Vec<usize> {
    (0..seen.len()).filter(|i| wanted(&seen[*i])).collect()
}

#[test]
fn suppression_over_a_run_of_attempts() {
    let seen = notices(vec![fail(), unchanged(), unchanged(), updated()]);
    assert_eq!(places(&seen, |n| matches!(n, Notice::Unchanged { .. })), vec![1]);
    assert_eq!(places(&seen, |n| matches!(n, Notice::Updated { .. })), vec![3]);
    assert_eq!(places(&seen, |n| matches!(n, Notice::Failed { .. })), vec![0]);
    assert_eq!(places(&seen, |n| matches!(n, Notice::Silent)), vec![2]);
}

#[test]
fn unchanged_after_an_update_is_silent() {
    let seen = notices(vec![fail(), unchanged(), unchanged(), updated(), unchanged()]);
    assert_eq!(places(&seen, |n| matches!(n, Notice::Unchanged { .. })), vec![1]);
    assert_eq!(places(&seen, |n| matches!(n, Notice::Updated { .. })), vec![3]);
    assert_eq!(places(&seen, |n| matches!(n, Notice::Silent)), vec![2, 4]);
    assert_eq!(seen[4], Notice::Silent);
}

#[test]
fn first_unchanged_is_reported() {
    let seen = notices(vec![unchanged(), unchanged(), unchanged()]);
    assert_eq!(
        seen,
        vec![
            Notice::Unchanged { rr: "home".to_string(), ip: "1.2.3.4".to_string() },
            Notice::Silent,
            Notice::Silent,
        ]
    );
}

#[test]
fn every_failure_is_reported() {
    let seen = notices(vec![fail(), fail(), fail()]);
    assert_eq!(seen.len(), 3);
    for notice in seen {
        assert_eq!(
            notice,
            Notice::Failed {
                error: ReconcileError::GetDomainRecords { cause: ProviderError::CmdFailed }
            }
        );
    }
}

#[test]
fn every_update_is_reported() {
    let seen = notices(vec![updated(), updated(), unchanged(), updated()]);
    assert_eq!(
        seen,
        vec![
            Notice::Updated { rr: "home".to_string(), ip: "5.6.7.8".to_string() },
            Notice::Updated { rr: "home".to_string(), ip: "5.6.7.8".to_string() },
            Notice::Silent,
            Notice::Updated { rr: "home".to_string(), ip: "5.6.7.8".to_string() },
        ]
    );
}

#[test]
fn unchanged_after_a_failure_is_reported_again() {
    let seen = notices(vec![unchanged(), fail(), unchanged(), unchanged()]);
    assert!(matches!(seen[0], Notice::Unchanged { .. }));
    assert!(matches!(seen[1], Notice::Failed { .. }));
    assert!(matches!(seen[2], Notice::Unchanged { .. }));
    assert!(matches!(seen[3], Notice::Silent));
}

#[test]
fn update_one_sets_the_flag() {
    let before = LoopState { last_ok: true };
    assert_eq!(update_one(before, "home", fail()).0, LoopState { last_ok: false });
    assert_eq!(update_one(before, "home", unchanged()).0, LoopState { last_ok: true });
    assert_eq!(update_one(before, "home", updated()).0, LoopState { last_ok: true });
    let before = LoopState { last_ok: false };
    assert_eq!(update_one(before, "home", fail()).0, LoopState { last_ok: false });
    assert_eq!(update_one(before, "home", unchanged()).0, LoopState { last_ok: true });
    assert_eq!(update_one(before, "home", updated()).0, LoopState { last_ok: true });
}

#[test]
fn notice_texts() {
    assert_eq!(
        Notice::Updated { rr: "dev.test".to_string(), ip: "5.6.7.8".to_string() }.text(),
        Some("update domain record [dev.test] -> [5.6.7.8]".to_string())
    );
    assert_eq!(
        Notice::Unchanged { rr: "dev.test".to_string(), ip: "1.2.3.4".to_string() }.text(),
        Some("exist domain record [dev.test] = [1.2.3.4]".to_string())
    );
    assert_eq!(
        Notice::Failed { error: ReconcileError::NotFound { rr: "home".to_string() } }.text(),
        Some("update but [Not found RR [home]]".to_string())
    );
    assert_eq!(
        Notice::Failed {
            error: ReconcileError::UpdateDomainRecord { cause: ProviderError::NotUtf8 }
        }
        .text(),
        Some("update but [update_domain_record_a fail: stdout not string]".to_string())
    );
    assert_eq!(Notice::Silent.text(), None);
}

#[test]
fn notice_levels() {
    assert_eq!(
        Notice::Updated { rr: "a".to_string(), ip: "b".to_string() }.level(),
        Some(Level::Info)
    );
    assert_eq!(
        Notice::Unchanged { rr: "a".to_string(), ip: "b".to_string() }.level(),
        Some(Level::Info)
    );
    assert_eq!(
        Notice::Failed { error: ReconcileError::NotFound { rr: "a".to_string() } }.level(),
        Some(Level::Warn)
    );
    assert_eq!(Notice::Silent.level(), None);
}
