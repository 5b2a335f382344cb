use aliyun_ddns::aliyun_cli::{DomainRecord, ProviderError};
use aliyun_ddns::attempt::{reconcile, Answers};
use aliyun_ddns::reconcile::{
    find_record_index, plan_update, update_aliyun_ddns, Event, ReconcileError, ReconcileState,
    ReconciliationOutcome, Request, Step, Target,
};

fn home() -> Target {
    Target { domain: "example.com".to_string(), rr: "home".to_string() }
}

fn rec(id: &str, rr: &str, value: &str) -> DomainRecord {
    DomainRecord {
        domain_name: "example.com".to_string(),
        record_id: id.to_string(),
        rtype: "A".to_string(),
        value: value.to_string(),
        rr: rr.to_string(),
        ttl: 600,
        line: "default".to_string(),
        locked: false,
        status: "ENABLE".to_string(),
        weight: None,
    }
}

/// Makes one attempt against fixed answers.
fn attempt(
    target: &Target,
    ip: Result<String, String>,
    records: Result<Vec<DomainRecord>, ProviderError>,
    update: Result<(), ProviderError>,
) -> (Vec<Request>, ReconciliationOutcome) {
    reconcile(target, Answers { ip, records, update })
}

/// Drives the machine as a caller with real requests would: asks what the
/// state requests, answers it, and goes on until the attempt is over.
fn drive(
    target: &Target,
    ip: Result<String, String>,
    records: Result<Vec<DomainRecord>, ProviderError>,
    update: Result<(), ProviderError>,
) -> (Vec<Request>, ReconciliationOutcome) {
    let mut requests = Vec::new();
    let mut state = ReconcileState::start();
    loop {
        assert!(requests.len() < 3);
        let request = state.request(target);
        let event = match &request {
            Request::DiscoverIp => Event::Ip(ip.clone()),
            Request::ListRecords { .. } => Event::Records(records.clone()),
            Request::UpdateRecord { .. } => Event::Updated(update),
        };
        requests.push(request);
        match update_aliyun_ddns(target, state, event) {
            Step::Next(next) => state = next,
            Step::Done(outcome) => return (requests, outcome),
        }
    }
}

fn listing() -> Request {
    Request::ListRecords { domain: "example.com".to_string() }
}

#[test]
fn equal_value_is_not_updated() {
    let (requests, outcome) = attempt(
        &home(),
        Ok("1.2.3.4".to_string()),
        Ok(vec![rec("1", "home", "1.2.3.4")]),
        Ok(()),
    );
    assert_eq!(requests, vec![Request::DiscoverIp, listing()]);
    assert_eq!(outcome.into_result(), Ok(("1.2.3.4".to_string(), false)));
}

#[test]
fn other_value_is_updated_once() {
    let (requests, outcome) = attempt(
        &home(),
        Ok("5.6.7.8".to_string()),
        Ok(vec![rec("1", "home", "1.2.3.4")]),
        Ok(()),
    );
    assert_eq!(
        requests,
        vec![
            Request::DiscoverIp,
            listing(),
            Request::UpdateRecord {
                record_id: "1".to_string(),
                rr: "home".to_string(),
                value: "5.6.7.8".to_string(),
            },
        ]
    );
    assert_eq!(outcome.into_result(), Ok(("5.6.7.8".to_string(), true)));
}

#[test]
fn missing_record_fails_without_update() {
    let (requests, outcome) = attempt(
        &home(),
        Ok("1.2.3.4".to_string()),
        Ok(vec![rec("1", "www", "1.2.3.4"), rec("2", "homer", "9.9.9.9")]),
        Ok(()),
    );
    assert_eq!(requests, vec![Request::DiscoverIp, listing()]);
    assert_eq!(
        outcome,
        ReconciliationOutcome::Failed(ReconcileError::NotFound { rr: "home".to_string() })
    );
}

#[test]
fn empty_listing_fails_without_update() {
    let (requests, outcome) = attempt(&home(), Ok("1.2.3.4".to_string()), Ok(Vec::new()), Ok(()));
    assert_eq!(requests.len(), 2);
    assert_eq!(
        outcome.into_result(),
        Err(ReconcileError::NotFound { rr: "home".to_string() })
    );
}

#[test]
fn failed_discovery_ends_the_attempt() {
    let (requests, outcome) = attempt(
        &home(),
        Err("timeout".to_string()),
        Ok(vec![rec("1", "home", "1.2.3.4")]),
        Ok(()),
    );
    assert_eq!(requests, vec![Request::DiscoverIp]);
    assert_eq!(
        outcome,
        ReconciliationOutcome::Failed(ReconcileError::GetMyIp { reason: "timeout".to_string() })
    );
}

#[test]
fn failed_listing_ends_the_attempt() {
    let (requests, outcome) =
        attempt(&home(), Ok("1.2.3.4".to_string()), Err(ProviderError::CmdFailed), Ok(()));
    assert_eq!(requests, vec![Request::DiscoverIp, listing()]);
    assert_eq!(
        outcome,
        ReconciliationOutcome::Failed(ReconcileError::GetDomainRecords {
            cause: ProviderError::CmdFailed
        })
    );
}

#[test]
fn refused_update_fails_the_attempt() {
    let (requests, outcome) = attempt(
        &home(),
        Ok("5.6.7.8".to_string()),
        Ok(vec![rec("1", "home", "1.2.3.4")]),
        Err(ProviderError::InvalidJson),
    );
    assert_eq!(requests.len(), 3);
    assert_eq!(
        outcome,
        ReconciliationOutcome::Failed(ReconcileError::UpdateDomainRecord {
            cause: ProviderError::InvalidJson
        })
    );
}

#[test]
fn first_record_with_the_prefix_decides() {
    let records = vec![
        rec("7", "www", "5.6.7.8"),
        rec("8", "home", "1.1.1.1"),
        rec("9", "home", "5.6.7.8"),
    ];
    let (requests, outcome) =
        attempt(&home(), Ok("5.6.7.8".to_string()), Ok(records.clone()), Ok(()));
    assert_eq!(
        requests[2],
        Request::UpdateRecord {
            record_id: "8".to_string(),
            rr: "home".to_string(),
            value: "5.6.7.8".to_string(),
        }
    );
    assert_eq!(outcome, ReconciliationOutcome::Updated { ip: "5.6.7.8".to_string() });
    let (requests, outcome) = attempt(&home(), Ok("1.1.1.1".to_string()), Ok(records), Ok(()));
    assert_eq!(requests.len(), 2);
    assert_eq!(outcome, ReconciliationOutcome::Unchanged { ip: "1.1.1.1".to_string() });
}

#[test]
fn values_are_compared_as_text() {
    let (requests, outcome) = attempt(
        &home(),
        Ok("1.2.3.4".to_string()),
        Ok(vec![rec("1", "home", "01.2.3.4")]),
        Ok(()),
    );
    assert_eq!(requests.len(), 3);
    assert_eq!(outcome.into_result(), Ok(("1.2.3.4".to_string(), true)));
}

#[test]
fn find_record_index_gives_the_first_match() {
    let records = vec![rec("1", "a", "x"), rec("2", "b", "x"), rec("3", "b", "y")];
    assert_eq!(find_record_index(&records, "a"), Some(0));
    assert_eq!(find_record_index(&records, "b"), Some(1));
    assert_eq!(find_record_index(&records, "c"), None);
    assert_eq!(find_record_index(&records, ""), None);
    assert_eq!(find_record_index(&Vec::new(), "a"), None);
}

#[test]
fn plan_update_covers_the_three_cases() {
    let records = vec![rec("1", "a", "x"), rec("2", "b", "y")];
    assert_eq!(
        plan_update("b", "y".to_string(), &records),
        Step::Done(ReconciliationOutcome::Unchanged { ip: "y".to_string() })
    );
    assert_eq!(
        plan_update("b", "z".to_string(), &records),
        Step::Next(ReconcileState::AwaitUpdate {
            ip: "z".to_string(),
            record_id: "2".to_string(),
            rr: "b".to_string(),
        })
    );
    assert_eq!(
        plan_update("c", "z".to_string(), &records),
        Step::Done(ReconciliationOutcome::Failed(ReconcileError::NotFound {
            rr: "c".to_string()
        }))
    );
}

#[test]
fn each_state_asks_for_its_answer() {
    let target = home();
    assert_eq!(ReconcileState::start(), ReconcileState::AwaitIp);
    assert_eq!(ReconcileState::AwaitIp.request(&target), Request::DiscoverIp);
    assert_eq!(
        ReconcileState::AwaitRecords { ip: "1.2.3.4".to_string() }.request(&target),
        listing()
    );
    assert_eq!(
        ReconcileState::AwaitUpdate {
            ip: "1.2.3.4".to_string(),
            record_id: "42".to_string(),
            rr: "home".to_string(),
        }
        .request(&target),
        Request::UpdateRecord {
            record_id: "42".to_string(),
            rr: "home".to_string(),
            value: "1.2.3.4".to_string(),
        }
    );
}

#[test]
fn an_event_that_answers_nothing_changes_nothing() {
    let target = home();
    assert_eq!(
        update_aliyun_ddns(&target, ReconcileState::AwaitIp, Event::Updated(Ok(()))),
        Step::Next(ReconcileState::AwaitIp)
    );
    assert_eq!(
        update_aliyun_ddns(&target, ReconcileState::AwaitIp, Event::Records(Ok(Vec::new()))),
        Step::Next(ReconcileState::AwaitIp)
    );
    let waiting = ReconcileState::AwaitRecords { ip: "1.2.3.4".to_string() };
    assert_eq!(
        update_aliyun_ddns(&target, waiting, Event::Ip(Ok("9.9.9.9".to_string()))),
        Step::Next(ReconcileState::AwaitRecords { ip: "1.2.3.4".to_string() })
    );
    let updating = ReconcileState::AwaitUpdate {
        ip: "1.2.3.4".to_string(),
        record_id: "1".to_string(),
        rr: "home".to_string(),
    };
    assert_eq!(
        update_aliyun_ddns(&target, updating, Event::Records(Err(ProviderError::NotUtf8))),
        Step::Next(ReconcileState::AwaitUpdate {
            ip: "1.2.3.4".to_string(),
            record_id: "1".to_string(),
            rr: "home".to_string(),
        })
    );
}

#[test]
fn into_result_tells_whether_the_record_was_written() {
    assert_eq!(
        ReconciliationOutcome::Unchanged { ip: "a".to_string() }.into_result(),
        Ok(("a".to_string(), false))
    );
    assert_eq!(
        ReconciliationOutcome::Updated { ip: "a".to_string() }.into_result(),
        Ok(("a".to_string(), true))
    );
    assert_eq!(
        ReconciliationOutcome::Failed(ReconcileError::GetMyIp { reason: "x".to_string() })
            .into_result(),
        Err(ReconcileError::GetMyIp { reason: "x".to_string() })
    );
}

#[test]
fn reconcile_error_messages() {
    assert_eq!(
        ReconcileError::GetMyIp { reason: "no route".to_string() }.message(),
        "get_my_ip fail: no route"
    );
    assert_eq!(
        ReconcileError::GetDomainRecords { cause: ProviderError::CmdFailed }.message(),
        "get_domain_records fail: cmd output fail"
    );
    assert_eq!(
        ReconcileError::NotFound { rr: "dev.test".to_string() }.message(),
        "Not found RR [dev.test]"
    );
    assert_eq!(
        ReconcileError::UpdateDomainRecord { cause: ProviderError::InvalidJson }.message(),
        "update_domain_record_a fail: invalid json"
    );
}

#[test]
fn target_clone_is_equal() {
    assert_eq!(home().clone(), home());
}

#[test]
fn driving_the_machine_gives_the_same_attempt() {
    let records = vec![rec("7", "www", "5.6.7.8"), rec("8", "home", "1.1.1.1")];
    let worlds: Vec<(
        Result<String, String>,
        Result<Vec<DomainRecord>, ProviderError>,
        Result<(), ProviderError>,
    )> = vec![
        (Ok("1.1.1.1".to_string()), Ok(records.clone()), Ok(())),
        (Ok("2.2.2.2".to_string()), Ok(records.clone()), Ok(())),
        (Ok("2.2.2.2".to_string()), Ok(records.clone()), Err(ProviderError::CmdFailed)),
        (Ok("2.2.2.2".to_string()), Ok(Vec::new()), Ok(())),
        (Ok("2.2.2.2".to_string()), Err(ProviderError::ExecFailed), Ok(())),
        (Err("down".to_string()), Ok(records.clone()), Ok(())),
    ];
    for (ip, listed, update) in worlds {
        assert_eq!(
            drive(&home(), ip.clone(), listed.clone(), update),
            attempt(&home(), ip, listed, update)
        );
    }
}
