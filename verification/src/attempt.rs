//! A whole attempt, and what holds of every attempt.
//!
//! The machine of [`crate::reconcile`] is run here against a world that has
//! one answer to each kind of request. What is proved of such runs holds of
//! every caller that asks what the machine requests and hands back what it
//! is told.

use crate::aliyun_cli::{DomainRecord, DomainRecordView, ProviderError};
use crate::reconcile::{
    find_record, find_record_is_first_match, request_of, result_of, step_of, update_aliyun_ddns,
    Event, EventView, OutcomeView, ReconcileErrorView, ReconcileState, ReconciliationOutcome,
    Request, RequestView, StateView, Step, StepView, Target, TargetView,
};
use vstd::prelude::*;

verus! {

/// What the outside world answers during one attempt.
pub struct World {
    /// The answer to the discovery of the address.
    pub ip: Result<Seq<char>, Seq<char>>,
    /// The answer to the listing of the records.
    pub records: Result<Seq<DomainRecordView>, ProviderError>,
    /// The answer to an update.
    pub update: Result<(), ProviderError>,
}

/// The answer of `world` to `request`.
pub open spec fn answer(world: World, request: RequestView) -> EventView {
    match request {
        RequestView::DiscoverIp => EventView::Ip(world.ip),
        RequestView::ListRecords { .. } => EventView::Records(world.records),
        RequestView::UpdateRecord { .. } => EventView::Updated(world.update),
    }
}

/// An attempt as far as it was run: the requests made, in order, and the
/// outcome where it has ended.
pub struct Attempt {
    pub requests: Seq<RequestView>,
    pub outcome: Option<OutcomeView>,
}

/// Runs the machine from `state` against `world`, for at most `steps`
/// requests.
pub open spec fn run(target: TargetView, world: World, state: StateView, steps: nat) -> Attempt
    decreases steps,
{
    if steps == 0 {
        Attempt { requests: Seq::empty(), outcome: None }
    } else {
        let request = request_of(target, state);
        match step_of(target, state, answer(world, request)) {
            StepView::Done(outcome) => Attempt { requests: seq![request], outcome: Some(outcome) },
            StepView::Next(next) => {
                let rest = run(target, world, next, (steps - 1) as nat);
                Attempt { requests: seq![request] + rest.requests, outcome: rest.outcome }
            },
        }
    }
}

/// A whole attempt against `world`: the machine run from its start.
pub open spec fn reconcile_of(target: TargetView, world: World) -> Attempt {
    run(target, world, StateView::AwaitIp, 3)
}

/// The answers of the outside world, one to each kind of request.
#[derive(Debug, PartialEq, Eq)]
pub struct Answers {
    /// The discovered address, or why there is none.
    pub ip: Result<String, String>,
    /// The listed records, or why there are none.
    pub records: Result<Vec<DomainRecord>, ProviderError>,
    /// Whether the provider accepts an update.
    pub update: Result<(), ProviderError>,
}

impl View for Answers {
    type V = World;

    open spec fn view(&self) -> World {
        World {
            ip: match self.ip {
                Ok(ip) => Ok(ip@),
                Err(reason) => Err(reason@),
            },
            records: match self.records {
                Ok(records) => Ok(records.deep_view()),
                Err(cause) => Err(cause),
            },
            update: self.update,
        }
    }
}

/// The views of a list of requests, in order.
pub open spec fn requests_view(requests: Seq<Request>) -> Seq<RequestView> {
    Seq::new(requests.len(), |i: int| requests[i]@)
}

/// Makes a whole attempt against the given answers: gives every request
/// made, in order, and the outcome.
pub fn reconcile(target: &Target, answers: Answers) -> (r: (Vec<Request>, ReconciliationOutcome))
    ensures
        reconcile_of(target@, answers@) == (Attempt {
            requests: requests_view(r.0@),
            outcome: Some(r.1@),
        }),
{
    proof {
        reveal_with_fuel(run, 4);
    }
    let ghost world = answers@;
    let mut requests: Vec<Request> = Vec::new();
    let start = ReconcileState::start();
    requests.push(start.request(target));
    let listing = match update_aliyun_ddns(target, start, Event::Ip(answers.ip)) {
        Step::Next(state) => state,
        Step::Done(outcome) => {
            assert(requests_view(requests@) =~= reconcile_of(target@, world).requests);
            return (requests, outcome);
        },
    };
    requests.push(listing.request(target));
    let updating = match update_aliyun_ddns(target, listing, Event::Records(answers.records)) {
        Step::Next(state) => state,
        Step::Done(outcome) => {
            assert(requests_view(requests@) =~= reconcile_of(target@, world).requests);
            return (requests, outcome);
        },
    };
    requests.push(updating.request(target));
    match update_aliyun_ddns(target, updating, Event::Updated(answers.update)) {
        Step::Next(_) => vstd::pervasive::unreached(),
        Step::Done(outcome) => {
            assert(requests_view(requests@) =~= reconcile_of(target@, world).requests);
            (requests, outcome)
        },
    }
}

/// Every attempt ends, after at most three requests, the first of which
/// asks for the address.
pub proof fn reconcile_ends(target: TargetView, world: World)
    ensures
        reconcile_of(target, world).outcome is Some,
        1 <= reconcile_of(target, world).requests.len() <= 3,
        reconcile_of(target, world).requests[0] == RequestView::DiscoverIp,
{
    reveal_with_fuel(run, 4);
}

/// Where the first record with the host prefix holds the discovered
/// address, the attempt reports the address as not updated and asks for no
/// update: its requests are the discovery and the listing.
pub proof fn equal_value_is_left_alone(
    target: TargetView,
    world: World,
    ip: Seq<char>,
    records: Seq<DomainRecordView>,
    i: int,
)
    requires
        world.ip == Ok::<_, Seq<char>>(ip),
        world.records == Ok::<_, ProviderError>(records),
        find_record(records, target.rr) == Some(i),
        records[i].value == ip,
    ensures
        reconcile_of(target, world).outcome == Some(OutcomeView::Unchanged { ip }),
        result_of(OutcomeView::Unchanged { ip }) == Ok::<_, ReconcileErrorView>((ip, false)),
        reconcile_of(target, world).requests == seq![
            RequestView::DiscoverIp,
            RequestView::ListRecords { domain: target.domain },
        ],
{
    reveal_with_fuel(run, 4);
}

/// Where the first record with the host prefix holds another value than the
/// discovered address, the attempt asks for exactly one update: of that
/// record, under its host prefix, to the address. Where the provider accepts
/// the update, the attempt reports the address as updated.
pub proof fn other_value_is_updated_once(
    target: TargetView,
    world: World,
    ip: Seq<char>,
    records: Seq<DomainRecordView>,
    i: int,
)
    requires
        world.ip == Ok::<_, Seq<char>>(ip),
        world.records == Ok::<_, ProviderError>(records),
        find_record(records, target.rr) == Some(i),
        records[i].value != ip,
        world.update is Ok,
    ensures
        reconcile_of(target, world).outcome == Some(OutcomeView::Updated { ip }),
        result_of(OutcomeView::Updated { ip }) == Ok::<_, ReconcileErrorView>((ip, true)),
        reconcile_of(target, world).requests == seq![
            RequestView::DiscoverIp,
            RequestView::ListRecords { domain: target.domain },
            RequestView::UpdateRecord {
                record_id: records[i].record_id,
                rr: records[i].rr,
                value: ip,
            },
        ],
        records[i].rr == target.rr,
{
    find_record_is_first_match(records, target.rr);
    reveal_with_fuel(run, 4);
}

/// Where the provider refuses that update, the attempt fails with the
/// provider's error, after the same three requests.
pub proof fn refused_update_fails(
    target: TargetView,
    world: World,
    ip: Seq<char>,
    records: Seq<DomainRecordView>,
    i: int,
)
    requires
        world.ip == Ok::<_, Seq<char>>(ip),
        world.records == Ok::<_, ProviderError>(records),
        find_record(records, target.rr) == Some(i),
        records[i].value != ip,
        world.update is Err,
    ensures
        reconcile_of(target, world).outcome == Some(
            OutcomeView::Failed(
                ReconcileErrorView::UpdateDomainRecord { cause: world.update->Err_0 },
            ),
        ),
        reconcile_of(target, world).requests == seq![
            RequestView::DiscoverIp,
            RequestView::ListRecords { domain: target.domain },
            RequestView::UpdateRecord {
                record_id: records[i].record_id,
                rr: records[i].rr,
                value: ip,
            },
        ],
{
    reveal_with_fuel(run, 4);
}

/// Where no listed record has the host prefix, the attempt fails, naming the
/// prefix, and asks for no update: its requests are the discovery and the
/// listing.
pub proof fn missing_record_fails_without_update(
    target: TargetView,
    world: World,
    ip: Seq<char>,
    records: Seq<DomainRecordView>,
)
    requires
        world.ip == Ok::<_, Seq<char>>(ip),
        world.records == Ok::<_, ProviderError>(records),
        forall|j: int| 0 <= j < records.len() ==> (#[trigger] records[j]).rr != target.rr,
    ensures
        reconcile_of(target, world).outcome == Some(
            OutcomeView::Failed(ReconcileErrorView::NotFound { rr: target.rr }),
        ),
        reconcile_of(target, world).requests == seq![
            RequestView::DiscoverIp,
            RequestView::ListRecords { domain: target.domain },
        ],
{
    find_record_is_first_match(records, target.rr);
    reveal_with_fuel(run, 4);
}

/// Where the address cannot be discovered, the attempt fails at once: it
/// asks for nothing else.
pub proof fn failed_discovery_asks_nothing_more(target: TargetView, world: World)
    requires
        world.ip is Err,
    ensures
        reconcile_of(target, world).outcome == Some(
            OutcomeView::Failed(ReconcileErrorView::GetMyIp { reason: world.ip->Err_0 }),
        ),
        reconcile_of(target, world).requests == seq![RequestView::DiscoverIp],
{
    reveal_with_fuel(run, 4);
}

/// Where the records cannot be listed, the attempt fails and asks for no
/// update.
pub proof fn failed_listing_asks_for_no_update(target: TargetView, world: World)
    requires
        world.ip is Ok,
        world.records is Err,
    ensures
        reconcile_of(target, world).outcome == Some(
            OutcomeView::Failed(
                ReconcileErrorView::GetDomainRecords { cause: world.records->Err_0 },
            ),
        ),
        reconcile_of(target, world).requests == seq![
            RequestView::DiscoverIp,
            RequestView::ListRecords { domain: target.domain },
        ],
{
    reveal_with_fuel(run, 4);
}

/// An attempt asks for an update only as its third request, and only where
/// the first listed record with the host prefix holds another value than the
/// discovered address.
pub proof fn update_only_on_difference(target: TargetView, world: World, k: int)
    requires
        0 <= k < reconcile_of(target, world).requests.len(),
        reconcile_of(target, world).requests[k] is UpdateRecord,
    ensures
        k == 2,
        world.ip is Ok,
        world.records is Ok,
        find_record(world.records->Ok_0, target.rr) is Some,
        world.records->Ok_0[find_record(world.records->Ok_0, target.rr)->0].value
            != world.ip->Ok_0,
{
    reveal_with_fuel(run, 4);
    if world.records is Ok {
        find_record_is_first_match(world.records->Ok_0, target.rr);
    }
}

} // verus!
