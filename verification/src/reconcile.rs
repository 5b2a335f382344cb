//! One reconciliation attempt, as a state machine.
//!
//! An attempt asks for the public IP address, then for the records of the
//! domain, compares the value of the record with the wanted host prefix to the
//! address, and asks for an update only where the two differ. The machine here
//! never performs a request: [`ReconcileState::request`] says what to ask
//! next, the caller asks, and [`update_aliyun_ddns`] takes the answer.

use crate::aliyun_cli::{DomainRecord, DomainRecordView, ProviderError};
use vstd::prelude::*;
use vstd::string::*;

verus! {

/// What is kept current: a host prefix within a zone.
#[derive(Debug, PartialEq, Eq)]
pub struct Target {
    /// The DNS zone.
    pub domain: String,
    /// The host prefix of the record.
    pub rr: String,
}

impl Clone for Target {
    fn clone(&self) -> (copy: Self)
        ensures
            copy@ == self@,
    {
        Target { domain: self.domain.clone(), rr: self.rr.clone() }
    }
}

/// The mathematical content of a [`Target`].
pub struct TargetView {
    pub domain: Seq<char>,
    pub rr: Seq<char>,
}

impl View for Target {
    type V = TargetView;

    open spec fn view(&self) -> TargetView {
        TargetView { domain: self.domain@, rr: self.rr@ }
    }
}

/// Why an attempt failed.
#[derive(Debug, PartialEq, Eq)]
pub enum ReconcileError {
    /// The public IP address could not be discovered, for the given reason.
    GetMyIp { reason: String },
    /// The records of the domain could not be listed.
    GetDomainRecords { cause: ProviderError },
    /// No listed record has the host prefix `rr`.
    NotFound { rr: String },
    /// The provider did not accept the update.
    UpdateDomainRecord { cause: ProviderError },
}

/// The mathematical content of a [`ReconcileError`].
pub enum ReconcileErrorView {
    GetMyIp { reason: Seq<char> },
    GetDomainRecords { cause: ProviderError },
    NotFound { rr: Seq<char> },
    UpdateDomainRecord { cause: ProviderError },
}

impl View for ReconcileError {
    type V = ReconcileErrorView;

    open spec fn view(&self) -> ReconcileErrorView {
        match self {
            ReconcileError::GetMyIp { reason } => ReconcileErrorView::GetMyIp { reason: reason@ },
            ReconcileError::GetDomainRecords { cause } => ReconcileErrorView::GetDomainRecords {
                cause: *cause,
            },
            ReconcileError::NotFound { rr } => ReconcileErrorView::NotFound { rr: rr@ },
            ReconcileError::UpdateDomainRecord { cause } => ReconcileErrorView::UpdateDomainRecord {
                cause: *cause,
            },
        }
    }
}

/// How an attempt ended.
#[derive(Debug, PartialEq, Eq)]
pub enum ReconciliationOutcome {
    /// The record already held the address `ip`.
    Unchanged { ip: String },
    /// The record was set to the address `ip`.
    Updated { ip: String },
    /// The attempt failed.
    Failed(ReconcileError),
}

/// The mathematical content of a [`ReconciliationOutcome`].
pub enum OutcomeView {
    Unchanged { ip: Seq<char> },
    Updated { ip: Seq<char> },
    Failed(ReconcileErrorView),
}

impl View for ReconciliationOutcome {
    type V = OutcomeView;

    open spec fn view(&self) -> OutcomeView {
        match self {
            ReconciliationOutcome::Unchanged { ip } => OutcomeView::Unchanged { ip: ip@ },
            ReconciliationOutcome::Updated { ip } => OutcomeView::Updated { ip: ip@ },
            ReconciliationOutcome::Failed(e) => OutcomeView::Failed(e@),
        }
    }
}

/// A request to the outside world.
#[derive(Debug, PartialEq, Eq)]
pub enum Request {
    /// Discover the public IP address.
    DiscoverIp,
    /// List the records of `domain`.
    ListRecords { domain: String },
    /// Set the `A` record `record_id`, with host prefix `rr`, to `value`.
    UpdateRecord { record_id: String, rr: String, value: String },
}

/// The mathematical content of a [`Request`].
pub enum RequestView {
    DiscoverIp,
    ListRecords { domain: Seq<char> },
    UpdateRecord { record_id: Seq<char>, rr: Seq<char>, value: Seq<char> },
}

impl View for Request {
    type V = RequestView;

    open spec fn view(&self) -> RequestView {
        match self {
            Request::DiscoverIp => RequestView::DiscoverIp,
            Request::ListRecords { domain } => RequestView::ListRecords { domain: domain@ },
            Request::UpdateRecord { record_id, rr, value } => RequestView::UpdateRecord {
                record_id: record_id@,
                rr: rr@,
                value: value@,
            },
        }
    }
}

/// The answer to a request.
#[derive(Debug, PartialEq, Eq)]
pub enum Event {
    /// The discovered address, or why there is none.
    Ip(Result<String, String>),
    /// The listed records, in the provider's order, or why there are none.
    Records(Result<Vec<DomainRecord>, ProviderError>),
    /// Whether the provider accepted the update.
    Updated(Result<(), ProviderError>),
}

/// The mathematical content of an [`Event`].
pub enum EventView {
    Ip(Result<Seq<char>, Seq<char>>),
    Records(Result<Seq<DomainRecordView>, ProviderError>),
    Updated(Result<(), ProviderError>),
}

impl View for Event {
    type V = EventView;

    open spec fn view(&self) -> EventView {
        match self {
            Event::Ip(Ok(ip)) => EventView::Ip(Ok(ip@)),
            Event::Ip(Err(reason)) => EventView::Ip(Err(reason@)),
            Event::Records(Ok(records)) => EventView::Records(Ok(records.deep_view())),
            Event::Records(Err(e)) => EventView::Records(Err(*e)),
            Event::Updated(r) => EventView::Updated(*r),
        }
    }
}

/// Where an attempt stands: which answer it waits for, and what it has
/// learned so far.
#[derive(Debug, PartialEq, Eq)]
pub enum ReconcileState {
    /// Waiting for the public IP address.
    AwaitIp,
    /// Waiting for the records; the address is `ip`.
    AwaitRecords { ip: String },
    /// Waiting for the update of record `record_id`, with host prefix `rr`,
    /// to `ip`.
    AwaitUpdate { ip: String, record_id: String, rr: String },
}

/// The mathematical content of a [`ReconcileState`].
pub enum StateView {
    AwaitIp,
    AwaitRecords { ip: Seq<char> },
    AwaitUpdate { ip: Seq<char>, record_id: Seq<char>, rr: Seq<char> },
}

impl View for ReconcileState {
    type V = StateView;

    open spec fn view(&self) -> StateView {
        match self {
            ReconcileState::AwaitIp => StateView::AwaitIp,
            ReconcileState::AwaitRecords { ip } => StateView::AwaitRecords { ip: ip@ },
            ReconcileState::AwaitUpdate { ip, record_id, rr } => StateView::AwaitUpdate {
                ip: ip@,
                record_id: record_id@,
                rr: rr@,
            },
        }
    }
}

/// What an answer leads to: another request, or the end of the attempt.
#[derive(Debug, PartialEq, Eq)]
pub enum Step {
    /// The attempt goes on from this state.
    Next(ReconcileState),
    /// The attempt is over.
    Done(ReconciliationOutcome),
}

/// The mathematical content of a [`Step`].
pub enum StepView {
    Next(StateView),
    Done(OutcomeView),
}

impl View for Step {
    type V = StepView;

    open spec fn view(&self) -> StepView {
        match self {
            Step::Next(state) => StepView::Next(state@),
            Step::Done(outcome) => StepView::Done(outcome@),
        }
    }
}

/// The index of the first record at or after `from` whose host prefix is `rr`.
pub open spec fn find_record_from(records: Seq<DomainRecordView>, rr: Seq<char>, from: int)
    -> Option<int>
    decreases records.len() - from,
{
    if from < 0 || from >= records.len() {
        None
    } else if records[from].rr == rr {
        Some(from)
    } else {
        find_record_from(records, rr, from + 1)
    }
}

/// The index of the first record whose host prefix is `rr`.
pub open spec fn find_record(records: Seq<DomainRecordView>, rr: Seq<char>) -> Option<int> {
    find_record_from(records, rr, 0)
}

/// What a state waits for.
pub open spec fn request_of(target: TargetView, state: StateView) -> RequestView {
    match state {
        StateView::AwaitIp => RequestView::DiscoverIp,
        StateView::AwaitRecords { .. } => RequestView::ListRecords { domain: target.domain },
        StateView::AwaitUpdate { ip, record_id, rr } => RequestView::UpdateRecord {
            record_id,
            rr,
            value: ip,
        },
    }
}

/// What follows from a listing, given the wanted host prefix and the
/// discovered address.
///
/// The first record with the host prefix decides. Its value is compared to
/// the address as text.
pub open spec fn diff(rr: Seq<char>, ip: Seq<char>, records: Seq<DomainRecordView>) -> StepView {
    match find_record(records, rr) {
        None => StepView::Done(OutcomeView::Failed(ReconcileErrorView::NotFound { rr })),
        Some(i) => if records[i].value == ip {
            StepView::Done(OutcomeView::Unchanged { ip })
        } else {
            StepView::Next(
                StateView::AwaitUpdate { ip, record_id: records[i].record_id, rr: records[i].rr },
            )
        },
    }
}

/// What an answer leads to in a state.
///
/// An event that does not answer the request of the state changes nothing:
/// the state stays, and with it the request.
pub open spec fn step_of(target: TargetView, state: StateView, event: EventView) -> StepView {
    match (state, event) {
        (StateView::AwaitIp, EventView::Ip(Ok(ip))) => StepView::Next(
            StateView::AwaitRecords { ip },
        ),
        (StateView::AwaitIp, EventView::Ip(Err(reason))) => StepView::Done(
            OutcomeView::Failed(ReconcileErrorView::GetMyIp { reason }),
        ),
        (StateView::AwaitRecords { ip }, EventView::Records(Ok(records))) => diff(
            target.rr,
            ip,
            records,
        ),
        (StateView::AwaitRecords { .. }, EventView::Records(Err(cause))) => StepView::Done(
            OutcomeView::Failed(ReconcileErrorView::GetDomainRecords { cause }),
        ),
        (StateView::AwaitUpdate { ip, .. }, EventView::Updated(Ok(_))) => StepView::Done(
            OutcomeView::Updated { ip },
        ),
        (StateView::AwaitUpdate { .. }, EventView::Updated(Err(cause))) => StepView::Done(
            OutcomeView::Failed(ReconcileErrorView::UpdateDomainRecord { cause }),
        ),
        _ => StepView::Next(state),
    }
}

impl ReconcileState {
    /// The state every attempt starts in.
    pub fn start() -> (state: Self)
        ensures
            state@ == StateView::AwaitIp,
    {
        ReconcileState::AwaitIp
    }

    /// The request this state waits for the answer to.
    pub fn request(&self, target: &Target) -> (request: Request)
        ensures
            request@ == request_of(target@, self@),
    {
        match self {
            ReconcileState::AwaitIp => Request::DiscoverIp,
            ReconcileState::AwaitRecords { .. } => Request::ListRecords {
                domain: target.domain.clone(),
            },
            ReconcileState::AwaitUpdate { ip, record_id, rr } => Request::UpdateRecord {
                record_id: record_id.clone(),
                rr: rr.clone(),
                value: ip.clone(),
            },
        }
    }
}

/// Finds the first record whose host prefix is `rr`.
pub fn find_record_index(records: &Vec<DomainRecord>, rr: &str) -> (found: Option<usize>)
    ensures
        match found {
            Some(i) => i < records.len() && find_record(records.deep_view(), rr@) == Some(
                i as int,
            ),
            None => find_record(records.deep_view(), rr@) is None,
        },
{
    let wanted = String::from_str(rr);
    let mut i: usize = 0;
    while i < records.len()
        invariant
            i <= records.len(),
            wanted@ == rr@,
            find_record(records.deep_view(), rr@) == find_record_from(
                records.deep_view(),
                rr@,
                i as int,
            ),
        decreases records.len() - i,
    {
        if records[i].rr == wanted {
            return Some(i);
        }
        i = i + 1;
    }
    None
}

/// Decides what follows from a listing.
///
/// Fails where no record has the host prefix `rr`, ends the attempt where the
/// first such record already holds `ip`, and otherwise goes on to the update
/// of that record.
pub fn plan_update(rr: &str, ip: String, records: &Vec<DomainRecord>) -> (step: Step)
    ensures
        step@ == diff(rr@, ip@, records.deep_view()),
{
    match find_record_index(records, rr) {
        None => Step::Done(
            ReconciliationOutcome::Failed(ReconcileError::NotFound { rr: String::from_str(rr) }),
        ),
        Some(i) => {
            let record = &records[i];
            if record.value == ip {
                Step::Done(ReconciliationOutcome::Unchanged { ip })
            } else {
                Step::Next(
                    ReconcileState::AwaitUpdate {
                        ip,
                        record_id: record.record_id.clone(),
                        rr: record.rr.clone(),
                    },
                )
            }
        },
    }
}

/// Takes one answer and says how the attempt goes on.
pub fn update_aliyun_ddns(target: &Target, state: ReconcileState, event: Event) -> (step: Step)
    ensures
        step@ == step_of(target@, state@, event@),
{
    match (state, event) {
        (ReconcileState::AwaitIp, Event::Ip(Ok(ip))) => Step::Next(
            ReconcileState::AwaitRecords { ip },
        ),
        (ReconcileState::AwaitIp, Event::Ip(Err(reason))) => Step::Done(
            ReconciliationOutcome::Failed(ReconcileError::GetMyIp { reason }),
        ),
        (ReconcileState::AwaitRecords { ip }, Event::Records(Ok(records))) => plan_update(
            target.rr.as_str(),
            ip,
            &records,
        ),
        (ReconcileState::AwaitRecords { .. }, Event::Records(Err(cause))) => Step::Done(
            ReconciliationOutcome::Failed(ReconcileError::GetDomainRecords { cause }),
        ),
        (ReconcileState::AwaitUpdate { ip, .. }, Event::Updated(Ok(_))) => Step::Done(
            ReconciliationOutcome::Updated { ip },
        ),
        (ReconcileState::AwaitUpdate { .. }, Event::Updated(Err(cause))) => Step::Done(
            ReconciliationOutcome::Failed(ReconcileError::UpdateDomainRecord { cause }),
        ),
        (state, _) => Step::Next(state),
    }
}

/// The text of an error: which step failed, then the cause where one is
/// known.
pub open spec fn error_text(error: ReconcileErrorView) -> Seq<char> {
    match error {
        ReconcileErrorView::GetMyIp { reason } => "get_my_ip fail: "@ + reason,
        ReconcileErrorView::GetDomainRecords { cause } => "get_domain_records fail: "@
            + cause.message_of(),
        ReconcileErrorView::NotFound { rr } => "Not found RR ["@ + rr + "]"@,
        ReconcileErrorView::UpdateDomainRecord { cause } => "update_domain_record_a fail: "@
            + cause.message_of(),
    }
}

impl ReconcileError {
    /// The text of the error.
    pub fn message(&self) -> (text: String)
        ensures
            text@ == error_text(self@),
    {
        match self {
            ReconcileError::GetMyIp { reason } => {
                let mut text = String::from_str("get_my_ip fail: ");
                text.append(reason.as_str());
                text
            },
            ReconcileError::GetDomainRecords { cause } => {
                let mut text = String::from_str("get_domain_records fail: ");
                text.append(cause.message().as_str());
                text
            },
            ReconcileError::NotFound { rr } => {
                let mut text = String::from_str("Not found RR [");
                text.append(rr.as_str());
                text.append("]");
                text
            },
            ReconcileError::UpdateDomainRecord { cause } => {
                let mut text = String::from_str("update_domain_record_a fail: ");
                text.append(cause.message().as_str());
                text
            },
        }
    }
}

/// The result of an attempt as a caller of a single call would see it.
pub open spec fn result_of(outcome: OutcomeView) -> Result<(Seq<char>, bool), ReconcileErrorView> {
    match outcome {
        OutcomeView::Unchanged { ip } => Ok((ip, false)),
        OutcomeView::Updated { ip } => Ok((ip, true)),
        OutcomeView::Failed(e) => Err(e),
    }
}

/// The view of a result that holds an address and whether it was written.
pub open spec fn result_view(r: Result<(String, bool), ReconcileError>) -> Result<
    (Seq<char>, bool),
    ReconcileErrorView,
> {
    match r {
        Ok((ip, updated)) => Ok((ip@, updated)),
        Err(e) => Err(e@),
    }
}

impl ReconciliationOutcome {
    /// The address and whether the record was updated, or the error.
    pub fn into_result(self) -> (r: Result<(String, bool), ReconcileError>)
        ensures
            result_view(r) == result_of(self@),
    {
        match self {
            ReconciliationOutcome::Unchanged { ip } => Ok((ip, false)),
            ReconciliationOutcome::Updated { ip } => Ok((ip, true)),
            ReconciliationOutcome::Failed(e) => Err(e),
        }
    }
}

/// The index that [`find_record`] gives is that of a record with the host
/// prefix, no record before it has the prefix, and where it gives none, no
/// record has the prefix.
pub proof fn find_record_is_first_match(records: Seq<DomainRecordView>, rr: Seq<char>)
    ensures
        match find_record(records, rr) {
            Some(i) => {
                &&& 0 <= i < records.len()
                &&& records[i].rr == rr
                &&& forall|j: int| 0 <= j < i ==> records[j].rr != rr
            },
            None => forall|j: int| 0 <= j < records.len() ==> records[j].rr != rr,
        },
{
    find_record_from_is_first_match(records, rr, 0);
}

proof fn find_record_from_is_first_match(records: Seq<DomainRecordView>, rr: Seq<char>, from: int)
    requires
        0 <= from,
    ensures
        match find_record_from(records, rr, from) {
            Some(i) => {
                &&& from <= i < records.len()
                &&& records[i].rr == rr
                &&& forall|j: int| from <= j < i ==> records[j].rr != rr
            },
            None => forall|j: int| from <= j < records.len() ==> records[j].rr != rr,
        },
    decreases records.len() - from,
{
    if from < records.len() && records[from].rr != rr {
        find_record_from_is_first_match(records, rr, from + 1);
    }
}

} // verus!
