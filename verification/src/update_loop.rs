//! What the update loop remembers between attempts, and what it reports.
//!
//! The loop makes one attempt per period. A failure is reported every time.
//! An update is reported every time. An unchanged record is reported only
//! when the attempt before it did not succeed, so a steady state is silent.

use crate::reconcile::{
    error_text, OutcomeView, ReconcileError, ReconcileErrorView, ReconciliationOutcome,
};
use vstd::prelude::*;
use vstd::string::*;

verus! {

/// The state the loop keeps from one attempt to the next.
#[derive(Clone, Copy, Debug, PartialEq, Eq, Structural)]
pub struct LoopState {
    /// Whether the attempt before this one succeeded. False before the first.
    pub last_ok: bool,
}

/// How loud a notice is.
#[derive(Clone, Copy, Debug, PartialEq, Eq, Structural)]
pub enum Level {
    Info,
    Warn,
}

/// What the loop reports after an attempt.
#[derive(Debug, PartialEq, Eq)]
pub enum Notice {
    /// The record with host prefix `rr` was set to `ip`.
    Updated { rr: String, ip: String },
    /// The record with host prefix `rr` already held `ip`.
    Unchanged { rr: String, ip: String },
    /// The attempt failed.
    Failed { error: ReconcileError },
    /// Nothing is reported.
    Silent,
}

/// The mathematical content of a [`Notice`].
pub enum NoticeView {
    Updated { rr: Seq<char>, ip: Seq<char> },
    Unchanged { rr: Seq<char>, ip: Seq<char> },
    Failed { error: ReconcileErrorView },
    Silent,
}

impl View for Notice {
    type V = NoticeView;

    open spec fn view(&self) -> NoticeView {
        match self {
            Notice::Updated { rr, ip } => NoticeView::Updated { rr: rr@, ip: ip@ },
            Notice::Unchanged { rr, ip } => NoticeView::Unchanged { rr: rr@, ip: ip@ },
            Notice::Failed { error } => NoticeView::Failed { error: error@ },
            Notice::Silent => NoticeView::Silent,
        }
    }
}

/// What is reported after an attempt with this outcome, when `last_ok` tells
/// whether the attempt before it succeeded.
pub open spec fn notice_of(rr: Seq<char>, last_ok: bool, outcome: OutcomeView) -> NoticeView {
    match outcome {
        OutcomeView::Updated { ip } => NoticeView::Updated { rr, ip },
        OutcomeView::Unchanged { ip } => if last_ok {
            NoticeView::Silent
        } else {
            NoticeView::Unchanged { rr, ip }
        },
        OutcomeView::Failed(error) => NoticeView::Failed { error },
    }
}

/// The state for the next attempt and what is reported, after an attempt on
/// the host prefix `rr` that began in `state` and ended with `outcome`.
pub open spec fn update_one_of(state: LoopState, rr: Seq<char>, outcome: OutcomeView) -> (
    LoopState,
    NoticeView,
) {
    (LoopState { last_ok: !(outcome is Failed) }, notice_of(rr, state.last_ok, outcome))
}

impl LoopState {
    /// The state before the first attempt.
    pub fn new() -> (state: Self)
        ensures
            state == Self::initial(),
    {
        LoopState { last_ok: false }
    }

    /// The state before the first attempt: no attempt has succeeded yet.
    pub open spec fn initial() -> Self {
        LoopState { last_ok: false }
    }
}

/// Takes the outcome of an attempt on the host prefix `rr`: gives the state
/// for the next attempt and what to report.
pub fn update_one(state: LoopState, rr: &str, outcome: ReconciliationOutcome) -> (r: (
    LoopState,
    Notice,
))
    ensures
        (r.0, r.1@) == update_one_of(state, rr@, outcome@),
{
    match outcome {
        ReconciliationOutcome::Updated { ip } => (
            LoopState { last_ok: true },
            Notice::Updated { rr: String::from_str(rr), ip },
        ),
        ReconciliationOutcome::Unchanged { ip } => {
            let notice = if state.last_ok {
                Notice::Silent
            } else {
                Notice::Unchanged { rr: String::from_str(rr), ip }
            };
            (LoopState { last_ok: true }, notice)
        },
        ReconciliationOutcome::Failed(error) => (
            LoopState { last_ok: false },
            Notice::Failed { error },
        ),
    }
}

/// The text of a notice, or none for the silent one.
pub open spec fn notice_text(notice: NoticeView) -> Option<Seq<char>> {
    match notice {
        NoticeView::Updated { rr, ip } => Some(
            "update domain record ["@ + rr + "] -> ["@ + ip + "]"@,
        ),
        NoticeView::Unchanged { rr, ip } => Some(
            "exist domain record ["@ + rr + "] = ["@ + ip + "]"@,
        ),
        NoticeView::Failed { error } => Some("update but ["@ + error_text(error) + "]"@),
        NoticeView::Silent => None,
    }
}

/// The level of a notice, or none for the silent one.
pub open spec fn notice_level(notice: NoticeView) -> Option<Level> {
    match notice {
        NoticeView::Updated { .. } => Some(Level::Info),
        NoticeView::Unchanged { .. } => Some(Level::Info),
        NoticeView::Failed { .. } => Some(Level::Warn),
        NoticeView::Silent => None,
    }
}

/// The view of an optional text.
pub open spec fn text_view(text: Option<String>) -> Option<Seq<char>> {
    match text {
        Some(t) => Some(t@),
        None => None,
    }
}

impl Notice {
    /// The level to report at, or none where nothing is reported.
    pub fn level(&self) -> (level: Option<Level>)
        ensures
            level == notice_level(self@),
    {
        match self {
            Notice::Updated { .. } => Some(Level::Info),
            Notice::Unchanged { .. } => Some(Level::Info),
            Notice::Failed { .. } => Some(Level::Warn),
            Notice::Silent => None,
        }
    }

    /// The text to report, or none where nothing is reported.
    pub fn text(&self) -> (text: Option<String>)
        ensures
            text_view(text) == notice_text(self@),
    {
        match self {
            Notice::Updated { rr, ip } => {
                let mut text = String::from_str("update domain record [");
                text.append(rr.as_str());
                text.append("] -> [");
                text.append(ip.as_str());
                text.append("]");
                Some(text)
            },
            Notice::Unchanged { rr, ip } => {
                let mut text = String::from_str("exist domain record [");
                text.append(rr.as_str());
                text.append("] = [");
                text.append(ip.as_str());
                text.append("]");
                Some(text)
            },
            Notice::Failed { error } => {
                let mut text = String::from_str("update but [");
                text.append(error.message().as_str());
                text.append("]");
                Some(text)
            },
            Notice::Silent => None,
        }
    }
}

/// The state before attempt `i` of a loop on the host prefix `rr` whose
/// attempts end as `outcomes` tells: the initial state, taken through the
/// first `i` outcomes.
pub open spec fn state_before(rr: Seq<char>, outcomes: Seq<OutcomeView>, i: int) -> LoopState
    decreases i,
{
    if i <= 0 {
        LoopState::initial()
    } else {
        update_one_of(state_before(rr, outcomes, i - 1), rr, outcomes[i - 1]).0
    }
}

/// What is reported after attempt `i` of that loop.
pub open spec fn notice_at(rr: Seq<char>, outcomes: Seq<OutcomeView>, i: int) -> NoticeView {
    update_one_of(state_before(rr, outcomes, i), rr, outcomes[i]).1
}

/// Over any run of attempts: a failure is always reported, an update is
/// always reported, and an unchanged record is reported exactly when it
/// comes first or right after a failure.
pub proof fn suppression(rr: Seq<char>, outcomes: Seq<OutcomeView>, i: int)
    requires
        0 <= i < outcomes.len(),
    ensures
        notice_at(rr, outcomes, i) is Failed <==> outcomes[i] is Failed,
        notice_at(rr, outcomes, i) is Updated <==> outcomes[i] is Updated,
        notice_at(rr, outcomes, i) is Unchanged <==> outcomes[i] is Unchanged && (i == 0
            || outcomes[i - 1] is Failed),
        notice_at(rr, outcomes, i) is Silent <==> outcomes[i] is Unchanged && i > 0 && !(outcomes[i
            - 1] is Failed),
{
}

} // verus!
