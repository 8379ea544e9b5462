//! Scan orchestration: which checks a scan considers, the permission
//! decision for each of them, the outcomes it records and the overall
//! rollup.
//!
//! A scan is a [`ScanSession`]. The caller asks it for the next check
//! ([`ScanSession::progress`]), hands it that check's stored permission
//! ([`ScanSession::decide`]), runs the check only when told to, and hands
//! back the result ([`ScanSession::complete`]); when every check has an
//! outcome, [`ScanSession::finish`] builds the scan record.

use crate::checks::{
    all_checks, catalog_spec, max_severity, CheckCategory, CheckKind, CheckOutcome, CheckResult,
    OutcomeModel, Severity,
};
use crate::history::{law_latest_after_save, saved, ScanRecord, MAX_HISTORY};
use crate::permissions::PermissionState;
use crate::text::same_text;
use vstd::prelude::*;

verus! {

pub const EVENT_PROGRESS: &'static str = "netguard://scan-progress";

pub const EVENT_RESULT: &'static str = "netguard://scan-result";

pub const EVENT_COMPLETE: &'static str = "netguard://scan-complete";

/// The message of the outcome of a check that failed while running.
pub const CHECK_FAILED_MESSAGE: &'static str = "The check failed unexpectedly while running.";

/// Progress of a running scan, sent before each check is considered.
#[derive(Debug, Clone)]
pub struct ScanProgressEvent {
    pub completed: usize,
    pub total: usize,
    pub running_id: String,
    pub running_name: String,
}

/// Summary of a finished scan.
#[derive(Debug, Clone)]
pub struct ScanCompleteEvent {
    pub id: String,
    pub timestamp: String,
    pub overall_severity: Severity,
    pub executed_count: usize,
    pub total_count: usize,
}

// ---------------------------------------------------------------------------
// Rollup
// ---------------------------------------------------------------------------

/// Worst severity among the executed (completed) outcomes, if any.
pub open spec fn worst(outs: Seq<OutcomeModel>) -> Option<Severity>
    decreases outs.len(),
{
    if outs.len() == 0 {
        None
    } else {
        match (worst(outs.drop_last()), outs.last().severity()) {
            (None, s) => s,
            (Some(w), None) => Some(w),
            (Some(w), Some(s)) => Some(max_severity(w, s)),
        }
    }
}

/// Number of executed (completed) outcomes.
pub open spec fn executed(outs: Seq<OutcomeModel>) -> nat
    decreases outs.len(),
{
    if outs.len() == 0 {
        0
    } else {
        executed(outs.drop_last()) + if outs.last().severity() is Some {
            1nat
        } else {
            0nat
        }
    }
}

/// The overall result: worst executed severity, or `Caution` when nothing
/// executed ("unknown" is not safe to report as green).
pub open spec fn rollup_spec(outs: Seq<OutcomeModel>) -> (Severity, nat) {
    match worst(outs) {
        Some(w) => (w, executed(outs)),
        None => (Severity::Caution, 0),
    }
}

pub proof fn lemma_worst_none_iff(outs: Seq<OutcomeModel>)
    ensures
        worst(outs) is None <==> executed(outs) == 0,
        executed(outs) <= outs.len(),
    decreases outs.len(),
{
    if outs.len() > 0 {
        lemma_worst_none_iff(outs.drop_last());
    }
}

pub proof fn lemma_executed_positive(outs: Seq<OutcomeModel>, i: int)
    requires
        0 <= i < outs.len(),
        outs[i].severity() is Some,
    ensures
        executed(outs) > 0,
    decreases outs.len(),
{
    if i < outs.len() - 1 {
        assert(outs[i] == outs.drop_last()[i]);
        lemma_executed_positive(outs.drop_last(), i);
    }
}

/// Worst severity among executed checks, and how many executed.
pub fn rollup(outcomes: &Vec<CheckOutcome>) -> (r: (Severity, usize))
    ensures
        (r.0, r.1 as nat) == rollup_spec(outcomes.deep_view()),
{
    let ghost outs = outcomes.deep_view();
    let mut w: Option<Severity> = None;
    let mut n: usize = 0;
    let mut k: usize = 0;
    while k < outcomes.len()
        invariant
            k <= outcomes.len(),
            outs == outcomes.deep_view(),
            w == worst(outs.take(k as int)),
            n == executed(outs.take(k as int)),
            n <= k,
        decreases outcomes.len() - k,
    {
        assert(outs.take(k + 1).drop_last() =~= outs.take(k as int));
        assert(outs.take(k + 1).last() == outcomes[k as int].deep_view());
        let s = outcomes[k].severity();
        match s {
            Some(sev) => {
                n = n + 1;
                w = match w {
                    None => Some(sev),
                    Some(cur) => Some(cur.max(sev)),
                };
            },
            None => {},
        }
        k = k + 1;
    }
    assert(outs.take(k as int) =~= outs);
    proof {
        lemma_worst_none_iff(outs);
    }
    match w {
        Some(sev) => (sev, n),
        None => (Severity::Caution, 0),
    }
}

/// If no check executed, the overall result is `Caution`, never `Okay`;
/// otherwise it is at least as severe as every executed check.
pub proof fn law_rollup(outs: Seq<OutcomeModel>)
    ensures
        executed(outs) == 0 ==> rollup_spec(outs) == (Severity::Caution, 0nat),
        forall|i: int|
            0 <= i < outs.len() && (#[trigger] outs[i].severity()) is Some ==> rollup_spec(outs).0.rank()
                >= outs[i].severity()->0.rank(),
        rollup_spec(outs).1 <= outs.len(),
    decreases outs.len(),
{
    lemma_worst_none_iff(outs);
    if outs.len() > 0 {
        law_rollup(outs.drop_last());
        lemma_worst_none_iff(outs.drop_last());
        let w0 = worst(outs.drop_last());
        assert forall|i: int|
            0 <= i < outs.len() && (#[trigger] outs[i].severity()) is Some implies rollup_spec(outs).0.rank()
                >= outs[i].severity()->0.rank() by {
            if i < outs.len() - 1 {
                assert(outs[i] == outs.drop_last()[i]);
                assert(outs.drop_last()[i].severity() is Some);
                assert(executed(outs.drop_last()) > 0) by {
                    lemma_executed_positive(outs.drop_last(), i);
                }
                assert(w0 is Some);
                assert(rollup_spec(outs.drop_last()).0 == w0->0);
            }
        }
    }
}

proof fn lemma_worst_attained(outs: Seq<OutcomeModel>)
    ensures
        worst(outs) matches Some(w) ==> exists|i: int| 0 <= i < outs.len() && (#[trigger] outs[i].severity()) == Some(w),
    decreases outs.len(),
{
    if outs.len() > 0 {
        let init = outs.drop_last();
        lemma_worst_attained(init);
        let last = outs.len() - 1;
        assert(outs[last] == outs.last());
        if let Some(w0) = worst(init) {
            let i = choose|i: int| 0 <= i < init.len() && (#[trigger] init[i].severity()) == Some(w0);
            assert(outs[i] == init[i]);
            assert(outs[i].severity() == Some(w0));
        }
    }
}

/// When some check executed, the overall result is the most severe
/// executed result: it is the severity of one executed check and at least
/// as severe as each, and the executed count is the number of completed
/// outcomes.
pub proof fn law_rollup_is_max(outs: Seq<OutcomeModel>)
    ensures
        executed(outs) > 0 ==> exists|i: int|
            0 <= i < outs.len() && (#[trigger] outs[i].severity()) == Some(rollup_spec(outs).0),
        executed(outs) > 0 ==> forall|i: int|
            0 <= i < outs.len() && (#[trigger] outs[i].severity()) is Some ==> rollup_spec(outs).0.rank()
                >= outs[i].severity()->0.rank(),
        rollup_spec(outs).1 == outs.filter(|o: OutcomeModel| o is Completed).len(),
{
    law_rollup(outs);
    lemma_worst_none_iff(outs);
    lemma_worst_attained(outs);
    lemma_executed_is_completed(outs);
}

proof fn lemma_executed_is_completed(outs: Seq<OutcomeModel>)
    ensures
        executed(outs) == outs.filter(|o: OutcomeModel| o is Completed).len(),
    decreases outs.len(),
{
    reveal(Seq::filter);
    if outs.len() > 0 {
        lemma_executed_is_completed(outs.drop_last());
    }
}

// ---------------------------------------------------------------------------
// Which checks a scan considers
// ---------------------------------------------------------------------------

/// The checks a scan considers: the full catalog when `categories` is
/// absent or empty, else the catalog checks whose category is listed, in
/// catalog order.
pub open spec fn selected_spec(categories: Option<Seq<CheckCategory>>) -> Seq<CheckKind> {
    match categories {
        Some(cats) if cats.len() > 0 => catalog_spec().filter(|k: CheckKind| cats.contains(k.spec_category())),
        _ => catalog_spec(),
    }
}

fn category_listed(cats: &[CheckCategory], c: CheckCategory) -> (r: bool)
    ensures
        r == cats@.contains(c),
{
    let mut k: usize = 0;
    while k < cats.len()
        invariant
            k <= cats@.len(),
            forall|m: int| 0 <= m < k ==> cats@[m] != c,
        decreases cats@.len() - k,
    {
        if cats[k] == c {
            return true;
        }
        k = k + 1;
    }
    false
}

/// The checks a scan considers (see [`selected_spec`]).
pub fn select_checks(categories: Option<&[CheckCategory]>) -> (r: Vec<CheckKind>)
    ensures
        r@ == selected_spec(
            match categories {
                Some(c) => Some(c@),
                None => None,
            },
        ),
{
    let all = all_checks();
    match categories {
        Some(cats) if cats.len() > 0 => {
            let ghost pred = |k: CheckKind| cats@.contains(k.spec_category());
            let mut r: Vec<CheckKind> = Vec::new();
            let mut k: usize = 0;
            while k < all.len()
                invariant
                    k <= all@.len(),
                    all@ == catalog_spec(),
                    pred == (|k: CheckKind| cats@.contains(k.spec_category())),
                    r@ == all@.take(k as int).filter(pred),
                decreases all@.len() - k,
            {
                proof {
                    reveal_with_fuel(Seq::<_>::filter, 1);
                    assert(all@.take(k + 1).drop_last() =~= all@.take(k as int));
                }
                if category_listed(cats, all[k].category()) {
                    r.push(all[k]);
                }
                k = k + 1;
            }
            assert(all@.take(k as int) =~= all@);
            r
        },
        _ => all,
    }
}

/// Static metadata for a check-agent, shown before anything runs.
#[derive(Debug, Clone)]
pub struct CheckMeta {
    pub id: String,
    pub name: String,
    pub category: CheckCategory,
    pub permission_description: String,
}

/// Metadata of every check of the catalog, in catalog order.
pub fn catalog() -> (r: Vec<CheckMeta>)
    ensures
        r@.len() == catalog_spec().len(),
        forall|k: int|
            0 <= k < r@.len() ==> (#[trigger] r@[k]).id@ == catalog_spec()[k].spec_id() && r@[k].name@
                == catalog_spec()[k].spec_name() && r@[k].category == catalog_spec()[k].spec_category()
                && r@[k].permission_description@ == catalog_spec()[k].spec_description(),
{
    let all = all_checks();
    let mut r: Vec<CheckMeta> = Vec::new();
    let mut k: usize = 0;
    while k < all.len()
        invariant
            k <= all@.len(),
            all@ == catalog_spec(),
            r@.len() == k,
            forall|m: int|
                0 <= m < k ==> (#[trigger] r@[m]).id@ == catalog_spec()[m].spec_id() && r@[m].name@
                    == catalog_spec()[m].spec_name() && r@[m].category == catalog_spec()[m].spec_category()
                    && r@[m].permission_description@ == catalog_spec()[m].spec_description(),
        decreases all@.len() - k,
    {
        let c = all[k];
        r.push(
            CheckMeta {
                id: String::from_str(c.id()),
                name: String::from_str(c.name()),
                category: c.category(),
                permission_description: String::from_str(c.permission_description()),
            },
        );
        k = k + 1;
    }
    r
}

// ---------------------------------------------------------------------------
// The permission decision
// ---------------------------------------------------------------------------

/// A check runs when its stored preference is `Allowed`, or when it is
/// `AskEveryTime` and the user approved it once for this very scan.
/// `Denied` never runs.
pub open spec fn may_run_spec(state: PermissionState, approved_once: Seq<Seq<char>>, id: Seq<char>) -> bool {
    ||| state == PermissionState::Allowed
    ||| (state == PermissionState::AskEveryTime && approved_once.contains(id))
}

/// Whether a check with stored preference `state` runs in this scan.
pub fn may_run(state: PermissionState, approved_once: &Vec<String>, id: &str) -> (r: bool)
    ensures
        r == may_run_spec(state, approved_once.deep_view(), id@),
{
    match state {
        PermissionState::Allowed => true,
        PermissionState::Denied => false,
        PermissionState::AskEveryTime => {
            let mut k: usize = 0;
            while k < approved_once.len()
                invariant
                    k <= approved_once@.len(),
                    state == PermissionState::AskEveryTime,
                    forall|m: int| 0 <= m < k ==> approved_once.deep_view()[m] != id@,
                decreases approved_once@.len() - k,
            {
                if same_text(approved_once[k].as_str(), id) {
                    assert(approved_once.deep_view()[k as int] == id@);
                    assert(approved_once.deep_view().contains(id@));
                    return true;
                }
                k = k + 1;
            }
            false
        },
    }
}

/// A background scan passes no one-time approvals, so it only ever runs
/// checks whose stored preference is `Allowed`.
pub proof fn law_background_runs_only_allowed(state: PermissionState, id: Seq<char>)
    ensures
        may_run_spec(state, Seq::<Seq<char>>::empty(), id) <==> state == PermissionState::Allowed,
{
}

/// `Denied` is never run, whatever was approved; `Allowed` always is.
pub proof fn law_denied_never_runs(approved_once: Seq<Seq<char>>, id: Seq<char>)
    ensures
        !may_run_spec(PermissionState::Denied, approved_once, id),
        may_run_spec(PermissionState::Allowed, approved_once, id),
{
}

/// The outcome recorded for a check that was not run for lack of
/// permission.
pub open spec fn denied_outcome(k: CheckKind) -> OutcomeModel {
    OutcomeModel::PermissionDenied { id: k.spec_id(), name: k.spec_name(), category: k.spec_category() }
}

/// The outcome recorded for a check that failed while running.
pub open spec fn failed_outcome(k: CheckKind) -> OutcomeModel {
    OutcomeModel::Error {
        id: k.spec_id(),
        name: k.spec_name(),
        category: k.spec_category(),
        message: CHECK_FAILED_MESSAGE@,
    }
}

/// An outcome as the rules allow it for check `k` with stored preference
/// `state`: a check that may not run is recorded as not run; a check that
/// may run is recorded as completed or as failed.
pub open spec fn outcome_fits(
    k: CheckKind,
    state: PermissionState,
    approved_once: Seq<Seq<char>>,
    o: OutcomeModel,
) -> bool {
    if may_run_spec(state, approved_once, k.spec_id()) {
        (o is Completed && o.id() == k.spec_id()) || o == failed_outcome(k)
    } else {
        o == denied_outcome(k)
    }
}

// ---------------------------------------------------------------------------
// The scan session
// ---------------------------------------------------------------------------

/// One scan in progress.
pub struct ScanSession {
    /// The checks this scan considers, in order.
    pub checks: Vec<CheckKind>,
    /// Checks the user approved once for this scan.
    pub approved_once: Vec<String>,
    /// The stored preference read for each check considered so far.
    pub states: Vec<PermissionState>,
    /// The outcome of each check considered so far.
    pub outcomes: Vec<CheckOutcome>,
}

impl ScanSession {
    /// Outcomes are recorded in check order, each as the permission rules
    /// allow; at most one check (the next) has a decision but no outcome.
    pub open spec fn well_formed(&self) -> bool {
        &&& self.outcomes@.len() <= self.states@.len() <= self.outcomes@.len() + 1
        &&& self.states@.len() <= self.checks@.len()
        &&& self.awaiting_result() ==> may_run_spec(
            self.states@[self.outcomes@.len() as int],
            self.approved_once.deep_view(),
            self.checks@[self.outcomes@.len() as int].spec_id(),
        )
        &&& forall|i: int|
            0 <= i < self.outcomes@.len() ==> outcome_fits(
                self.checks@[i],
                self.states@[i],
                self.approved_once.deep_view(),
                #[trigger] self.outcomes@[i].deep_view(),
            )
    }

    /// Whether the next check was decided to run and awaits its result.
    pub open spec fn awaiting_result(&self) -> bool {
        self.states@.len() == self.outcomes@.len() + 1
    }

    pub open spec fn done(&self) -> bool {
        self.outcomes@.len() == self.checks@.len()
    }

    /// Starts a scan over the checks selected by `categories` (see
    /// [`select_checks`]).
    pub fn start(approved_once: Vec<String>, categories: Option<&[CheckCategory]>) -> (s: ScanSession)
        ensures
            s.well_formed(),
            s.checks@ == selected_spec(
                match categories {
                    Some(c) => Some(c@),
                    None => None,
                },
            ),
            s.approved_once == approved_once,
            s.outcomes@.len() == 0,
            s.states@.len() == 0,
    {
        ScanSession {
            checks: select_checks(categories),
            approved_once,
            states: Vec::new(),
            outcomes: Vec::new(),
        }
    }

    pub fn is_done(&self) -> (r: bool)
        requires
            self.well_formed(),
        ensures
            r == self.done(),
    {
        self.outcomes.len() == self.checks.len()
    }

    /// The check that comes next, with the progress so far, or `None` when
    /// every check has an outcome.
    pub fn progress(&self) -> (r: Option<ScanProgressEvent>)
        requires
            self.well_formed(),
        ensures
            r is None <==> self.done(),
            r matches Some(e) ==> {
                &&& e.completed == self.outcomes@.len()
                &&& e.total == self.checks@.len()
                &&& e.running_id@ == self.checks@[self.outcomes@.len() as int].spec_id()
                &&& e.running_name@ == self.checks@[self.outcomes@.len() as int].spec_name()
            },
    {
        let i = self.outcomes.len();
        if i >= self.checks.len() {
            return None;
        }
        let k = self.checks[i];
        Some(
            ScanProgressEvent {
                completed: i,
                total: self.checks.len(),
                running_id: String::from_str(k.id()),
                running_name: String::from_str(k.name()),
            },
        )
    }

    /// Applies the stored preference `state` of the next check. Returns the
    /// check when it is to be run now (its result is then handed to
    /// [`ScanSession::complete`]); otherwise records it as not run and
    /// returns `None`. Does nothing when every check has an outcome or a
    /// result is already awaited.
    pub fn decide(&mut self, state: PermissionState) -> (r: Option<CheckKind>)
        requires
            old(self).well_formed(),
        ensures
            final(self).well_formed(),
            final(self).checks == old(self).checks,
            final(self).approved_once == old(self).approved_once,
            old(self).done() || old(self).awaiting_result() ==> *final(self) == *old(self) && r is None,
            !old(self).done() && !old(self).awaiting_result() ==> {
                let k = old(self).checks@[old(self).outcomes@.len() as int];
                &&& final(self).states@ == old(self).states@.push(state)
                &&& if may_run_spec(state, old(self).approved_once.deep_view(), k.spec_id()) {
                    &&& r == Some(k)
                    &&& final(self).outcomes == old(self).outcomes
                    &&& final(self).awaiting_result()
                } else {
                    &&& r is None
                    &&& final(self).outcomes@.len() == old(self).outcomes@.len() + 1
                    &&& final(self).outcomes@.last().deep_view() == denied_outcome(k)
                    &&& final(self).outcomes@.drop_last() == old(self).outcomes@
                }
            },
    {
        let i = self.outcomes.len();
        if i >= self.checks.len() || self.states.len() != i {
            return None;
        }
        let k = self.checks[i];
        self.states.push(state);
        if may_run(state, &self.approved_once, k.id()) {
            Some(k)
        } else {
            let ghost before = self.outcomes@;
            self.outcomes.push(
                CheckOutcome::PermissionDenied {
                    id: String::from_str(k.id()),
                    name: String::from_str(k.name()),
                    category: k.category(),
                },
            );
            assert(self.outcomes@.drop_last() =~= before);
            assert forall|j: int| 0 <= j < self.outcomes@.len() implies outcome_fits(
                self.checks@[j],
                self.states@[j],
                self.approved_once.deep_view(),
                #[trigger] self.outcomes@[j].deep_view(),
            ) by {
                if j < i {
                    assert(self.outcomes@[j] == before[j]);
                }
            }
            None
        }
    }

    /// Records the result of the check that was decided to run: `Some`
    /// result (that check's own) when it completed, `None` when it failed
    /// while running. Does nothing when no result is awaited.
    pub fn complete(&mut self, result: Option<CheckResult>)
        requires
            old(self).well_formed(),
            old(self).awaiting_result() ==> match result {
                Some(res) => res.deep_view().id == old(self).checks@[old(self).outcomes@.len() as int].spec_id(),
                None => true,
            },
        ensures
            final(self).well_formed(),
            final(self).checks == old(self).checks,
            final(self).approved_once == old(self).approved_once,
            final(self).states == old(self).states,
            !old(self).awaiting_result() ==> final(self).outcomes == old(self).outcomes,
            old(self).awaiting_result() ==> {
                let k = old(self).checks@[old(self).outcomes@.len() as int];
                &&& final(self).outcomes@.len() == old(self).outcomes@.len() + 1
                &&& final(self).outcomes@.drop_last() == old(self).outcomes@
                &&& final(self).outcomes@.last().deep_view() == match result {
                    Some(res) => OutcomeModel::Completed(res.deep_view()),
                    None => failed_outcome(k),
                }
            },
    {
        let i = self.outcomes.len();
        if self.states.len() <= i {
            return;
        }
        let k = self.checks[i];
        let ghost before = self.outcomes@;
        let ghost state = self.states@[i as int];
        let outcome = match result {
            Some(res) => CheckOutcome::Completed(res),
            None => CheckOutcome::Error {
                id: String::from_str(k.id()),
                name: String::from_str(k.name()),
                category: k.category(),
                message: String::from_str(CHECK_FAILED_MESSAGE),
            },
        };
        self.outcomes.push(outcome);
        assert(self.outcomes@.drop_last() =~= before);
        assert forall|j: int| 0 <= j < self.outcomes@.len() implies outcome_fits(
            self.checks@[j],
            self.states@[j],
            self.approved_once.deep_view(),
            #[trigger] self.outcomes@[j].deep_view(),
        ) by {
            if j < i {
                assert(self.outcomes@[j] == before[j]);
            }
        }
    }

    /// What `finish` gives for this session: the record holds the given id
    /// and time, the session's outcomes, their rollup and the number of
    /// checks considered; the completion summary repeats them.
    pub open spec fn finished(self, id: String, timestamp: String, r: (ScanRecord, ScanCompleteEvent)) -> bool {
        &&& r.0.id == id
        &&& r.0.timestamp == timestamp
        &&& r.0.outcomes == self.outcomes
        &&& (r.0.overall_severity, r.0.executed_count as nat) == rollup_spec(self.outcomes.deep_view())
        &&& r.0.total_count == self.checks@.len()
        &&& r.1.id@ == id@
        &&& r.1.timestamp@ == timestamp@
        &&& r.1.overall_severity == r.0.overall_severity
        &&& r.1.executed_count == r.0.executed_count
        &&& r.1.total_count == r.0.total_count
    }

    /// Builds the record and the completion summary of a finished scan.
    pub fn finish(self, id: String, timestamp: String) -> (r: (ScanRecord, ScanCompleteEvent))
        requires
            self.well_formed(),
            self.done(),
        ensures
            self.finished(id, timestamp, r),
    {
        let (overall, executed_count) = rollup(&self.outcomes);
        let total = self.checks.len();
        let event = ScanCompleteEvent {
            id: id.clone(),
            timestamp: timestamp.clone(),
            overall_severity: overall,
            executed_count,
            total_count: total,
        };
        let record = ScanRecord {
            id,
            timestamp,
            overall_severity: overall,
            executed_count,
            total_count: total,
            outcomes: self.outcomes,
        };
        (record, event)
    }
}

/// Every outcome of a well-formed scan obeys the permission rules: a check
/// whose preference is `Denied` (or `AskEveryTime` without a one-time
/// approval) is recorded as not run, only checks that may run are recorded
/// as completed, and the outcome recorded at each position carries the id
/// of the check considered there.
pub proof fn law_outcomes_obey_permissions(s: ScanSession, i: int)
    requires
        s.well_formed(),
        0 <= i < s.outcomes@.len(),
    ensures
        s.outcomes@[i].deep_view() is Completed ==> may_run_spec(
            s.states@[i],
            s.approved_once.deep_view(),
            s.checks@[i].spec_id(),
        ),
        s.states@[i] == PermissionState::Denied ==> s.outcomes@[i].deep_view() == denied_outcome(
            s.checks@[i],
        ),
        !may_run_spec(s.states@[i], s.approved_once.deep_view(), s.checks@[i].spec_id())
            ==> s.outcomes@[i].deep_view() == denied_outcome(s.checks@[i]),
        s.outcomes@[i].deep_view().id() == s.checks@[i].spec_id(),
{
    assert(outcome_fits(s.checks@[i], s.states@[i], s.approved_once.deep_view(), s.outcomes@[i].deep_view()));
}

/// A whole scan run: a session started for `categories` and carried to
/// the end gives a record with one outcome per considered check (the whole
/// catalog when no category is chosen, else the catalog's checks of the
/// chosen categories), in catalog order, each carrying that check's id; its
/// total, overall result and executed count are those of the outcomes; the
/// completion summary repeats the record's id and counts; and saving the
/// record puts it first in the history, ahead of the older records, with at
/// most `MAX_HISTORY` kept.
pub proof fn law_scan_run(
    s: ScanSession,
    categories: Option<Seq<CheckCategory>>,
    id: String,
    timestamp: String,
    r: (ScanRecord, ScanCompleteEvent),
    history: Seq<ScanRecord>,
)
    requires
        s.well_formed(),
        s.done(),
        s.checks@ == selected_spec(categories),
        s.finished(id, timestamp, r),
    ensures
        r.0.outcomes@.len() == selected_spec(categories).len(),
        r.1.total_count == selected_spec(categories).len(),
        forall|i: int|
            0 <= i < r.0.outcomes@.len() ==> (#[trigger] r.0.outcomes@[i]).deep_view().id()
                == selected_spec(categories)[i].spec_id(),
        (r.1.overall_severity, r.1.executed_count as nat) == rollup_spec(r.0.outcomes.deep_view()),
        r.1.id@ == r.0.id@,
        saved(history, r.0)[0] == r.0,
        saved(history, r.0).len() <= MAX_HISTORY,
        forall|k: int| 1 <= k < saved(history, r.0).len() ==> saved(history, r.0)[k] == history[k - 1],
{
    assert forall|i: int| 0 <= i < r.0.outcomes@.len() implies (#[trigger] r.0.outcomes@[i]).deep_view().id()
        == selected_spec(categories)[i].spec_id() by {
        law_outcomes_obey_permissions(s, i);
    }
    law_latest_after_save(history, r.0);
}

// ---------------------------------------------------------------------------
// Baseline seeding
// ---------------------------------------------------------------------------

/// `(check id, raw keys)` of every completed outcome, in order.
pub open spec fn completed_keys(outs: Seq<OutcomeModel>) -> Seq<(Seq<char>, Seq<Seq<char>>)>
    decreases outs.len(),
{
    if outs.len() == 0 {
        seq![]
    } else {
        completed_keys(outs.drop_last()) + match outs.last() {
            OutcomeModel::Completed(r) => seq![(r.id, r.raw_keys)],
            _ => seq![],
        }
    }
}

/// The raw keys of the previous scan's completed checks, to seed baseline
/// diffing; empty when there is no previous scan.
pub fn previous_raw_keys(latest: Option<&ScanRecord>) -> (r: Vec<(String, Vec<String>)>)
    ensures
        r.deep_view() == match latest {
            Some(rec) => completed_keys(rec.outcomes.deep_view()),
            None => seq![],
        },
{
    let mut r: Vec<(String, Vec<String>)> = Vec::new();
    match latest {
        None => {
            assert(r.deep_view() =~= seq![]);
            r
        },
        Some(rec) => {
            let ghost outs = rec.outcomes.deep_view();
            let mut k: usize = 0;
            assert(r.deep_view() =~= completed_keys(outs.take(0)));
            while k < rec.outcomes.len()
                invariant
                    k <= rec.outcomes.len(),
                    outs == rec.outcomes.deep_view(),
                    r.deep_view() == completed_keys(outs.take(k as int)),
                decreases rec.outcomes.len() - k,
            {
                assert(outs.take(k + 1).drop_last() =~= outs.take(k as int));
                assert(outs.take(k + 1).last() == rec.outcomes[k as int].deep_view());
                let ghost before = r.deep_view();
                match &rec.outcomes[k] {
                    CheckOutcome::Completed(res) => {
                        r.push((res.id.clone(), res.raw_keys.clone()));
                        proof {
                            assert(r@.last().1@ =~= res.raw_keys@);
                            assert(r@.last().1.deep_view() =~= res.raw_keys.deep_view());
                            assert(r.deep_view() =~= before + seq![(res.id@, res.raw_keys.deep_view())]);
                        }
                    },
                    _ => {
                        assert(r.deep_view() =~= before + seq![]);
                    },
                }
                k = k + 1;
            }
            assert(outs.take(k as int) =~= outs);
            r
        },
    }
}

} // verus!
