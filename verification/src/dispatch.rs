//! The query dispatcher: which sessions run for which server, in what
//! order, and what the batch comes to.
//!
//! The work for one server is a unit. Units run side by side and share
//! nothing; inside a unit the kinds are queried one after the other, and the
//! first failure ends the unit.

use crate::codec::QueryKind;
use crate::error::QueryError;
use crate::protocol::{initial, pending};
use crate::session::{Action, QuerySession};
use vstd::prelude::*;
use vstd::slice::slice_to_vec;

verus! {

/// How the work for one server ended.
#[derive(Clone, Copy, Debug, PartialEq, Eq)]
pub enum UnitOutcome {
    /// Every kind was queried and answered.
    Completed,
    /// The session of this kind failed; the kinds after it were not queried.
    Failed { kind: QueryKind, error: QueryError },
}

/// How the whole batch ended.
#[derive(Clone, Copy, Debug, PartialEq, Eq)]
pub enum BatchOutcome {
    /// Every unit completed.
    Success,
    /// At least one unit failed. The fields speak of the first such unit in
    /// the order of the plan.
    Failure { unit: usize, kind: QueryKind, error: QueryError },
}

/// The work for one server as a plain value.
pub struct UnitModel {
    /// The address string of the server, as configured.
    pub address: Seq<char>,
    /// The kinds to query, in order.
    pub kinds: Seq<QueryKind>,
    /// How many kinds have been answered.
    pub position: nat,
    /// The error of the kind at `position`, once its session has failed.
    pub failure: Option<QueryError>,
}

/// The unit for `address` before any session has run.
pub open spec fn unit_start(address: Seq<char>, kinds: Seq<QueryKind>) -> UnitModel {
    UnitModel { address, kinds, position: 0, failure: None }
}

/// The kind whose session is to run next, if the unit is not over.
pub open spec fn upcoming(unit: UnitModel) -> Option<QueryKind> {
    if unit.failure is None && unit.position < unit.kinds.len() {
        Some(unit.kinds[unit.position as int])
    } else {
        None
    }
}

/// The unit after the session of the upcoming kind has ended with `result`.
/// A unit that is over stays as it is.
pub open spec fn settled(unit: UnitModel, result: Result<(), QueryError>) -> UnitModel {
    if upcoming(unit) is None {
        unit
    } else {
        match result {
            Ok(_) => UnitModel { position: unit.position + 1, ..unit },
            Err(error) => UnitModel { failure: Some(error), ..unit },
        }
    }
}

/// How the unit ended, once it is over.
pub open spec fn unit_outcome(unit: UnitModel) -> Option<UnitOutcome> {
    if upcoming(unit) is Some {
        None
    } else {
        match unit.failure {
            Some(error) => Some(
                UnitOutcome::Failed { kind: unit.kinds[unit.position as int], error },
            ),
            None => Some(UnitOutcome::Completed),
        }
    }
}

/// What holds of every unit that `unit_start` and `settled` can reach.
pub open spec fn unit_well_formed(unit: UnitModel) -> bool {
    &&& unit.position <= unit.kinds.len()
    &&& unit.failure is Some ==> unit.position < unit.kinds.len()
}

/// The unit after its sessions have ended with `results`, in order.
pub open spec fn run_unit(unit: UnitModel, results: Seq<Result<(), QueryError>>) -> UnitModel
    decreases results.len(),
{
    if results.len() == 0 {
        unit
    } else {
        run_unit(settled(unit, results[0]), results.drop_first())
    }
}

/// The kinds whose sessions are started while the unit takes in `results`:
/// the kind upcoming before each result, as long as there is one.
pub open spec fn attempted(unit: UnitModel, results: Seq<Result<(), QueryError>>) -> Seq<QueryKind>
    decreases results.len(),
{
    if results.len() == 0 {
        Seq::empty()
    } else {
        match upcoming(unit) {
            Some(kind) => seq![kind] + attempted(settled(unit, results[0]), results.drop_first()),
            None => Seq::empty(),
        }
    }
}

/// How many results at the front of `results` are responses.
pub open spec fn answered(results: Seq<Result<(), QueryError>>) -> nat
    decreases results.len(),
{
    if results.len() == 0 || results[0] is Err {
        0
    } else {
        answered(results.drop_first()) + 1
    }
}

/// The kinds that every server is queried for, in order.
pub open spec fn standard_kinds() -> Seq<QueryKind> {
    seq![QueryKind::Info, QueryKind::Player]
}

/// Whether unit `i` failed and no unit before it did.
pub open spec fn is_first_failure(outcomes: Seq<UnitOutcome>, i: int) -> bool {
    &&& 0 <= i < outcomes.len()
    &&& outcomes[i] is Failed
    &&& forall|j: int| 0 <= j < i ==> outcomes[j] is Completed
}

/// What a batch with these unit outcomes comes to: success if every unit
/// completed, else the failure of the first unit that failed.
pub open spec fn is_batch_outcome(outcomes: Seq<UnitOutcome>, result: BatchOutcome) -> bool {
    match result {
        BatchOutcome::Success => forall|i: int| 0 <= i < outcomes.len() ==> outcomes[i] is Completed,
        BatchOutcome::Failure { unit, kind, error } => {
            &&& is_first_failure(outcomes, unit as int)
            &&& outcomes[unit as int] == UnitOutcome::Failed { kind, error }
        },
    }
}

/// A step keeps a unit well formed and never touches its address or kinds.
pub proof fn lemma_settled_keeps_well_formed(unit: UnitModel, result: Result<(), QueryError>)
    requires
        unit_well_formed(unit),
    ensures
        unit_well_formed(settled(unit, result)),
        settled(unit, result).address == unit.address,
        settled(unit, result).kinds == unit.kinds,
{
}

/// The first failure ends a unit: no kind is upcoming any more, further
/// results change nothing, and the outcome names the kind that failed.
pub proof fn law_failure_ends_unit(
    unit: UnitModel,
    error: QueryError,
    later: Seq<Result<(), QueryError>>,
)
    requires
        unit_well_formed(unit),
        upcoming(unit) is Some,
    ensures
        ({
            let failed = settled(unit, Err(error));
            &&& upcoming(failed) is None
            &&& unit_outcome(failed) == Some(
                UnitOutcome::Failed { kind: upcoming(unit)->0, error },
            )
            &&& run_unit(failed, later) == failed
            &&& attempted(failed, later) == Seq::<QueryKind>::empty()
        }),
    decreases later.len(),
{
    if later.len() > 0 {
        law_failure_ends_unit(unit, error, later.drop_first());
    }
}

/// The responses at the front of `results` end at the first failure.
pub proof fn lemma_answered(results: Seq<Result<(), QueryError>>)
    ensures
        answered(results) <= results.len(),
        answered(results) < results.len() ==> results[answered(results) as int] is Err,
        forall|i: int| 0 <= i < answered(results) ==> results[i] is Ok,
    decreases results.len(),
{
    if results.len() > 0 && results[0] is Ok {
        let rest = results.drop_first();
        lemma_answered(rest);
        assert forall|i: int| 0 <= i < answered(results) implies results[i] is Ok by {
            if i > 0 {
                assert(results[i] == rest[i - 1]);
            }
        }
    }
}

/// What a unit without a failure comes to when its sessions end with
/// `results`: the kinds are attempted in the order of the plan, from the
/// position of the unit on, up to and including the first that fails.
pub proof fn lemma_run_unit(unit: UnitModel, results: Seq<Result<(), QueryError>>)
    requires
        unit_well_formed(unit),
        unit.failure is None,
    ensures
        ({
            let end = run_unit(unit, results);
            let tried = attempted(unit, results);
            let from = unit.position as int;
            let room = unit.kinds.len() - unit.position;
            let good = answered(results);
            &&& unit_well_formed(end)
            &&& end.address == unit.address
            &&& end.kinds == unit.kinds
            &&& if good >= room {
                &&& end.position == unit.kinds.len()
                &&& end.failure is None
                &&& tried == unit.kinds.subrange(from, unit.kinds.len() as int)
            } else if good < results.len() {
                &&& end.position == unit.position + good
                &&& end.failure == Some(results[good as int]->Err_0)
                &&& tried == unit.kinds.subrange(from, from + good + 1)
            } else {
                &&& end.position == unit.position + good
                &&& end.failure is None
                &&& tried == unit.kinds.subrange(from, from + good)
            }
        }),
    decreases results.len(),
{
    lemma_answered(results);
    if results.len() > 0 {
        let rest = results.drop_first();
        let next = settled(unit, results[0]);
        match results[0] {
            Err(error) if upcoming(unit) is Some => {
                law_failure_ends_unit(unit, error, rest);
            },
            _ => {
                lemma_run_unit(next, rest);
                lemma_answered(rest);
            },
        }
    }
}

/// The sessions of a unit run in the order of its kinds, and none is
/// started once one has failed: what is attempted is a prefix of the kinds,
/// and every attempt but the last was answered.
pub proof fn law_attempts_follow_plan(
    address: Seq<char>,
    kinds: Seq<QueryKind>,
    results: Seq<Result<(), QueryError>>,
)
    ensures
        ({
            let tried = attempted(unit_start(address, kinds), results);
            &&& tried.len() <= kinds.len()
            &&& tried.len() <= results.len()
            &&& tried == kinds.take(tried.len() as int)
            &&& forall|i: int| 0 <= i < tried.len() - 1 ==> results[i] is Ok
        }),
{
    lemma_run_unit(unit_start(address, kinds), results);
    lemma_answered(results);
}

/// A unit whose sessions are all answered completes, having attempted
/// every kind once, in order.
pub proof fn law_answered_unit_completes(
    address: Seq<char>,
    kinds: Seq<QueryKind>,
    results: Seq<Result<(), QueryError>>,
)
    requires
        results.len() == kinds.len(),
        forall|i: int| 0 <= i < results.len() ==> results[i] is Ok,
    ensures
        unit_outcome(run_unit(unit_start(address, kinds), results)) == Some(
            UnitOutcome::Completed,
        ),
        attempted(unit_start(address, kinds), results) == kinds,
{
    lemma_run_unit(unit_start(address, kinds), results);
    lemma_answered(results);
}

/// A unit whose session number `at` is the first to fail ends with the
/// failure of that kind, and the kinds after it are never attempted.
pub proof fn law_failed_unit_stops(
    address: Seq<char>,
    kinds: Seq<QueryKind>,
    results: Seq<Result<(), QueryError>>,
    at: int,
)
    requires
        0 <= at < kinds.len(),
        at < results.len(),
        results[at] is Err,
        forall|i: int| 0 <= i < at ==> results[i] is Ok,
    ensures
        unit_outcome(run_unit(unit_start(address, kinds), results)) == Some(
            UnitOutcome::Failed { kind: kinds[at], error: results[at]->Err_0 },
        ),
        attempted(unit_start(address, kinds), results) == kinds.take(at + 1),
{
    lemma_run_unit(unit_start(address, kinds), results);
    lemma_answered(results);
}

/// The outcome of a batch is determined by the outcomes of its units, and
/// it is a success exactly if every unit completed.
pub proof fn law_batch_outcome_unique(
    outcomes: Seq<UnitOutcome>,
    first: BatchOutcome,
    second: BatchOutcome,
)
    requires
        is_batch_outcome(outcomes, first),
        is_batch_outcome(outcomes, second),
    ensures
        first == second,
        first is Success <==> forall|i: int| 0 <= i < outcomes.len() ==> outcomes[i] is Completed,
{
}

/// The servers to query and the kinds to query each of them for.
#[derive(Clone, Debug, PartialEq, Eq)]
pub struct QueryPlan {
    /// The address strings of the servers, as configured.
    pub addresses: Vec<String>,
    /// The kinds, in the order in which each server is queried for them.
    pub kinds: Vec<QueryKind>,
}

impl QueryPlan {
    /// The plan that queries each of `addresses` for its info, then for its
    /// players.
    pub fn standard(addresses: Vec<String>) -> (plan: QueryPlan)
        ensures
            plan.addresses == addresses,
            plan.kinds@ == standard_kinds(),
    {
        QueryPlan { addresses, kinds: vec![QueryKind::Info, QueryKind::Player] }
    }

    /// The units of the plan: one for each address, in order, each with all
    /// the kinds.
    pub fn units(&self) -> (units: Vec<Unit>)
        ensures
            units@.len() == self.addresses@.len(),
            forall|i: int|
                0 <= i < units@.len() ==> (#[trigger] units@[i])@ == unit_start(
                    self.addresses@[i]@,
                    self.kinds@,
                ),
    {
        let mut units: Vec<Unit> = Vec::new();
        let mut i: usize = 0;
        while i < self.addresses.len()
            invariant
                i <= self.addresses@.len(),
                units@.len() == i,
                forall|j: int|
                    0 <= j < i ==> (#[trigger] units@[j])@ == unit_start(
                        self.addresses@[j]@,
                        self.kinds@,
                    ),
            decreases self.addresses@.len() - i,
        {
            let unit = Unit::new(self.addresses[i].clone(), slice_to_vec(self.kinds.as_slice()));
            units.push(unit);
            i += 1;
        }
        units
    }
}

/// The work for one server: its address, the kinds to query in order, and
/// how far it has got.
#[derive(Debug)]
pub struct Unit {
    address: String,
    kinds: Vec<QueryKind>,
    position: usize,
    failure: Option<QueryError>,
}

impl View for Unit {
    type V = UnitModel;

    closed spec fn view(&self) -> UnitModel {
        UnitModel {
            address: self.address@,
            kinds: self.kinds@,
            position: self.position as nat,
            failure: self.failure,
        }
    }
}

impl Unit {
    #[verifier::type_invariant]
    spec fn in_bounds(self) -> bool {
        unit_well_formed(self@)
    }

    /// Creates the unit that queries `address` for `kinds`, in that order.
    pub fn new(address: String, kinds: Vec<QueryKind>) -> (unit: Unit)
        ensures
            unit@ == unit_start(address@, kinds@),
    {
        Unit { address, kinds, position: 0, failure: None }
    }

    /// The address string of the server.
    pub fn address(&self) -> (address: &str)
        ensures
            address@ == self@.address,
    {
        self.address.as_str()
    }

    /// The kinds that the unit queries, in order.
    pub fn kinds(&self) -> (kinds: &[QueryKind])
        ensures
            kinds@ == self@.kinds,
    {
        self.kinds.as_slice()
    }

    /// How many kinds have been answered.
    pub fn position(&self) -> (position: usize)
        ensures
            position == self@.position,
    {
        self.position
    }

    /// The kind whose session is to run next, or `None` when the unit is over.
    pub fn next_kind(&self) -> (kind: Option<QueryKind>)
        ensures
            kind == upcoming(self@),
    {
        if self.failure.is_none() && self.position < self.kinds.len() {
            Some(self.kinds[self.position])
        } else {
            None
        }
    }

    /// Starts the session of the upcoming kind, or returns `None` when the
    /// unit is over.
    pub fn begin(&self) -> (started: Option<(QuerySession, Action)>)
        ensures
            match started {
                Some((session, action)) => upcoming(self@) matches Some(kind) && session@
                    == initial(self@.address, kind) && action@ == pending(
                    initial(self@.address, kind),
                ),
                None => upcoming(self@) is None,
            },
    {
        match self.next_kind() {
            Some(kind) => Some(QuerySession::start(self.address.clone(), kind)),
            None => None,
        }
    }

    /// Records how the session of the upcoming kind ended: a response moves
    /// the unit on to the next kind, a failure ends it. A unit that is over
    /// records nothing.
    pub fn settle(&mut self, result: Result<(), QueryError>)
        ensures
            final(self)@ == settled(old(self)@, result),
    {
        proof {
            use_type_invariant(&*self);
        }
        if self.failure.is_none() && self.position < self.kinds.len() {
            match result {
                Ok(_) => {
                    self.position = self.position + 1;
                },
                Err(error) => {
                    self.failure = Some(error);
                },
            }
        }
    }

    /// How the unit ended, or `None` while a session is still to run.
    pub fn outcome(&self) -> (outcome: Option<UnitOutcome>)
        ensures
            outcome == unit_outcome(self@),
    {
        proof {
            use_type_invariant(self);
        }
        match self.failure {
            Some(error) => Some(UnitOutcome::Failed { kind: self.kinds[self.position], error }),
            None => if self.position < self.kinds.len() {
                None
            } else {
                Some(UnitOutcome::Completed)
            },
        }
    }
}

/// What a batch with these unit outcomes, in the order of the plan, comes to.
pub fn batch_outcome(outcomes: &[UnitOutcome]) -> (result: BatchOutcome)
    ensures
        is_batch_outcome(outcomes@, result),
{
    let mut i: usize = 0;
    while i < outcomes.len()
        invariant
            i <= outcomes@.len(),
            forall|j: int| 0 <= j < i ==> outcomes@[j] is Completed,
        decreases outcomes@.len() - i,
    {
        match outcomes[i] {
            UnitOutcome::Failed { kind, error } => {
                return BatchOutcome::Failure { unit: i, kind, error };
            },
            UnitOutcome::Completed => {},
        }
        i += 1;
    }
    BatchOutcome::Success
}

} // verus!
