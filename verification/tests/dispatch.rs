use a2s_query::codec::QueryKind;
use a2s_query::dispatch::{batch_outcome, BatchOutcome, QueryPlan, Unit, UnitOutcome};
use a2s_query::endpoint::Endpoint;
use a2s_query::error::{QueryError, TransportOp};
use a2s_query::session::{Action, Event, Phase, QuerySession};

/// Runs a unit to its end. The session of `fails` (if any) fails at its
/// first receive; every other session is answered. Returns the kinds whose
/// sessions were started.
fn run_unit(unit: &mut Unit, fails: Option<QueryKind>) -> Vec<QueryKind> {
    let mut started = Vec::new();
    while let Some((mut session, mut action)) = unit.begin() {
        started.push(session.kind());
        assert_eq!(Some(session.kind()), unit.next_kind());
        assert_eq!(session.address(), unit.address());
        loop {
            let event = match action {
                Action::Resolve(_) => {
                    Event::Resolved(vec![Endpoint::V4 { octets: [10, 0, 0, 1], port: 27015 }])
                }
                Action::Open(_) => Event::Opened,
                Action::Send(_) => Event::Sent,
                Action::Receive => {
                    if fails == Some(session.kind()) {
                        Event::Failed
                    } else {
                        Event::Received(b"answer".to_vec())
                    }
                }
                Action::Release | Action::Stop => break,
            };
            action = session.step(event).action;
        }
        match session.outcome() {
            Some(result) => unit.settle(result),
            None => panic!("the session is over"),
        }
    }
    started
}

#[test]
fn the_standard_plan_queries_info_then_player() {
    let plan = QueryPlan::standard(vec!["a:1".to_string(), "b:2".to_string()]);
    assert_eq!(plan.addresses, vec!["a:1".to_string(), "b:2".to_string()]);
    assert_eq!(plan.kinds, vec![QueryKind::Info, QueryKind::Player]);
}

#[test]
fn a_plan_has_one_unit_for_each_address() {
    let plan = QueryPlan::standard(vec![
        "138.201.130.250:27017".to_string(),
        "192.168.1.100:27017".to_string(),
    ]);
    let units = plan.units();
    assert_eq!(units.len(), 2);
    assert_eq!(units[0].address(), "138.201.130.250:27017");
    assert_eq!(units[1].address(), "192.168.1.100:27017");
    for unit in &units {
        assert_eq!(unit.kinds(), &[QueryKind::Info, QueryKind::Player]);
        assert_eq!(unit.position(), 0);
        assert_eq!(unit.next_kind(), Some(QueryKind::Info));
        assert_eq!(unit.outcome(), None);
    }
}

#[test]
fn a_plan_without_addresses_has_no_units_and_succeeds() {
    let plan = QueryPlan::standard(Vec::new());
    assert!(plan.units().is_empty());
    assert_eq!(batch_outcome(&[]), BatchOutcome::Success);
}

#[test]
fn a_plan_keeps_the_kinds_it_was_given() {
    let plan = QueryPlan {
        addresses: vec!["a:1".to_string()],
        kinds: vec![QueryKind::Player, QueryKind::Info, QueryKind::Player],
    };
    let units = plan.units();
    assert_eq!(units.len(), 1);
    assert_eq!(units[0].kinds(), &[QueryKind::Player, QueryKind::Info, QueryKind::Player]);
}

#[test]
fn batch_of_two_servers_that_answer_succeeds() {
    let plan = QueryPlan::standard(vec!["a:1".to_string(), "b:2".to_string()]);
    let mut outcomes = Vec::new();
    for mut unit in plan.units() {
        let started = run_unit(&mut unit, None);
        assert_eq!(started, vec![QueryKind::Info, QueryKind::Player]);
        assert_eq!(unit.position(), 2);
        outcomes.push(unit.outcome().unwrap());
    }
    assert_eq!(outcomes, vec![UnitOutcome::Completed, UnitOutcome::Completed]);
    assert_eq!(batch_outcome(&outcomes), BatchOutcome::Success);
}

#[test]
fn a_failed_info_query_stops_its_unit_and_no_other() {
    let plan = QueryPlan::standard(vec!["a:1".to_string(), "b:2".to_string()]);
    let mut units = plan.units();
    let mut unit_b = units.pop().unwrap();
    let mut unit_a = units.pop().unwrap();

    let started_a = run_unit(&mut unit_a, Some(QueryKind::Info));
    assert_eq!(started_a, vec![QueryKind::Info]);
    assert_eq!(unit_a.next_kind(), None);
    assert!(unit_a.begin().is_none());
    let failure =
        UnitOutcome::Failed { kind: QueryKind::Info, error: QueryError::Transport(TransportOp::Receive) };
    assert_eq!(unit_a.outcome(), Some(failure));

    let started_b = run_unit(&mut unit_b, None);
    assert_eq!(started_b, vec![QueryKind::Info, QueryKind::Player]);
    assert_eq!(unit_b.outcome(), Some(UnitOutcome::Completed));

    let outcomes = vec![unit_a.outcome().unwrap(), unit_b.outcome().unwrap()];
    assert_eq!(
        batch_outcome(&outcomes),
        BatchOutcome::Failure {
            unit: 0,
            kind: QueryKind::Info,
            error: QueryError::Transport(TransportOp::Receive),
        }
    );
}

#[test]
fn a_failed_player_query_fails_the_unit_after_info_was_answered() {
    let mut unit = Unit::new("a:1".to_string(), vec![QueryKind::Info, QueryKind::Player]);
    let started = run_unit(&mut unit, Some(QueryKind::Player));
    assert_eq!(started, vec![QueryKind::Info, QueryKind::Player]);
    assert_eq!(unit.position(), 1);
    assert_eq!(
        unit.outcome(),
        Some(UnitOutcome::Failed {
            kind: QueryKind::Player,
            error: QueryError::Transport(TransportOp::Receive),
        })
    );
}

#[test]
fn a_unit_moves_through_its_kinds_in_order() {
    let mut unit = Unit::new("a:1".to_string(), vec![QueryKind::Info, QueryKind::Player]);
    assert_eq!(unit.next_kind(), Some(QueryKind::Info));
    assert_eq!(unit.outcome(), None);
    unit.settle(Ok(()));
    assert_eq!(unit.next_kind(), Some(QueryKind::Player));
    assert_eq!(unit.position(), 1);
    assert_eq!(unit.outcome(), None);
    unit.settle(Ok(()));
    assert_eq!(unit.next_kind(), None);
    assert_eq!(unit.position(), 2);
    assert_eq!(unit.outcome(), Some(UnitOutcome::Completed));
}

#[test]
fn a_unit_that_is_over_records_nothing() {
    let mut done = Unit::new("a:1".to_string(), vec![QueryKind::Info]);
    done.settle(Ok(()));
    done.settle(Err(QueryError::AddressResolution));
    done.settle(Ok(()));
    assert_eq!(done.position(), 1);
    assert_eq!(done.outcome(), Some(UnitOutcome::Completed));

    let mut failed = Unit::new("a:1".to_string(), vec![QueryKind::Info, QueryKind::Player]);
    failed.settle(Err(QueryError::AddressResolution));
    failed.settle(Ok(()));
    failed.settle(Err(QueryError::Transport(TransportOp::Send)));
    assert_eq!(failed.position(), 0);
    assert_eq!(
        failed.outcome(),
        Some(UnitOutcome::Failed { kind: QueryKind::Info, error: QueryError::AddressResolution })
    );
}

#[test]
fn a_unit_without_kinds_is_complete_at_once() {
    let mut unit = Unit::new("a:1".to_string(), Vec::new());
    assert_eq!(unit.next_kind(), None);
    assert!(unit.begin().is_none());
    assert_eq!(unit.outcome(), Some(UnitOutcome::Completed));
    unit.settle(Err(QueryError::AddressResolution));
    assert_eq!(unit.outcome(), Some(UnitOutcome::Completed));
}

#[test]
fn a_unit_begins_the_session_of_its_upcoming_kind() {
    let mut unit = Unit::new("game.example:27015".to_string(), vec![QueryKind::Info, QueryKind::Player]);
    let (session, action) = unit.begin().unwrap();
    assert_eq!(session.kind(), QueryKind::Info);
    assert_eq!(session.address(), "game.example:27015");
    assert_eq!(session.phase(), &Phase::Resolving);
    assert_eq!(action, Action::Resolve("game.example:27015".to_string()));
    unit.settle(Ok(()));
    let (session, action) = unit.begin().unwrap();
    assert_eq!(session.kind(), QueryKind::Player);
    assert_eq!(action, Action::Resolve("game.example:27015".to_string()));
    let (fresh, _) = QuerySession::start("game.example:27015".to_string(), QueryKind::Player);
    assert_eq!(session.request(), fresh.request());
}

#[test]
fn an_unresolved_address_fails_the_unit_at_its_first_kind() {
    let mut unit = Unit::new("nowhere".to_string(), vec![QueryKind::Info, QueryKind::Player]);
    let (mut session, _) = unit.begin().unwrap();
    session.step(Event::Resolved(Vec::new()));
    unit.settle(session.outcome().unwrap());
    assert!(unit.begin().is_none());
    assert_eq!(
        unit.outcome(),
        Some(UnitOutcome::Failed { kind: QueryKind::Info, error: QueryError::AddressResolution })
    );
}

#[test]
fn the_batch_reports_the_first_unit_that_failed() {
    let send = UnitOutcome::Failed { kind: QueryKind::Player, error: QueryError::Transport(TransportOp::Send) };
    let resolve = UnitOutcome::Failed { kind: QueryKind::Info, error: QueryError::AddressResolution };
    assert_eq!(batch_outcome(&[UnitOutcome::Completed]), BatchOutcome::Success);
    assert_eq!(
        batch_outcome(&[UnitOutcome::Completed, UnitOutcome::Completed, UnitOutcome::Completed]),
        BatchOutcome::Success
    );
    assert_eq!(
        batch_outcome(&[send]),
        BatchOutcome::Failure { unit: 0, kind: QueryKind::Player, error: QueryError::Transport(TransportOp::Send) }
    );
    assert_eq!(
        batch_outcome(&[UnitOutcome::Completed, send, resolve]),
        BatchOutcome::Failure { unit: 1, kind: QueryKind::Player, error: QueryError::Transport(TransportOp::Send) }
    );
    assert_eq!(
        batch_outcome(&[UnitOutcome::Completed, UnitOutcome::Completed, resolve]),
        BatchOutcome::Failure { unit: 2, kind: QueryKind::Info, error: QueryError::AddressResolution }
    );
}
