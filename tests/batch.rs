use odbc_api_helper::batch::{BatchCoordinator, BatchEntry, Operation, TxAction};
use odbc_api_helper::error::OdbcError;
use odbc_api_helper::query::{ExecResult, QueryResult};

fn exec(n: usize) -> Result<BatchEntry, OdbcError> {
    Ok(BatchEntry::Exec(ExecResult { rows_affected: n }))
}

fn driver_err(s: &str) -> OdbcError {
    OdbcError::DriverError(s.to_string())
}

#[test]
fn all_statements_succeed_and_commit() {
    let mut c = BatchCoordinator::new(vec![Operation::Insert, Operation::Query, Operation::Delete]);
    assert!(matches!(c.start(), TxAction::Begin));
    assert!(matches!(c.on_control(Ok(())), TxAction::Execute(0)));
    assert!(matches!(c.on_statement(exec(1)), TxAction::Query(1)));
    let q = QueryResult { columns: vec![], data: vec![] };
    assert!(matches!(c.on_statement(Ok(BatchEntry::Query(q))), TxAction::Execute(2)));
    assert!(matches!(c.on_statement(exec(3)), TxAction::Commit));
    assert!(matches!(c.on_control(Ok(())), TxAction::Finish));
    match c.on_control(Ok(())) {
        TxAction::Complete(b) => {
            assert_eq!(b.entries.len(), 3);
            assert!(matches!(b.entries[0], BatchEntry::Exec(ExecResult { rows_affected: 1 })));
            assert!(matches!(b.entries[1], BatchEntry::Query(_)));
            assert!(matches!(b.entries[2], BatchEntry::Exec(ExecResult { rows_affected: 3 })));
        }
        other => panic!("unexpected {:?}", other),
    }
}

#[test]
fn failing_statement_rolls_back_and_fails() {
    let mut c = BatchCoordinator::new(vec![Operation::Insert, Operation::Update, Operation::Insert]);
    c.start();
    c.on_control(Ok(()));
    assert!(matches!(c.on_statement(exec(1)), TxAction::Execute(1)));
    assert!(matches!(c.on_statement(Err(driver_err("constraint"))), TxAction::Rollback));
    assert!(matches!(c.on_control(Ok(())), TxAction::Finish));
    match c.on_control(Ok(())) {
        TxAction::Fail(e) => assert_eq!(e, driver_err("constraint")),
        other => panic!("unexpected {:?}", other),
    }
}

#[test]
fn failing_first_statement_never_commits() {
    let mut c = BatchCoordinator::new(vec![Operation::Insert]);
    c.start();
    c.on_control(Ok(()));
    assert!(matches!(c.on_statement(Err(driver_err("syntax"))), TxAction::Rollback));
    assert!(matches!(c.on_control(Ok(())), TxAction::Finish));
    assert!(matches!(c.on_control(Ok(())), TxAction::Fail(OdbcError::DriverError(_))));
}

#[test]
fn failing_rollback_propagates_its_own_error() {
    let mut c = BatchCoordinator::new(vec![Operation::Insert]);
    c.start();
    c.on_control(Ok(()));
    c.on_statement(Err(driver_err("first")));
    match c.on_control(Err(driver_err("rollback"))) {
        TxAction::Fail(e) => assert_eq!(e, driver_err("rollback")),
        other => panic!("unexpected {:?}", other),
    }
}

#[test]
fn failing_begin_fails_the_batch() {
    let mut c = BatchCoordinator::new(vec![Operation::Insert]);
    c.start();
    assert!(matches!(c.on_control(Err(driver_err("begin"))), TxAction::Fail(_)));
}

#[test]
fn wrong_outcome_kind_rolls_back() {
    let mut c = BatchCoordinator::new(vec![Operation::Query]);
    c.start();
    assert!(matches!(c.on_control(Ok(())), TxAction::Query(0)));
    assert!(matches!(c.on_statement(exec(0)), TxAction::Rollback));
    c.on_control(Ok(()));
    assert!(matches!(c.on_control(Ok(())), TxAction::Fail(OdbcError::DataHandlerError(_))));
}

#[test]
fn empty_batch_commits_nothing() {
    let mut c = BatchCoordinator::new(vec![]);
    c.start();
    assert!(matches!(c.on_control(Ok(())), TxAction::Commit));
    assert!(matches!(c.on_control(Ok(())), TxAction::Finish));
    match c.on_control(Ok(())) {
        TxAction::Complete(b) => assert!(b.entries.is_empty()),
        other => panic!("unexpected {:?}", other),
    }
}
