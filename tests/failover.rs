use std::cell::RefCell;

use typedb_cluster::{
    AnyNodeSweep, Connection, ConnectionError, NodeOutcome, ServerConnection, SweepAction, UserManager,
};

fn connection(addresses: &[&str]) -> Connection {
    let nodes = addresses.iter().map(|a| ServerConnection::new(a.to_string())).collect();
    Connection::new(nodes, None)
}

/// Runs one operation the way a caller does: ask the sweep which node to try,
/// run the work there, hand back its answer. Records every node run.
fn run<R>(
    connection: &Connection,
    invoked: &RefCell<Vec<String>>,
    work: impl Fn(&str) -> Result<R, String>,
) -> Result<R, ConnectionError> {
    let mut sweep = AnyNodeSweep::new(connection);
    let mut action = sweep.start();
    loop {
        match action {
            SweepAction::Finish(result) => return result,
            SweepAction::Attempt(index) => {
                let address = connection.connections()[index].address().to_string();
                invoked.borrow_mut().push(address.clone());
                let outcome = match work(&address) {
                    Ok(v) => NodeOutcome::Succeeded(v),
                    Err(e) => NodeOutcome::Failed(e),
                };
                action = sweep.step(outcome);
            }
        }
    }
}

fn message(result: Result<u32, ConnectionError>) -> String {
    match result {
        Err(e) => e.message().to_string(),
        Ok(v) => panic!("expected a failure, got {}", v),
    }
}

#[test]
fn third_node_succeeds_after_two_failures() {
    let conn = connection(&["A", "B", "C"]);
    let invoked = RefCell::new(Vec::new());
    let result = run(&conn, &invoked, |node| match node {
        "A" => Err("unreachable".to_string()),
        "B" => Err("unauthorized".to_string()),
        _ => Ok(42u32),
    });
    assert_eq!(result.ok(), Some(42));
    assert_eq!(*invoked.borrow(), vec!["A".to_string(), "B".to_string(), "C".to_string()]);
}

#[test]
fn two_failures_are_reported_in_order() {
    let conn = connection(&["A", "B"]);
    let invoked = RefCell::new(Vec::new());
    let result: Result<u32, ConnectionError> = run(&conn, &invoked, |node| match node {
        "A" => Err("timeout".to_string()),
        _ => Err("unauthorized".to_string()),
    });
    let text = message(result);
    let lines: Vec<&str> = text.split('\n').collect();
    assert_eq!(lines, vec!["- A: timeout", "- B: unauthorized"]);
    assert_eq!(invoked.borrow().len(), 2);
}

#[test]
fn success_stops_the_sweep() {
    for k in 0..4usize {
        let conn = connection(&["n0", "n1", "n2", "n3"]);
        let invoked = RefCell::new(Vec::new());
        let target = format!("n{}", k);
        let result = run(&conn, &invoked, |node| {
            if node == target {
                Ok(k as u32 * 10)
            } else {
                Err(format!("down {}", node))
            }
        });
        assert_eq!(result.ok(), Some(k as u32 * 10));
        assert_eq!(invoked.borrow().len(), k + 1);
        assert_eq!(invoked.borrow().last(), Some(&target));
    }
}

#[test]
fn first_node_success_runs_no_other_node() {
    let conn = connection(&["primary", "second", "third"]);
    let invoked = RefCell::new(Vec::new());
    let result = run(&conn, &invoked, |_| Ok(7u32));
    assert_eq!(result.ok(), Some(7));
    assert_eq!(*invoked.borrow(), vec!["primary".to_string()]);
}

#[test]
fn every_node_failing_gives_one_line_per_node() {
    let conn = connection(&["10.0.0.1:1729", "10.0.0.2:1729", "10.0.0.3:1729"]);
    let invoked = RefCell::new(Vec::new());
    let result: Result<u32, ConnectionError> =
        run(&conn, &invoked, |node| Err(format!("refused by {}", node)));
    assert_eq!(
        message(result),
        "- 10.0.0.1:1729: refused by 10.0.0.1:1729\n- 10.0.0.2:1729: refused by 10.0.0.2:1729\n- 10.0.0.3:1729: refused by 10.0.0.3:1729"
    );
    assert_eq!(invoked.borrow().len(), 3);
}

#[test]
fn single_node_success_and_failure() {
    let conn = connection(&["solo"]);
    let invoked = RefCell::new(Vec::new());
    assert_eq!(run(&conn, &invoked, |_| Ok(5u32)).ok(), Some(5));
    let failed: Result<u32, ConnectionError> = run(&conn, &invoked, |_| Err("closed".to_string()));
    assert_eq!(message(failed), "- solo: closed");
    assert_eq!(invoked.borrow().len(), 2);
}

#[test]
fn repeated_failing_sweeps_report_the_same() {
    let conn = connection(&["A", "B"]);
    let invoked = RefCell::new(Vec::new());
    let first: Result<u32, ConnectionError> = run(&conn, &invoked, |_| Err("timeout".to_string()));
    let second: Result<u32, ConnectionError> = run(&conn, &invoked, |_| Err("timeout".to_string()));
    let first = message(first);
    assert_eq!(first, message(second));
    assert_eq!(first, "- A: timeout\n- B: timeout");
    assert_eq!(invoked.borrow().len(), 4);
}

#[test]
fn distinct_errors_are_kept_verbatim() {
    let conn = connection(&["A", "B", "C"]);
    let invoked = RefCell::new(Vec::new());
    let result: Result<u32, ConnectionError> = run(&conn, &invoked, |node| match node {
        "A" => Err("timeout".to_string()),
        "B" => Err("timeout".to_string()),
        _ => Err("no such user: bob".to_string()),
    });
    assert_eq!(message(result), "- A: timeout\n- B: timeout\n- C: no such user: bob");
}

#[test]
fn empty_topology_fails_with_empty_report() {
    let conn = connection(&[]);
    let invoked = RefCell::new(Vec::new());
    let result: Result<u32, ConnectionError> = run(&conn, &invoked, |_| Ok(1));
    assert_eq!(message(result), "");
    assert!(invoked.borrow().is_empty());
}

#[test]
fn sweep_reports_its_progress() {
    let conn = connection(&["A", "B"]);
    let mut sweep = AnyNodeSweep::new(&conn);
    assert!(!sweep.is_finished());
    assert_eq!(sweep.current(), 0);
    assert!(matches!(sweep.start::<u8>(), SweepAction::Attempt(0)));
    assert!(matches!(sweep.step::<u8>(NodeOutcome::Failed("x".to_string())), SweepAction::Attempt(1)));
    assert_eq!(sweep.current(), 1);
    assert!(!sweep.is_finished());
    assert!(matches!(sweep.step(NodeOutcome::Succeeded(3u8)), SweepAction::Finish(Ok(3))));
    assert!(sweep.is_finished());
}

#[test]
fn user_manager_sweeps_its_connection() {
    let manager = UserManager::new(connection(&["A", "B", "C"]));
    assert_eq!(manager.connection().server_count(), 3);
    let mut sweep = manager.run_any_node();
    assert!(matches!(sweep.start::<bool>(), SweepAction::Attempt(0)));
    assert!(matches!(sweep.step::<bool>(NodeOutcome::Failed("e".to_string())), SweepAction::Attempt(1)));
    assert!(matches!(sweep.step(NodeOutcome::Succeeded(true)), SweepAction::Finish(Ok(true))));
}
