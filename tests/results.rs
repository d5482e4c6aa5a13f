use rust_pdftools::results::{OperationResult, OperationResults, OperationStatus};

fn ok(s: &str) -> OperationResult {
    Ok(String::from(s))
}

fn err(s: &str) -> OperationResult {
    Err(String::from(s))
}

#[test]
fn new_results_have_not_run() {
    let r = OperationResults::new();
    assert_eq!(r.status(), OperationStatus::NotExecuted);
    assert!(r.is_empty());
    assert!(!r.is_failed());
    assert!(!r.is_aborted());
}

#[test]
fn push_success_completes() {
    let mut r = OperationResults::new();
    r.push(ok("done"));
    assert_eq!(r.status(), OperationStatus::Completed);
    assert!(!r.is_failed());
    assert!(!r.is_empty());
    assert_eq!(r.as_slice().len(), 1);
}

#[test]
fn push_failure_is_sticky() {
    let mut r = OperationResults::new();
    r.push(ok("first"));
    r.push(err("broken"));
    r.push(ok("third"));
    assert_eq!(r.status(), OperationStatus::Failed);
    assert!(r.is_failed());
    assert_eq!(r.as_slice(), &[ok("first"), err("broken"), ok("third")][..]);
}

#[test]
fn failure_pushed_first_stays_failed() {
    let mut r = OperationResults::new();
    r.push(err("broken"));
    r.push(ok("second"));
    assert!(r.is_failed());
}

#[test]
fn append_moves_outcomes_and_recomputes_status() {
    let mut a = OperationResults::new();
    a.push(ok("a"));
    let mut b = OperationResults::new();
    b.push(err("b"));
    a.append(&mut b);
    assert_eq!(a.status(), OperationStatus::Failed);
    assert_eq!(a.as_slice(), &[ok("a"), err("b")][..]);
    assert!(b.is_empty());
    assert_eq!(b.status(), OperationStatus::NotExecuted);
}

#[test]
fn append_of_successes_completes() {
    let mut a = OperationResults::new();
    let mut b = OperationResults::new();
    b.push(ok("b"));
    a.append(&mut b);
    assert_eq!(a.status(), OperationStatus::Completed);
}

#[test]
fn append_of_empty_keeps_status() {
    let mut a = OperationResults::new();
    let mut b = OperationResults::new();
    a.append(&mut b);
    assert_eq!(a.status(), OperationStatus::NotExecuted);
    a.push(err("x"));
    let mut c = OperationResults::new();
    a.append(&mut c);
    assert_eq!(a.status(), OperationStatus::Failed);
}

#[test]
fn failure_already_present_survives_append_of_successes() {
    let mut a = OperationResults::new();
    a.push(err("x"));
    let mut b = OperationResults::new();
    b.push(ok("y"));
    a.append(&mut b);
    assert!(a.is_failed());
}

fn status_of_three_way_merge(first_grouped: bool, a: &[OperationResult], b: &[OperationResult], c: &[OperationResult]) -> (OperationStatus, usize) {
    let build = |xs: &[OperationResult]| {
        let mut r = OperationResults::new();
        for x in xs {
            r.push(x.clone());
        }
        r
    };
    let mut ra = build(a);
    let mut rb = build(b);
    let mut rc = build(c);
    if first_grouped {
        ra.append(&mut rb);
        ra.append(&mut rc);
    } else {
        rb.append(&mut rc);
        ra.append(&mut rb);
    }
    (ra.status(), ra.as_slice().len())
}

#[test]
fn append_is_associative_on_status() {
    let cases: Vec<(Vec<OperationResult>, Vec<OperationResult>, Vec<OperationResult>)> = vec![
        (vec![ok("a")], vec![ok("b")], vec![ok("c")]),
        (vec![ok("a")], vec![err("b")], vec![ok("c")]),
        (vec![], vec![], vec![ok("c")]),
        (vec![err("a")], vec![], vec![]),
        (vec![], vec![ok("b")], vec![]),
        (vec![ok("a")], vec![], vec![err("c")]),
    ];
    for (a, b, c) in cases {
        assert_eq!(status_of_three_way_merge(true, &a, &b, &c), status_of_three_way_merge(false, &a, &b, &c));
    }
}

#[test]
fn from_results_drains_the_vector() {
    let mut v = vec![ok("a"), err("b")];
    let r = OperationResults::from_results(&mut v);
    assert!(v.is_empty());
    assert!(r.is_failed());
    assert_eq!(r.as_slice().len(), 2);
}

#[test]
fn from_results_of_nothing_counts_as_completed() {
    let mut v: Vec<OperationResult> = Vec::new();
    let r = OperationResults::from_results(&mut v);
    assert_eq!(r.status(), OperationStatus::Completed);
    assert!(r.is_empty());
}

#[test]
fn from_result_single_outcome() {
    assert_eq!(OperationResults::from_result(ok("a")).status(), OperationStatus::Completed);
    assert_eq!(OperationResults::from_result(err("a")).status(), OperationStatus::Failed);
}

#[test]
fn results_text() {
    let mut r = OperationResults::new();
    assert_eq!(r.to_string(), "OperationResults(status: NotExecuted, results: [])");
    r.push(ok("done"));
    r.push(err("no such file"));
    assert_eq!(r.to_string(), "OperationResults(status: Failed, results: [done, no such file])");
}

#[test]
fn status_text() {
    assert_eq!(OperationStatus::NotExecuted.to_string(), "NotExecuted");
    assert_eq!(OperationStatus::Completed.to_string(), "Completed");
    assert_eq!(OperationStatus::Failed.to_string(), "Failed");
    assert_eq!(OperationStatus::Aborted.to_string(), "Aborted");
}
