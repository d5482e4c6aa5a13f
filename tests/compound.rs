use rust_pdftools::compound::CompoundPageOperation;
use rust_pdftools::page::Direction;
use rust_pdftools::page_ops::{NoOpMarker, PageOps, RunOperation};
use rust_pdftools::results::{OperationResult, OperationResults, OperationStatus};

/// A backend whose operations report a fixed outcome.
#[derive(Clone, Debug)]
struct Scripted(OperationResult);

impl RunOperation for Scripted {
    fn run_operation(op: Scripted) -> OperationResults {
        OperationResults::from_result(op.0)
    }
}

impl NoOpMarker for Scripted {
    fn marks_no_op(&self) -> bool {
        false
    }
}

fn succeed(s: &str) -> Scripted {
    Scripted(Ok(String::from(s)))
}

fn fail(s: &str) -> Scripted {
    Scripted(Err(String::from(s)))
}

fn page_op(ops: &[Scripted]) -> CompoundPageOperation<Scripted> {
    CompoundPageOperation::new(String::from("p1"), String::from("/tmp/p1.png"), ops)
}

#[test]
fn all_succeeding_operations_complete() {
    let r = page_op(&[succeed("a"), succeed("b"), succeed("c")]).run();
    assert_eq!(r.status(), OperationStatus::Completed);
    assert!(!r.is_failed());
    assert_eq!(r.as_slice(), &[Ok(String::from("a")), Ok(String::from("b")), Ok(String::from("c"))][..]);
}

#[test]
fn one_failure_fails_wherever_it_stands() {
    let first = page_op(&[fail("x"), succeed("b"), succeed("c")]).run();
    let middle = page_op(&[succeed("a"), fail("x"), succeed("c")]).run();
    let last = page_op(&[succeed("a"), succeed("b"), fail("x")]).run();
    for r in [first, middle, last] {
        assert_eq!(r.status(), OperationStatus::Failed);
        assert!(r.is_failed());
        assert_eq!(r.as_slice().len(), 3);
    }
}

#[test]
fn run_does_not_stop_at_a_failure() {
    let r = page_op(&[fail("x"), succeed("after")]).run();
    assert_eq!(r.as_slice(), &[Err(String::from("x")), Ok(String::from("after"))][..]);
}

#[test]
fn empty_compound_runs_as_completed() {
    let op: CompoundPageOperation<Scripted> = CompoundPageOperation::make_no_op(String::from("p"), String::from("/p"));
    let r = RunOperation::run_operation(op);
    assert_eq!(r.status(), OperationStatus::Completed);
    assert!(r.is_empty());
}

#[test]
fn new_copies_the_operations() {
    let ops = vec![succeed("a"), fail("b")];
    let c = page_op(&ops);
    assert_eq!(c.as_slice().len(), 2);
    assert_eq!(c.page_name(), "p1");
    assert_eq!(c.page_path(), "/tmp/p1.png");
    let d = c.clone();
    assert_eq!(d.as_slice().len(), 2);
    assert_eq!(d.page_name(), "p1");
}

#[test]
fn empty_sequence_is_a_no_op() {
    let c: CompoundPageOperation<Scripted> = CompoundPageOperation::make_no_op(String::from("p"), String::from("/p"));
    assert!(c.is_no_op());
    assert!(!page_op(&[succeed("a")]).is_no_op());
    let abstract_empty: CompoundPageOperation<PageOps> = CompoundPageOperation::new(String::from("p"), String::from("/p"), &[]);
    assert!(abstract_empty.is_no_op());
}

#[test]
fn marker_as_sole_or_last_element() {
    let sole = CompoundPageOperation::new(String::from("p1"), String::from("p1.png"), &[PageOps::NoOperation]);
    assert!(sole.is_no_op());
    let last = CompoundPageOperation::new(
        String::from("p1"),
        String::from("p1.png"),
        &[PageOps::Rescale(100, Direction::Horizontal), PageOps::TrimLeftEdge(5), PageOps::NoOperation],
    );
    assert!(last.is_no_op());
    assert!(PageOps::NoOperation.marks_no_op());
    assert!(!PageOps::TrimLeftEdge(5).marks_no_op());
}

#[test]
fn no_op_marker_anywhere_makes_a_no_op() {
    let mk = |ops: &[PageOps]| CompoundPageOperation::new(String::from("p"), String::from("/p"), ops);
    assert!(mk(&[PageOps::NoOperation]).is_no_op());
    assert!(mk(&[PageOps::ExpandLeftEdge(3), PageOps::NoOperation]).is_no_op());
    assert!(mk(&[PageOps::NoOperation, PageOps::TrimTopEdge(3)]).is_no_op());
    assert!(mk(&[PageOps::TrimTopEdge(1), PageOps::NoOperation, PageOps::TrimTopEdge(2)]).is_no_op());
    assert!(!mk(&[PageOps::Rescale(10, Direction::Vertical), PageOps::TrimTopEdge(3)]).is_no_op());
    assert!(!mk(&[PageOps::TrimTopEdge(3)]).is_no_op());
}

#[test]
fn compound_text() {
    let c = CompoundPageOperation::new(
        String::from("p"),
        String::from("/p"),
        &[PageOps::Rescale(100, Direction::Vertical), PageOps::TrimTopEdge(5)],
    );
    assert_eq!(c.to_string(), "PageOps([Rescale(100 Pixels, Vertical), TrimTopEdge(5 Pixels)])");
    let empty: CompoundPageOperation<PageOps> = CompoundPageOperation::make_no_op(String::from("p"), String::from("/p"));
    assert_eq!(empty.to_string(), "PageOps([])");
}
