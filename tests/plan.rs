use rust_pdftools::compound::CompoundPageOperation;
use rust_pdftools::page::{ImageDimensions, ImageFileFormat, ImageResolution, Page, ResolutionUnits};
use rust_pdftools::page_ops::RunOperation;
use rust_pdftools::plan::{merge_status, OperationPlan, OperationPlanResult, OperationPlanStatus, ScheduleError};
use rust_pdftools::results::{OperationResult, OperationResults, OperationStatus};

#[derive(Clone, Debug)]
struct Scripted(OperationResult);

impl RunOperation for Scripted {
    fn run_operation(op: Scripted) -> OperationResults {
        OperationResults::from_result(op.0)
    }
}

fn page(name: &str) -> Page {
    Page::new(
        String::from(name),
        ImageFileFormat::PNG,
        format!("/scans/{}", name),
        ImageDimensions::new(1200, 800),
        ImageResolution::new(300, ResolutionUnits::PixelsPerInch),
    )
}

fn compound(name: &str, ops: &[Scripted]) -> CompoundPageOperation<Scripted> {
    CompoundPageOperation::new(String::from(name), format!("/scans/{}", name), ops)
}

fn ok() -> Scripted {
    Scripted(Ok(String::from("ok")))
}

fn bad() -> Scripted {
    Scripted(Err(String::from("bad")))
}

fn completed() -> OperationResults {
    OperationResults::from_result(Ok(String::from("ok")))
}

fn failed() -> OperationResults {
    OperationResults::from_result(Err(String::from("bad")))
}

#[test]
fn schedule_length_mismatch() {
    let pages = vec![page("a"), page("b")];
    let ops = vec![compound("a", &[ok()])];
    assert!(matches!(OperationPlan::build_schedule(&pages, &ops), Err(ScheduleError::LengthMismatch)));
    let no_ops: Vec<CompoundPageOperation<Scripted>> = Vec::new();
    assert!(matches!(OperationPlan::build_schedule(&pages, &no_ops), Err(ScheduleError::LengthMismatch)));
}

#[test]
fn schedule_binds_each_page_to_its_operation() {
    let pages = vec![page("a"), page("b"), page("c")];
    let ops = vec![compound("a", &[ok()]), compound("b", &[ok(), ok()]), compound("c", &[])];
    let plan = OperationPlan::build_schedule(&pages, &ops).unwrap();
    assert_eq!(plan.len(), 3);
    assert_eq!(plan.get(&page("a")).unwrap().as_slice().len(), 1);
    assert_eq!(plan.get(&page("b")).unwrap().as_slice().len(), 2);
    assert_eq!(plan.get(&page("c")).unwrap().as_slice().len(), 0);
    assert!(plan.get(&page("d")).is_none());
}

#[test]
fn schedule_of_nothing_is_empty() {
    let pages: Vec<Page> = Vec::new();
    let ops: Vec<CompoundPageOperation<Scripted>> = Vec::new();
    let plan = OperationPlan::build_schedule(&pages, &ops).unwrap();
    assert_eq!(plan.len(), 0);
    let result = plan.execute_plan();
    assert_eq!(result.plan_status(), OperationPlanStatus::NotCompleted);
    assert!(result.is_not_completed());
}

#[test]
fn schedule_duplicate_page_later_wins() {
    let pages = vec![page("a"), page("b"), page("a")];
    let ops = vec![compound("first", &[ok()]), compound("b", &[ok()]), compound("second", &[ok(), ok(), ok()])];
    let plan = OperationPlan::build_schedule(&pages, &ops).unwrap();
    assert_eq!(plan.len(), 2);
    let a = plan.get(&page("a")).unwrap();
    assert_eq!(a.page_name(), "second");
    assert_eq!(a.as_slice().len(), 3);
}

#[test]
fn pages_differing_in_any_field_are_distinct() {
    let other_res = Page::new(
        String::from("a"),
        ImageFileFormat::PNG,
        String::from("/scans/a"),
        ImageDimensions::new(1200, 800),
        ImageResolution::new(300, ResolutionUnits::PixelsPerCentimeter),
    );
    assert!(page("a") == page("a"));
    assert!(page("a") != other_res);
    let pages = vec![page("a"), other_res.clone()];
    let ops = vec![compound("a", &[ok()]), compound("a2", &[ok()])];
    let plan = OperationPlan::build_schedule(&pages, &ops).unwrap();
    assert_eq!(plan.len(), 2);
    assert_eq!(plan.get(&other_res).unwrap().page_name(), "a2");
    let empty: OperationPlan<Scripted> = OperationPlan::new();
    assert_eq!(empty.len(), 0);
}

#[test]
fn merge_table() {
    for s in [OperationStatus::NotExecuted, OperationStatus::Completed, OperationStatus::Failed, OperationStatus::Aborted] {
        assert_eq!(merge_status(OperationPlanStatus::Failed, s), OperationPlanStatus::Failed);
    }
    assert_eq!(merge_status(OperationPlanStatus::NotCompleted, OperationStatus::NotExecuted), OperationPlanStatus::NotCompleted);
    assert_eq!(merge_status(OperationPlanStatus::NotCompleted, OperationStatus::Completed), OperationPlanStatus::Completed);
    assert_eq!(merge_status(OperationPlanStatus::NotCompleted, OperationStatus::Failed), OperationPlanStatus::Failed);
    assert_eq!(merge_status(OperationPlanStatus::NotCompleted, OperationStatus::Aborted), OperationPlanStatus::Aborted);
    assert_eq!(merge_status(OperationPlanStatus::Completed, OperationStatus::NotExecuted), OperationPlanStatus::Completed);
    assert_eq!(merge_status(OperationPlanStatus::Completed, OperationStatus::Completed), OperationPlanStatus::Completed);
    assert_eq!(merge_status(OperationPlanStatus::Completed, OperationStatus::Failed), OperationPlanStatus::Failed);
    assert_eq!(merge_status(OperationPlanStatus::Completed, OperationStatus::Aborted), OperationPlanStatus::Failed);
    assert_eq!(merge_status(OperationPlanStatus::Aborted, OperationStatus::Aborted), OperationPlanStatus::Aborted);
    assert_eq!(merge_status(OperationPlanStatus::Aborted, OperationStatus::NotExecuted), OperationPlanStatus::Failed);
    assert_eq!(merge_status(OperationPlanStatus::Aborted, OperationStatus::Completed), OperationPlanStatus::Failed);
    assert_eq!(merge_status(OperationPlanStatus::Aborted, OperationStatus::Failed), OperationPlanStatus::Failed);
}

#[test]
fn all_completed_pages_complete_the_plan() {
    let mut r = OperationPlanResult::new();
    assert_eq!(r.plan_status(), OperationPlanStatus::NotCompleted);
    r.insert(page("a"), completed());
    r.insert(page("b"), completed());
    r.insert(page("c"), completed());
    assert_eq!(r.plan_status(), OperationPlanStatus::Completed);
    assert_eq!(r.len(), 3);
}

#[test]
fn one_failed_page_fails_the_plan_for_good() {
    let mut r = OperationPlanResult::new();
    r.insert(page("a"), completed());
    r.insert(page("b"), failed());
    assert_eq!(r.plan_status(), OperationPlanStatus::Failed);
    r.insert(page("c"), completed());
    r.insert(page("d"), completed());
    assert_eq!(r.plan_status(), OperationPlanStatus::Failed);
}

#[test]
fn page_not_run_does_not_undo_completion() {
    let mut r = OperationPlanResult::new();
    r.insert(page("a"), completed());
    r.insert(page("b"), OperationResults::new());
    assert_eq!(r.plan_status(), OperationPlanStatus::Completed);
}

#[test]
fn end_to_end_three_pages() {
    let pages = vec![page("A"), page("B"), page("C")];
    let ops = vec![
        compound("A", &[ok(), ok()]),
        compound("B", &[ok(), bad(), ok()]),
        CompoundPageOperation::make_no_op(String::from("C"), String::from("/scans/C")),
    ];
    let plan = OperationPlan::build_schedule(&pages, &ops).unwrap();
    let result = plan.execute_plan();
    assert_eq!(result.get(&page("A")).unwrap().status(), OperationStatus::Completed);
    assert_eq!(result.get(&page("B")).unwrap().status(), OperationStatus::Failed);
    assert_eq!(result.get(&page("C")).unwrap().status(), OperationStatus::Completed);
    assert_eq!(result.get(&page("B")).unwrap().as_slice().len(), 3);
    assert_eq!(result.plan_status(), OperationPlanStatus::Failed);
    assert_eq!(result.len(), 3);
}

#[test]
fn plan_result_text() {
    let mut r = OperationPlanResult::new();
    r.insert(page("a.png"), completed());
    assert_eq!(
        r.to_string(),
        "Operation Results: \nSTATUS: Completed\na.png: OperationResults(status: Completed, results: [ok])\n"
    );
    assert_eq!(OperationPlanStatus::NotCompleted.to_string(), "NotCompleted");
    assert_eq!(OperationPlanStatus::Aborted.to_string(), "Aborted");
}
