//! Several operations applied to one page, one after another.
use vstd::prelude::*;
use crate::page::{FileName, FilePath};
use crate::page_ops::{compile_operation, ElementaryPageOperations, NoOpMarker, PageOps, RunOperation};
use crate::results::{executed_status, has_failure, OperationResult, OperationResults, OperationStatus};
use crate::text::push_text;

verus! {

/// The outcomes of several runs, one after another.
pub open spec fn flatten(parts: Seq<Seq<OperationResult>>) -> Seq<OperationResult>
    decreases parts.len(),
{
    if parts.len() == 0 {
        Seq::empty()
    } else {
        flatten(parts.drop_last()) + parts.last()
    }
}

/// The outcomes held by each collection, in order.
pub open spec fn outcome_views(rs: Seq<OperationResults>) -> Seq<Seq<OperationResult>> {
    rs.map_values(|r: OperationResults| r@)
}

/// `outcomes` can be what the backend reported for each of `ops`, in order.
pub open spec fn ran_each<Op: RunOperation>(ops: Seq<Op>, outcomes: Seq<OperationResults>) -> bool {
    &&& outcomes.len() == ops.len()
    &&& forall|i: int| 0 <= i < ops.len() ==> call_ensures(Op::run_operation, (ops[i],), #[trigger] outcomes[i])
}

/// `r` is what running `ops` one after another yields: the outcomes the
/// backend reported for each operation in turn, and a status that says
/// whether any of them failed.
pub open spec fn is_sequential_run<Op: RunOperation>(r: OperationResults, ops: Seq<Op>) -> bool {
    &&& r.status() == executed_status(r@)
    &&& exists|outcomes: Seq<OperationResults>| ran_each(ops, outcomes) && r@ == #[trigger] flatten(outcome_views(outcomes))
}

/// `b` is a copy of `a`: the same page, and a clone of each operation in turn.
pub open spec fn compound_cloned<Op: Clone>(a: CompoundPageOperation<Op>, b: CompoundPageOperation<Op>) -> bool {
    &&& b.spec_page_name() == a.spec_page_name()
    &&& b.spec_page_path() == a.spec_page_path()
    &&& b@.len() == a@.len()
    &&& forall|i: int| 0 <= i < a@.len() ==> cloned::<Op>(a@[i], #[trigger] b@[i])
}

/// `dst` is `src` lowered into the backend `Op`: the same page, and in the
/// same order one backend operation built for each abstract operation.
pub open spec fn compiles_to<Op: ElementaryPageOperations>(
    src: CompoundPageOperation<PageOps>,
    dst: CompoundPageOperation<Op>,
) -> bool {
    &&& dst.spec_page_name() == src.spec_page_name()
    &&& dst.spec_page_path() == src.spec_page_path()
    &&& dst@.len() == src@.len()
    &&& forall|i: int| 0 <= i < src@.len() ==> (#[trigger] dst@[i]).realizes(src@[i])
}

/// An ordered sequence of operations bound to one page. An empty sequence is
/// the canonical no-op.
#[derive(Debug)]
pub struct CompoundPageOperation<Op> {
    page_name: FileName,
    page_path: FilePath,
    ops: Vec<Op>,
}

impl<Op> View for CompoundPageOperation<Op> {
    type V = Seq<Op>;

    closed spec fn view(&self) -> Seq<Op> {
        self.ops@
    }
}

impl<Op> CompoundPageOperation<Op> {
    pub closed spec fn spec_page_name(&self) -> Seq<char> {
        self.page_name@
    }

    pub closed spec fn spec_page_path(&self) -> Seq<char> {
        self.page_path@
    }

    /// A compound operation over a copy of `ops`.
    pub fn new(page_name: FileName, page_path: FilePath, ops: &[Op]) -> (r: CompoundPageOperation<Op>)
        where
            Op: Clone,
        ensures
            r.spec_page_name() == page_name@,
            r.spec_page_path() == page_path@,
            r@.len() == ops@.len(),
            forall|i: int| 0 <= i < ops@.len() ==> cloned::<Op>(ops@[i], #[trigger] r@[i]),
    {
        let mut copy: Vec<Op> = Vec::new();
        let mut i: usize = 0;
        while i < ops.len()
            invariant
                0 <= i <= ops@.len(),
                copy@.len() == i,
                forall|j: int| 0 <= j < i ==> cloned::<Op>(ops@[j], #[trigger] copy@[j]),
            decreases ops@.len() - i,
        {
            copy.push(ops[i].clone());
            i = i + 1;
        }
        CompoundPageOperation { page_name, page_path, ops: copy }
    }

    /// The canonical no-op for a page: no operation at all.
    pub fn make_no_op(page_name: FileName, page_path: FilePath) -> (r: CompoundPageOperation<Op>)
        ensures
            r.spec_page_name() == page_name@,
            r.spec_page_path() == page_path@,
            r@ == Seq::<Op>::empty(),
    {
        CompoundPageOperation { page_name, page_path, ops: Vec::new() }
    }

    /// Holds when the page is to be left alone: the sequence is empty, or some
    /// operation in it, wherever it stands, is the explicit no-op marker.
    /// The whole sequence is scanned.
    pub fn is_no_op(&self) -> (r: bool)
        where
            Op: NoOpMarker,
        ensures
            r == (self@.len() == 0 || exists|i: int| 0 <= i < self@.len() && (#[trigger] self@[i]).is_no_op_marker()),
    {
        let mut found = false;
        let mut i: usize = 0;
        while i < self.ops.len()
            invariant
                0 <= i <= self@.len(),
                found == exists|j: int| 0 <= j < i && (#[trigger] self@[j]).is_no_op_marker(),
            decreases self@.len() - i,
        {
            if self.ops[i].marks_no_op() {
                found = true;
            }
            i = i + 1;
        }
        self.ops.len() == 0 || found
    }

    pub fn page_name(&self) -> (r: &FileName)
        ensures
            r@ == self.spec_page_name(),
    {
        &self.page_name
    }

    pub fn page_path(&self) -> (r: &FilePath)
        ensures
            r@ == self.spec_page_path(),
    {
        &self.page_path
    }

    /// The operations, in the order they run.
    pub fn as_slice(&self) -> (r: &[Op])
        ensures
            r@ == self@,
    {
        self.ops.as_slice()
    }

    /// Runs every operation in turn and gathers all their outcomes. A failure
    /// does not stop the operations after it; the status is failed when any
    /// outcome is an error and completed otherwise, also when there was
    /// nothing to run.
    pub fn run(self) -> (r: OperationResults)
        where
            Op: RunOperation,
        ensures
            is_sequential_run(r, self@),
    {
        let CompoundPageOperation { page_name: _, page_path: _, ops } = self;
        let ghost source = ops@;
        let mut remaining = ops;
        let mut final_results = OperationResults::new();
        let ghost mut outcomes: Seq<OperationResults> = Seq::empty();
        while remaining.len() > 0
            invariant
                outcomes.len() + remaining@.len() == source.len(),
                remaining@ == source.subrange(outcomes.len() as int, source.len() as int),
                ran_each(source.take(outcomes.len() as int), outcomes),
                final_results@ == flatten(outcome_views(outcomes)),
                final_results.status() == (if final_results@.len() == 0 {
                    OperationStatus::NotExecuted
                } else {
                    executed_status(final_results@)
                }),
            decreases remaining@.len(),
        {
            let op = remaining.remove(0);
            let ghost ran = op;
            let mut results = Op::run_operation(op);
            let ghost produced = results;
            final_results.append(&mut results);
            proof {
                let next = outcomes.push(produced);
                assert(outcome_views(next) =~= outcome_views(outcomes).push(produced@));
                assert(outcome_views(next).drop_last() =~= outcome_views(outcomes));
                assert(source.take(next.len() as int) =~= source.take(outcomes.len() as int).push(ran));
                outcomes = next;
            }
        }
        final_results.mark_executed();
        assert(source.take(outcomes.len() as int) =~= source);
        final_results
    }
}

impl<Op: RunOperation> RunOperation for CompoundPageOperation<Op> {
    fn run_operation(op: CompoundPageOperation<Op>) -> (r: OperationResults)
        ensures
            is_sequential_run(r, op@),
    {
        op.run()
    }
}

impl<Op: Clone> Clone for CompoundPageOperation<Op> {
    fn clone(&self) -> (r: Self)
        ensures
            compound_cloned(*self, r),
    {
        CompoundPageOperation::new(self.page_name.clone(), self.page_path.clone(), self.ops.as_slice())
    }
}

/// The textual forms of `ops`, separated by commas.
pub open spec fn ops_text(ops: Seq<PageOps>) -> Seq<char>
    decreases ops.len(),
{
    if ops.len() == 0 {
        Seq::empty()
    } else if ops.len() == 1 {
        ops[0].text()
    } else {
        ops_text(ops.drop_last()) + ", "@ + ops.last().text()
    }
}

impl CompoundPageOperation<PageOps> {
    /// As in `PageOps([Rescale(100 Pixels, Vertical), TrimTopEdge(5 Pixels)])`.
    pub open spec fn text(&self) -> Seq<char> {
        "PageOps(["@ + ops_text(self@) + "])"@
    }

    pub fn to_string(&self) -> (r: String)
        ensures
            r@ == self.text(),
    {
        let mut output = String::new();
        push_text(&mut output, "PageOps([");
        let ghost prefix = output@;
        let mut i: usize = 0;
        while i < self.ops.len()
            invariant
                0 <= i <= self@.len(),
                output@ == prefix + ops_text(self@.take(i as int)),
            decreases self@.len() - i,
        {
            if i > 0 {
                push_text(&mut output, ", ");
            }
            let op = self.ops[i].to_string();
            push_text(&mut output, op.as_str());
            proof {
                let next = self@.take(i + 1);
                assert(next.drop_last() =~= self@.take(i as int));
                assert(next.last() == self@[i as int]);
                if i == 0 {
                    assert(self@.take(0) =~= Seq::<PageOps>::empty());
                }
            }
            i = i + 1;
        }
        assert(self@.take(self@.len() as int) =~= self@);
        push_text(&mut output, "])");
        output
    }

    /// Lowers every operation into the backend `Op`, keeping the page and the
    /// order: the i-th operation of the result is built by the backend's
    /// constructor for the i-th abstract operation.
    pub fn compile<Op: ElementaryPageOperations>(self) -> (r: CompoundPageOperation<Op>)
        ensures
            compiles_to(self, r),
    {
        let CompoundPageOperation { page_name, page_path, ops } = self;
        let ghost source = ops@;
        let mut remaining = ops;
        let mut compiled: Vec<Op> = Vec::new();
        while remaining.len() > 0
            invariant
                compiled@.len() + remaining@.len() == source.len(),
                remaining@ == source.subrange(compiled@.len() as int, source.len() as int),
                forall|i: int| 0 <= i < compiled@.len() ==> (#[trigger] compiled@[i]).realizes(source[i]),
            decreases remaining@.len(),
        {
            let op = remaining.remove(0);
            compiled.push(compile_operation(op));
        }
        CompoundPageOperation { page_name, page_path, ops: compiled }
    }
}

/// Running a compound operation fails exactly when the outcomes of one of its
/// operations hold an error, wherever that operation stands; when every
/// operation succeeds, the run is completed and not failed.
pub proof fn lemma_sequential_status<Op: RunOperation>(
    r: OperationResults,
    ops: Seq<Op>,
    outcomes: Seq<OperationResults>,
)
    requires
        ran_each(ops, outcomes),
        r.status() == executed_status(r@),
        r@ == flatten(outcome_views(outcomes)),
    ensures
        r.status() == (if exists|i: int| 0 <= i < outcomes.len() && has_failure((#[trigger] outcomes[i])@) {
            OperationStatus::Failed
        } else {
            OperationStatus::Completed
        }),
        (forall|i: int| 0 <= i < outcomes.len() ==> !has_failure((#[trigger] outcomes[i])@)) ==> r.status() == OperationStatus::Completed,
{
    let parts = outcome_views(outcomes);
    lemma_flatten_failure(parts);
    if exists|i: int| 0 <= i < outcomes.len() && has_failure((#[trigger] outcomes[i])@) {
        let i = choose|i: int| 0 <= i < outcomes.len() && has_failure((#[trigger] outcomes[i])@);
        assert(parts[i] == outcomes[i]@);
    }
    if exists|i: int| 0 <= i < parts.len() && has_failure(#[trigger] parts[i]) {
        let i = choose|i: int| 0 <= i < parts.len() && has_failure(#[trigger] parts[i]);
        assert(parts[i] == outcomes[i]@);
    }
}

proof fn lemma_flatten_failure(parts: Seq<Seq<OperationResult>>)
    ensures
        has_failure(flatten(parts)) == exists|i: int| 0 <= i < parts.len() && has_failure(#[trigger] parts[i]),
    decreases parts.len(),
{
    if parts.len() > 0 {
        let init = parts.drop_last();
        lemma_flatten_failure(init);
        crate::results::lemma_has_failure_concat(flatten(init), parts.last());
        if exists|i: int| 0 <= i < init.len() && has_failure(#[trigger] init[i]) {
            let i = choose|i: int| 0 <= i < init.len() && has_failure(#[trigger] init[i]);
            assert(parts[i] == init[i]);
        }
        if exists|i: int| 0 <= i < parts.len() && has_failure(#[trigger] parts[i]) {
            let i = choose|i: int| 0 <= i < parts.len() && has_failure(#[trigger] parts[i]);
            if i < init.len() {
                assert(init[i] == parts[i]);
            }
        }
    }
}

} // verus!
