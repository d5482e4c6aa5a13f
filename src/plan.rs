//! Plans that bind a compound operation to every page, their execution, and
//! the aggregation of the pages' outcomes into one status.
use vstd::prelude::*;
use crate::compound::{
    compiles_to, compound_cloned, flatten, is_sequential_run, lemma_sequential_status, outcome_views, ran_each,
    CompoundPageOperation,
};
use crate::entries::{entries_map, find_page, insert_entry, keys_unique, lemma_entries_map, lemma_entries_map_len};
use crate::page::{Page, PageView};
use crate::page_ops::{ElementaryPageOperations, PageOps, RunOperation};
use crate::results::{executed_status, has_failure, OperationResults, OperationStatus};
use crate::text::push_text;

verus! {

#[derive(Clone, Copy, PartialEq, Eq, Structural, Debug)]
pub enum OperationPlanStatus {
    NotCompleted,
    Completed,
    Failed,
    Aborted,
}

impl OperationPlanStatus {
    pub open spec fn text(&self) -> Seq<char> {
        match self {
            OperationPlanStatus::NotCompleted => "NotCompleted"@,
            OperationPlanStatus::Completed => "Completed"@,
            OperationPlanStatus::Failed => "Failed"@,
            OperationPlanStatus::Aborted => "Aborted"@,
        }
    }

    pub fn to_string(&self) -> (r: String)
        ensures
            r@ == self.text(),
    {
        match self {
            OperationPlanStatus::NotCompleted => String::from_str("NotCompleted"),
            OperationPlanStatus::Completed => String::from_str("Completed"),
            OperationPlanStatus::Failed => String::from_str("Failed"),
            OperationPlanStatus::Aborted => String::from_str("Aborted"),
        }
    }
}

/// One line per entry: the page's file name and its outcomes.
pub open spec fn report_lines(entries: Seq<(Page, OperationResults)>) -> Seq<char>
    decreases entries.len(),
{
    if entries.len() == 0 {
        Seq::empty()
    } else {
        report_lines(entries.drop_last()) + entries.last().0@.file_name + ": "@ + entries.last().1.text() + "\n"@
    }
}

/// The status of a plan after one more page's outcomes are recorded.
/// A failure is final. A page that did not run does not undo the completion
/// of the pages before it.
pub open spec fn spec_merge_status(plan: OperationPlanStatus, page: OperationStatus) -> OperationPlanStatus {
    match plan {
        OperationPlanStatus::Failed => OperationPlanStatus::Failed,
        OperationPlanStatus::NotCompleted => match page {
            OperationStatus::NotExecuted => OperationPlanStatus::NotCompleted,
            OperationStatus::Completed => OperationPlanStatus::Completed,
            OperationStatus::Failed => OperationPlanStatus::Failed,
            OperationStatus::Aborted => OperationPlanStatus::Aborted,
        },
        OperationPlanStatus::Completed => match page {
            OperationStatus::NotExecuted => OperationPlanStatus::Completed,
            OperationStatus::Completed => OperationPlanStatus::Completed,
            OperationStatus::Failed => OperationPlanStatus::Failed,
            OperationStatus::Aborted => OperationPlanStatus::Failed,
        },
        OperationPlanStatus::Aborted => match page {
            OperationStatus::Aborted => OperationPlanStatus::Aborted,
            _ => OperationPlanStatus::Failed,
        },
    }
}

#[verifier::when_used_as_spec(spec_merge_status)]
pub fn merge_status(plan: OperationPlanStatus, page: OperationStatus) -> (r: OperationPlanStatus)
    ensures
        r == spec_merge_status(plan, page),
{
    match plan {
        OperationPlanStatus::Failed => OperationPlanStatus::Failed,
        OperationPlanStatus::NotCompleted => match page {
            OperationStatus::NotExecuted => OperationPlanStatus::NotCompleted,
            OperationStatus::Completed => OperationPlanStatus::Completed,
            OperationStatus::Failed => OperationPlanStatus::Failed,
            OperationStatus::Aborted => OperationPlanStatus::Aborted,
        },
        OperationPlanStatus::Completed => match page {
            OperationStatus::NotExecuted => OperationPlanStatus::Completed,
            OperationStatus::Completed => OperationPlanStatus::Completed,
            OperationStatus::Failed => OperationPlanStatus::Failed,
            OperationStatus::Aborted => OperationPlanStatus::Failed,
        },
        OperationPlanStatus::Aborted => match page {
            OperationStatus::Aborted => OperationPlanStatus::Aborted,
            _ => OperationPlanStatus::Failed,
        },
    }
}

/// The status of a plan whose pages reported `s`, in the order they were recorded.
pub open spec fn aggregate_status(s: Seq<OperationStatus>) -> OperationPlanStatus
    decreases s.len(),
{
    if s.len() == 0 {
        OperationPlanStatus::NotCompleted
    } else {
        merge_status(aggregate_status(s.drop_last()), s.last())
    }
}

/// A plan whose pages all completed is completed; a plan in which some page
/// failed is failed, whatever the other pages reported before or after it.
pub proof fn lemma_plan_status_aggregation(s: Seq<OperationStatus>)
    ensures
        s.len() > 0 && (forall|i: int| 0 <= i < s.len() ==> s[i] == OperationStatus::Completed)
            ==> aggregate_status(s) == OperationPlanStatus::Completed,
        (exists|i: int| 0 <= i < s.len() && s[i] == OperationStatus::Failed)
            ==> aggregate_status(s) == OperationPlanStatus::Failed,
    decreases s.len(),
{
    if s.len() > 0 {
        let init = s.drop_last();
        lemma_plan_status_aggregation(init);
        if s.len() > 1 && (forall|i: int| 0 <= i < s.len() ==> s[i] == OperationStatus::Completed) {
            assert forall|i: int| 0 <= i < init.len() implies init[i] == OperationStatus::Completed by {
                assert(init[i] == s[i]);
            }
        }
        if exists|i: int| 0 <= i < s.len() && s[i] == OperationStatus::Failed {
            let i = choose|i: int| 0 <= i < s.len() && s[i] == OperationStatus::Failed;
            if i < init.len() {
                assert(init[i] == s[i]);
            }
        }
    }
}

/// The outcomes of executing a plan, page by page, with the plan's status.
pub struct OperationPlanResult {
    status: OperationPlanStatus,
    results: Vec<(Page, OperationResults)>,
    recorded: Ghost<Seq<OperationStatus>>,
}

impl View for OperationPlanResult {
    type V = Map<PageView, OperationResults>;

    closed spec fn view(&self) -> Map<PageView, OperationResults> {
        entries_map(self.results@)
    }
}

impl OperationPlanResult {
    #[verifier::type_invariant]
    spec fn well_formed(self) -> bool {
        &&& self.status == aggregate_status(self.recorded@)
        &&& keys_unique(self.results@)
    }

    /// The statuses of all outcomes recorded so far, in order, including those
    /// that a later outcome for the same page replaced.
    pub closed spec fn recorded(&self) -> Seq<OperationStatus> {
        self.recorded@
    }

    pub closed spec fn spec_plan_status(&self) -> OperationPlanStatus {
        self.status
    }

    pub fn new() -> (r: OperationPlanResult)
        ensures
            r@ == Map::<PageView, OperationResults>::empty(),
            r.recorded() == Seq::<OperationStatus>::empty(),
            r.plan_status() == OperationPlanStatus::NotCompleted,
    {
        OperationPlanResult {
            status: OperationPlanStatus::NotCompleted,
            results: Vec::new(),
            recorded: Ghost(Seq::empty()),
        }
    }

    /// Records the outcomes of one page and folds their status into the plan's.
    pub fn insert(&mut self, page: Page, res: OperationResults)
        ensures
            final(self)@ == old(self)@.insert(page@, res),
            final(self).recorded() == old(self).recorded().push(res.status()),
            final(self).plan_status() == merge_status(old(self).plan_status(), res.status()),
    {
        let mut taken = OperationPlanResult::new();
        core::mem::swap(self, &mut taken);
        proof {
            use_type_invariant(&taken);
        }
        let OperationPlanResult { status, mut results, recorded } = taken;
        let page_status = res.status();
        let new_status = merge_status(status, page_status);
        let ghost new_recorded = recorded@.push(page_status);
        assert(new_recorded.drop_last() =~= recorded@);
        insert_entry(&mut results, page, res);
        *self = OperationPlanResult { status: new_status, results, recorded: Ghost(new_recorded) };
    }

    /// The status of the plan over every outcome recorded so far.
    #[verifier::when_used_as_spec(spec_plan_status)]
    pub fn plan_status(&self) -> (r: OperationPlanStatus)
        ensures
            r == self.plan_status(),
            r == aggregate_status(self.recorded()),
    {
        proof {
            use_type_invariant(self);
        }
        self.status
    }

    pub fn is_not_completed(&self) -> (r: bool)
        ensures
            r == (self.plan_status() == OperationPlanStatus::NotCompleted),
    {
        self.status == OperationPlanStatus::NotCompleted
    }

    /// The outcomes recorded for `page`.
    pub fn get(&self, page: &Page) -> (r: Option<&OperationResults>)
        ensures
            match r {
                Some(res) => self@.contains_key(page@) && *res == self@[page@],
                None => !self@.contains_key(page@),
            },
    {
        proof {
            use_type_invariant(self);
            lemma_entries_map(self.results@);
        }
        match find_page(&self.results, page) {
            Some(i) => Some(&self.results[i].1),
            None => None,
        }
    }

    /// The entries behind the table, in the order they are kept.
    pub closed spec fn entries(&self) -> Seq<(Page, OperationResults)> {
        self.results@
    }

    /// Every page with its outcomes, each page once, in no promised order.
    pub fn as_slice(&self) -> (r: &[(Page, OperationResults)])
        ensures
            r@ == self.entries(),
            keys_unique(r@),
            entries_map(r@) == self@,
    {
        proof {
            use_type_invariant(self);
        }
        self.results.as_slice()
    }

    pub fn len(&self) -> (r: usize)
        ensures
            r == self@.len(),
    {
        proof {
            use_type_invariant(self);
            lemma_entries_map_len(self.results@);
        }
        self.results.len()
    }

    /// A report: the plan's status, then a line for each page.
    pub open spec fn text(&self) -> Seq<char> {
        "Operation Results: \nSTATUS: "@ + self.plan_status().text() + "\n"@ + report_lines(self.entries())
    }

    pub fn to_string(&self) -> (r: String)
        ensures
            r@ == self.text(),
    {
        let mut output = String::new();
        push_text(&mut output, "Operation Results: \nSTATUS: ");
        let status = self.status.to_string();
        push_text(&mut output, status.as_str());
        push_text(&mut output, "\n");
        let ghost prefix = output@;
        let mut i: usize = 0;
        while i < self.results.len()
            invariant
                0 <= i <= self.entries().len(),
                output@ == prefix + report_lines(self.entries().take(i as int)),
            decreases self.entries().len() - i,
        {
            let entry = &self.results[i];
            push_text(&mut output, entry.0.file_name().as_str());
            push_text(&mut output, ": ");
            let res = entry.1.to_string();
            push_text(&mut output, res.as_str());
            push_text(&mut output, "\n");
            proof {
                let next = self.entries().take(i + 1);
                assert(next.drop_last() =~= self.entries().take(i as int));
                assert(next.last() == self.entries()[i as int]);
            }
            i = i + 1;
        }
        assert(self.entries().take(self.entries().len() as int) =~= self.entries());
        output
    }
}

/// Why a plan could not be built.
#[derive(Clone, Copy, PartialEq, Eq, Structural, Debug)]
pub enum ScheduleError {
    /// There are not as many compound operations as pages.
    LengthMismatch,
}

/// `m` is the table built from the first `n` pages, each bound to a copy of
/// the compound operation at the same position; where a page comes more than
/// once, its last position wins.
pub open spec fn is_schedule<Op: Clone>(
    pages: Seq<Page>,
    ops: Seq<CompoundPageOperation<Op>>,
    m: Map<PageView, CompoundPageOperation<Op>>,
    n: int,
) -> bool {
    &&& forall|k: PageView| #[trigger] m.contains_key(k) <==> exists|i: int| 0 <= i < n && (#[trigger] pages[i])@ == k
    &&& forall|i: int|
        0 <= i < n && (forall|j: int| i < j < n ==> (#[trigger] pages[j])@ != pages[i]@)
            ==> compound_cloned(ops[i], #[trigger] m[pages[i]@])
}

/// `dst` is the plan `src` with every page's compound operation lowered into `Op`.
pub open spec fn plan_compiles_to<Op: ElementaryPageOperations>(
    src: Map<PageView, CompoundPageOperation<PageOps>>,
    dst: Map<PageView, CompoundPageOperation<Op>>,
) -> bool {
    &&& dst.dom() == src.dom()
    &&& forall|k: PageView| #[trigger] src.contains_key(k) ==> compiles_to(src[k], dst[k])
}

/// A copy of a value of `Op` equals the value it was copied from.
pub open spec fn clone_is_exact<Op: Clone>() -> bool {
    forall|a: Op, b: Op| #[trigger] cloned::<Op>(a, b) ==> a == b
}

/// `r` is what running a copy of `op` yields.
pub open spec fn ran_copy_of<Op: RunOperation + Clone>(r: OperationResults, op: CompoundPageOperation<Op>) -> bool {
    &&& r.status() == executed_status(r@)
    &&& exists|copy: CompoundPageOperation<Op>| #[trigger] compound_cloned(op, copy) && is_sequential_run(r, copy@)
}

/// `res` holds, for every page of `plan`, the outcomes of running the page's
/// compound operation.
pub open spec fn plan_executed_as<Op: RunOperation + Clone>(
    plan: Map<PageView, CompoundPageOperation<Op>>,
    res: Map<PageView, OperationResults>,
) -> bool {
    &&& res.dom() == plan.dom()
    &&& forall|k: PageView| #[trigger] plan.contains_key(k) ==> ran_copy_of(res[k], plan[k])
}

/// What to do to every page: a table from page to compound operation.
pub struct OperationPlan<Op> {
    plan: Vec<(Page, CompoundPageOperation<Op>)>,
}

impl<Op> View for OperationPlan<Op> {
    type V = Map<PageView, CompoundPageOperation<Op>>;

    closed spec fn view(&self) -> Map<PageView, CompoundPageOperation<Op>> {
        entries_map(self.plan@)
    }
}

impl<Op> OperationPlan<Op> {
    #[verifier::type_invariant]
    spec fn well_formed(self) -> bool {
        keys_unique(self.plan@)
    }

    /// A plan with no page.
    pub fn new() -> (r: OperationPlan<Op>)
        ensures
            r@ == Map::<PageView, CompoundPageOperation<Op>>::empty(),
    {
        OperationPlan { plan: Vec::new() }
    }

    /// Binds `page` to `op`, replacing any operation the page had.
    fn insert(&mut self, page: Page, op: CompoundPageOperation<Op>)
        ensures
            final(self)@ == old(self)@.insert(page@, op),
    {
        let mut taken = OperationPlan::new();
        core::mem::swap(self, &mut taken);
        proof {
            use_type_invariant(&taken);
        }
        let OperationPlan { mut plan } = taken;
        insert_entry(&mut plan, page, op);
        *self = OperationPlan { plan };
    }

    pub fn len(&self) -> (r: usize)
        ensures
            r == self@.len(),
    {
        proof {
            use_type_invariant(self);
            lemma_entries_map_len(self.plan@);
        }
        self.plan.len()
    }

    /// The compound operation bound to `page`.
    pub fn get(&self, page: &Page) -> (r: Option<&CompoundPageOperation<Op>>)
        ensures
            match r {
                Some(op) => self@.contains_key(page@) && *op == self@[page@],
                None => !self@.contains_key(page@),
            },
    {
        proof {
            use_type_invariant(self);
            lemma_entries_map(self.plan@);
        }
        match find_page(&self.plan, page) {
            Some(i) => Some(&self.plan[i].1),
            None => None,
        }
    }

    /// Every page with its compound operation, each page once, in no promised order.
    pub fn as_slice(&self) -> (r: &[(Page, CompoundPageOperation<Op>)])
        ensures
            keys_unique(r@),
            entries_map(r@) == self@,
    {
        proof {
            use_type_invariant(self);
        }
        self.plan.as_slice()
    }

    /// Binds each page to the compound operation at the same position. Fails
    /// when the two are not equally many; a page given twice keeps the later
    /// operation.
    pub fn build_schedule(pages: &[Page], ops: &[CompoundPageOperation<Op>]) -> (r: Result<OperationPlan<Op>, ScheduleError>)
        where
            Op: Clone,
        ensures
            r is Err <==> pages@.len() != ops@.len(),
            r matches Err(e) ==> e == ScheduleError::LengthMismatch,
            r matches Ok(plan) ==> is_schedule(pages@, ops@, plan@, pages@.len() as int),
    {
        if pages.len() != ops.len() {
            return Err(ScheduleError::LengthMismatch);
        }
        let mut plan = OperationPlan::new();
        let mut i: usize = 0;
        while i < pages.len()
            invariant
                0 <= i <= pages@.len(),
                pages@.len() == ops@.len(),
                is_schedule(pages@, ops@, plan@, i as int),
            decreases pages@.len() - i,
        {
            let ghost before = plan@;
            plan.insert(pages[i].clone(), ops[i].clone());
            proof {
                let key = pages@[i as int]@;
                assert forall|k: PageView| #[trigger] plan@.contains_key(k) <==> exists|j: int| 0 <= j < i + 1 && (#[trigger] pages@[j])@ == k by {
                    if k != key && plan@.contains_key(k) {
                        assert(before.contains_key(k));
                    }
                    if exists|j: int| 0 <= j < i + 1 && (#[trigger] pages@[j])@ == k {
                        let j = choose|j: int| 0 <= j < i + 1 && (#[trigger] pages@[j])@ == k;
                        if j < i {
                            assert(before.contains_key(k));
                        }
                    }
                }
                assert forall|a: int|
                    0 <= a < i + 1 && (forall|j: int| a < j < i + 1 ==> (#[trigger] pages@[j])@ != pages@[a]@)
                    implies compound_cloned(ops@[a], #[trigger] plan@[pages@[a]@]) by {
                    if a < i {
                        assert(pages@[i as int]@ != pages@[a]@);
                        assert forall|j: int| a < j < i implies (#[trigger] pages@[j])@ != pages@[a]@ by {
                            assert(a < j < i + 1);
                        }
                    }
                }
            }
            i = i + 1;
        }
        Ok(plan)
    }

    /// Runs every page's compound operation and records its outcomes. A failing
    /// page does not stop the pages after it, and a plan, once started, runs
    /// to its end. The plan is failed when some page
    /// failed, completed when all pages completed, and not completed when there
    /// was no page.
    pub fn execute_plan(&self) -> (r: OperationPlanResult)
        where
            Op: RunOperation + Clone,
        ensures
            plan_executed_as(self@, r@),
            r.plan_status() == (if self@.len() == 0 {
                OperationPlanStatus::NotCompleted
            } else if exists|k: PageView| #[trigger] r@.contains_key(k) && r@[k].status() == OperationStatus::Failed {
                OperationPlanStatus::Failed
            } else {
                OperationPlanStatus::Completed
            }),
    {
        proof {
            use_type_invariant(self);
            lemma_entries_map(self.plan@);
            lemma_entries_map_len(self.plan@);
        }
        let ghost entries = self.plan@;
        let mut report = OperationPlanResult::new();
        let mut i: usize = 0;
        while i < self.plan.len()
            invariant
                0 <= i <= entries.len(),
                entries == self.plan@,
                keys_unique(entries),
                forall|k: PageView| #[trigger] report@.contains_key(k) <==> exists|j: int| 0 <= j < i && (#[trigger] entries[j]).0@ == k,
                forall|j: int| 0 <= j < i ==> ran_copy_of(#[trigger] report@[entries[j].0@], entries[j].1),
                report.recorded().len() == i,
                forall|j: int| 0 <= j < i ==> #[trigger] report.recorded()[j] == report@[entries[j].0@].status(),
            decreases entries.len() - i,
        {
            let entry = &self.plan[i];
            let copy = entry.1.clone();
            let ghost copied = copy;
            let result = copy.run();
            assert(compound_cloned(entry.1, copied) && is_sequential_run(result, copied@));
            let ghost before = report@;
            let ghost recorded_before = report.recorded();
            report.insert(entry.0.clone(), result);
            proof {
                let key = entries[i as int].0@;
                assert forall|k: PageView| #[trigger] report@.contains_key(k) <==> exists|j: int| 0 <= j < i + 1 && (#[trigger] entries[j]).0@ == k by {
                    if k != key && report@.contains_key(k) {
                        assert(before.contains_key(k));
                    }
                    if exists|j: int| 0 <= j < i + 1 && (#[trigger] entries[j]).0@ == k {
                        let j = choose|j: int| 0 <= j < i + 1 && (#[trigger] entries[j]).0@ == k;
                        if j < i {
                            assert(before.contains_key(k));
                        }
                    }
                }
                assert forall|j: int| 0 <= j < i + 1 implies ran_copy_of(#[trigger] report@[entries[j].0@], entries[j].1) by {
                    if j < i {
                        assert(entries[j].0@ != key);
                    }
                }
                assert forall|j: int| 0 <= j < i + 1 implies #[trigger] report.recorded()[j] == report@[entries[j].0@].status() by {
                    if j < i {
                        assert(entries[j].0@ != key);
                        assert(report.recorded()[j] == recorded_before[j]);
                    }
                }
            }
            i = i + 1;
        }
        proof {
            use_type_invariant(&report);
            let s = report.recorded();
            assert forall|k: PageView| #[trigger] self@.contains_key(k) implies ran_copy_of(report@[k], self@[k]) by {
                let j = choose|j: int| 0 <= j < entries.len() && (#[trigger] entries[j]).0@ == k;
                assert(ran_copy_of(report@[entries[j].0@], entries[j].1));
            }
            assert(report@.dom() =~= self@.dom());
            lemma_plan_status_aggregation(s);
            if exists|k: PageView| #[trigger] report@.contains_key(k) && report@[k].status() == OperationStatus::Failed {
                let k = choose|k: PageView| #[trigger] report@.contains_key(k) && report@[k].status() == OperationStatus::Failed;
                let j = choose|j: int| 0 <= j < entries.len() && (#[trigger] entries[j]).0@ == k;
                assert(s[j] == OperationStatus::Failed);
            } else if entries.len() > 0 {
                assert forall|j: int| 0 <= j < s.len() implies s[j] == OperationStatus::Completed by {
                    let k = entries[j].0@;
                    assert(report@.contains_key(k));
                    assert(s[j] == report@[k].status());
                    assert(ran_copy_of(report@[entries[j].0@], entries[j].1));
                    assert(report@[k].status() != OperationStatus::Failed);
                }
                assert(aggregate_status(s) == OperationPlanStatus::Completed);
            } else {
                assert(s.len() == 0);
                assert(self@.len() == 0);
            }
        }
        report
    }
}

impl OperationPlan<PageOps> {
    /// Lowers every page's compound operation into the backend `Op`, keeping
    /// each page bound to its own operations.
    pub fn compile<Op: ElementaryPageOperations>(self) -> (r: OperationPlan<Op>)
        ensures
            plan_compiles_to(self@, r@),
    {
        proof {
            use_type_invariant(&self);
            lemma_entries_map(self.plan@);
        }
        let OperationPlan { plan } = self;
        let ghost source = plan@;
        let mut remaining = plan;
        let mut compiled: Vec<(Page, CompoundPageOperation<Op>)> = Vec::new();
        while remaining.len() > 0
            invariant
                compiled@.len() + remaining@.len() == source.len(),
                remaining@ == source.subrange(compiled@.len() as int, source.len() as int),
                forall|j: int| 0 <= j < compiled@.len() ==> (#[trigger] compiled@[j]).0@ == source[j].0@,
                forall|j: int| 0 <= j < compiled@.len() ==> compiles_to(source[j].1, (#[trigger] compiled@[j]).1),
            decreases remaining@.len(),
        {
            let (page, op) = remaining.remove(0);
            compiled.push((page, op.compile()));
        }
        proof {
            assert(keys_unique(compiled@)) by {
                assert forall|a: int, b: int| 0 <= a < b < compiled@.len() implies (#[trigger] compiled@[a]).0@ != (#[trigger] compiled@[b]).0@ by {
                    assert(source[a].0@ != source[b].0@);
                }
            }
            lemma_entries_map(compiled@);
            let src = entries_map(source);
            let dst = entries_map(compiled@);
            assert forall|k: PageView| #[trigger] dst.contains_key(k) == src.contains_key(k) by {
                if dst.contains_key(k) {
                    let j = choose|j: int| 0 <= j < compiled@.len() && (#[trigger] compiled@[j]).0@ == k;
                    assert(source[j].0@ == k);
                }
                if src.contains_key(k) {
                    let j = choose|j: int| 0 <= j < source.len() && (#[trigger] source[j]).0@ == k;
                    assert(compiled@[j].0@ == k);
                }
            }
            assert(dst.dom() =~= src.dom());
            assert forall|k: PageView| #[trigger] src.contains_key(k) implies compiles_to(src[k], dst[k]) by {
                let j = choose|j: int| 0 <= j < source.len() && (#[trigger] source[j]).0@ == k;
                assert(compiled@[j].0@ == k);
                assert(dst[compiled@[j].0@] == compiled@[j].1);
            }
        }
        OperationPlan { plan: compiled }
    }
}

/// With operations that copy exactly, executing a plan runs every page's own
/// operations, in order, and nothing else: a page whose operations all
/// succeed, or that has none, is completed, and a page with a failing
/// operation is failed, wherever that operation stands.
pub proof fn lemma_execution_per_page<Op: RunOperation + Clone>(
    plan: Map<PageView, CompoundPageOperation<Op>>,
    res: Map<PageView, OperationResults>,
)
    requires
        clone_is_exact::<Op>(),
        plan_executed_as(plan, res),
    ensures
        res.dom() == plan.dom(),
        forall|k: PageView| #[trigger] plan.contains_key(k) ==> exists|outcomes: Seq<OperationResults>| {
            &&& #[trigger] ran_each(plan[k]@, outcomes)
            &&& res[k]@ == flatten(outcome_views(outcomes))
            &&& res[k].status() == (if exists|i: int| 0 <= i < outcomes.len() && has_failure((#[trigger] outcomes[i])@) {
                OperationStatus::Failed
            } else {
                OperationStatus::Completed
            })
        },
{
    assert forall|k: PageView| #[trigger] plan.contains_key(k) implies exists|outcomes: Seq<OperationResults>| {
        &&& #[trigger] ran_each(plan[k]@, outcomes)
        &&& res[k]@ == flatten(outcome_views(outcomes))
        &&& res[k].status() == (if exists|i: int| 0 <= i < outcomes.len() && has_failure((#[trigger] outcomes[i])@) {
            OperationStatus::Failed
        } else {
            OperationStatus::Completed
        })
    } by {
        lemma_ran_own_operations(plan[k], res[k]);
        let outcomes = choose|outcomes: Seq<OperationResults>| ran_each(plan[k]@, outcomes) && res[k]@ == #[trigger] flatten(outcome_views(outcomes));
        lemma_sequential_status(res[k], plan[k]@, outcomes);
    }
}

/// With operations that copy exactly, running a copy of `op` is running `op`.
proof fn lemma_ran_own_operations<Op: RunOperation + Clone>(op: CompoundPageOperation<Op>, r: OperationResults)
    requires
        clone_is_exact::<Op>(),
        ran_copy_of(r, op),
    ensures
        is_sequential_run(r, op@),
{
    let copy = choose|copy: CompoundPageOperation<Op>| #[trigger] compound_cloned(op, copy) && is_sequential_run(r, copy@);
    assert forall|i: int| 0 <= i < op@.len() implies copy@[i] == op@[i] by {
        assert(cloned::<Op>(op@[i], copy@[i]));
    }
    assert(copy@ =~= op@);
}

/// Lowering a plan into a backend and then running it runs, for every page,
/// one backend operation per abstract operation of the page, each a copy of
/// what the backend's constructor built for that abstract operation, in the
/// order of the page. When the backend's operations copy exactly, what runs
/// is exactly what the constructors built.
pub proof fn lemma_compile_then_run<Op: ElementaryPageOperations + RunOperation + Clone>(
    source: Map<PageView, CompoundPageOperation<PageOps>>,
    compiled: Map<PageView, CompoundPageOperation<Op>>,
    outcome: Map<PageView, OperationResults>,
)
    requires
        plan_compiles_to(source, compiled),
        plan_executed_as(compiled, outcome),
    ensures
        outcome.dom() == source.dom(),
        forall|k: PageView| #[trigger] source.contains_key(k) ==> exists|ran: Seq<Op>| {
            &&& ran.len() == source[k]@.len()
            &&& forall|i: int| 0 <= i < ran.len() ==> {
                &&& (#[trigger] compiled[k]@[i]).realizes(source[k]@[i])
                &&& cloned::<Op>(compiled[k]@[i], ran[i])
            }
            &&& #[trigger] is_sequential_run(outcome[k], ran)
        },
        clone_is_exact::<Op>() ==> forall|k: PageView| #[trigger] source.contains_key(k) ==> {
            &&& compiled[k]@.len() == source[k]@.len()
            &&& forall|i: int| 0 <= i < source[k]@.len() ==> (#[trigger] compiled[k]@[i]).realizes(source[k]@[i])
            &&& is_sequential_run(outcome[k], compiled[k]@)
        },
{
    assert forall|k: PageView| #[trigger] source.contains_key(k) implies exists|ran: Seq<Op>| {
        &&& ran.len() == source[k]@.len()
        &&& forall|i: int| 0 <= i < ran.len() ==> {
            &&& (#[trigger] compiled[k]@[i]).realizes(source[k]@[i])
            &&& cloned::<Op>(compiled[k]@[i], ran[i])
        }
        &&& #[trigger] is_sequential_run(outcome[k], ran)
    } by {
        assert(compiled.contains_key(k));
        assert(compiles_to(source[k], compiled[k]));
        assert(ran_copy_of(outcome[k], compiled[k]));
        let copy = choose|copy: CompoundPageOperation<Op>| #[trigger] compound_cloned(compiled[k], copy) && is_sequential_run(outcome[k], copy@);
        assert(is_sequential_run(outcome[k], copy@));
    }
    if clone_is_exact::<Op>() {
        assert forall|k: PageView| #[trigger] source.contains_key(k) implies {
            &&& compiled[k]@.len() == source[k]@.len()
            &&& forall|i: int| 0 <= i < source[k]@.len() ==> (#[trigger] compiled[k]@[i]).realizes(source[k]@[i])
            &&& is_sequential_run(outcome[k], compiled[k]@)
        } by {
            assert(compiled.contains_key(k));
            assert(compiles_to(source[k], compiled[k]));
            lemma_ran_own_operations(compiled[k], outcome[k]);
        }
    }
}

} // verus!
