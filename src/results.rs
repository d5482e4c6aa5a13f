//! Outcomes of running operations, and the status derived from them.
use vstd::prelude::*;
use crate::text::push_text;

verus! {

/// One outcome: the output of an operation, or a description of its error.
pub type OperationResult = Result<String, String>;

#[derive(Clone, Copy, PartialEq, Eq, Structural, Debug)]
pub enum OperationStatus {
    /// Not (yet) run.
    NotExecuted,
    /// Ran to completion with no errors reported.
    Completed,
    /// Ran, with at least one error.
    Failed,
    /// Stopped before completion.
    Aborted,
}

impl OperationStatus {
    pub open spec fn text(&self) -> Seq<char> {
        match self {
            OperationStatus::NotExecuted => "NotExecuted"@,
            OperationStatus::Completed => "Completed"@,
            OperationStatus::Failed => "Failed"@,
            OperationStatus::Aborted => "Aborted"@,
        }
    }

    pub fn to_string(&self) -> (r: String)
        ensures
            r@ == self.text(),
    {
        match self {
            OperationStatus::NotExecuted => String::from_str("NotExecuted"),
            OperationStatus::Completed => String::from_str("Completed"),
            OperationStatus::Failed => String::from_str("Failed"),
            OperationStatus::Aborted => String::from_str("Aborted"),
        }
    }
}

/// The message of an outcome: the output of a success, the description of an error.
pub open spec fn result_text(r: OperationResult) -> Seq<char> {
    match r {
        Ok(s) => s@,
        Err(e) => e@,
    }
}

/// The messages of `s`, separated by commas.
pub open spec fn results_text(s: Seq<OperationResult>) -> Seq<char>
    decreases s.len(),
{
    if s.len() == 0 {
        Seq::empty()
    } else if s.len() == 1 {
        result_text(s[0])
    } else {
        results_text(s.drop_last()) + ", "@ + result_text(s.last())
    }
}

/// Some outcome in `s` is an error.
pub open spec fn has_failure(s: Seq<OperationResult>) -> bool {
    exists|i: int| 0 <= i < s.len() && (#[trigger] s[i]) is Err
}

/// The status of outcomes that were produced by running something.
pub open spec fn executed_status(s: Seq<OperationResult>) -> OperationStatus {
    if has_failure(s) {
        OperationStatus::Failed
    } else {
        OperationStatus::Completed
    }
}

/// How a stored status agrees with the outcomes it summarises: failed exactly
/// when an error is present, and not executed only while nothing was recorded.
pub open spec fn status_agrees(status: OperationStatus, s: Seq<OperationResult>) -> bool {
    &&& (status == OperationStatus::Failed) == has_failure(s)
    &&& status != OperationStatus::Aborted
    &&& status == OperationStatus::NotExecuted ==> s.len() == 0
}

/// The status after outcomes `other` are merged into outcomes `mine`, whose
/// status was `status`: merging nothing changes nothing, otherwise the status
/// is recomputed from the merged outcomes.
pub open spec fn appended_status(status: OperationStatus, mine: Seq<OperationResult>, other: Seq<OperationResult>) -> OperationStatus {
    if other.len() == 0 {
        status
    } else {
        executed_status(mine + other)
    }
}

/// Merging A with B and then with C gives the outcomes and the status that
/// merging A with the merge of B and C gives.
pub proof fn lemma_append_associative(
    a_status: OperationStatus,
    a: Seq<OperationResult>,
    b: Seq<OperationResult>,
    c: Seq<OperationResult>,
)
    ensures
        (a + b) + c == a + (b + c),
        appended_status(appended_status(a_status, a, b), a + b, c)
            == appended_status(a_status, a, b + c),
{
    assert((a + b) + c =~= a + (b + c));
    if b.len() == 0 {
        assert(a + b =~= a);
        assert(b + c =~= c);
    }
    if c.len() == 0 {
        assert(b + c =~= b);
    }
}

/// An ordered collection of outcomes with the status of the whole.
#[derive(Debug)]
pub struct OperationResults {
    status: OperationStatus,
    results: Vec<OperationResult>,
}

impl View for OperationResults {
    type V = Seq<OperationResult>;

    closed spec fn view(&self) -> Seq<OperationResult> {
        self.results@
    }
}

impl OperationResults {
    #[verifier::type_invariant]
    spec fn well_formed(self) -> bool {
        status_agrees(self.status, self.results@)
    }

    pub closed spec fn spec_status(&self) -> OperationStatus {
        self.status
    }

    pub fn new() -> (r: OperationResults)
        ensures
            r@ == Seq::<OperationResult>::empty(),
            r.status() == OperationStatus::NotExecuted,
    {
        OperationResults { status: OperationStatus::NotExecuted, results: Vec::new() }
    }

    /// The status of the whole collection.
    #[verifier::when_used_as_spec(spec_status)]
    pub fn status(&self) -> (r: OperationStatus)
        ensures
            r == self.status(),
            status_agrees(r, self@),
    {
        proof {
            use_type_invariant(self);
        }
        self.status
    }

    /// Records one more outcome. An error makes the status failed for good;
    /// a success moves a collection that had not run to completed.
    pub fn push(&mut self, result: OperationResult)
        ensures
            final(self)@ == old(self)@.push(result),
            final(self).status() == (if result is Err {
                OperationStatus::Failed
            } else if old(self).status() == OperationStatus::NotExecuted {
                OperationStatus::Completed
            } else {
                old(self).status()
            }),
    {
        let (old_status, mut results) = self.take_parts();
        let ghost before = results@;
        let failed = result.is_err();
        let status = if failed {
            OperationStatus::Failed
        } else if old_status == OperationStatus::NotExecuted {
            OperationStatus::Completed
        } else {
            old_status
        };
        results.push(result);
        proof {
            let after = results@;
            assert(after[after.len() - 1] == result);
            if has_failure(before) {
                let i = choose|i: int| 0 <= i < before.len() && (#[trigger] before[i]) is Err;
                assert(after[i] == before[i]);
            }
            if has_failure(after) && !failed {
                let i = choose|i: int| 0 <= i < after.len() && (#[trigger] after[i]) is Err;
                assert(before[i] == after[i]);
            }
        }
        *self = OperationResults { status, results };
    }

    /// Moves every outcome of `other` to the end of this collection and
    /// recomputes the status from the merged outcomes; merging in an empty
    /// collection leaves the status as it was. `other` is left empty.
    pub fn append(&mut self, other: &mut OperationResults)
        ensures
            final(self)@ == old(self)@ + old(other)@,
            final(self).status() == appended_status(old(self).status(), old(self)@, old(other)@),
            final(other)@ == Seq::<OperationResult>::empty(),
            final(other).status() == OperationStatus::NotExecuted,
    {
        let (my_status, mut results) = self.take_parts();
        let (their_status, mut moved) = other.take_parts();
        let other_empty = moved.len() == 0;
        let ghost mine = results@;
        let ghost theirs = moved@;
        results.append(&mut moved);
        proof {
            lemma_has_failure_concat(mine, theirs);
        }
        let status = if other_empty {
            my_status
        } else if my_status == OperationStatus::Failed || their_status == OperationStatus::Failed {
            OperationStatus::Failed
        } else {
            OperationStatus::Completed
        };
        *self = OperationResults { status, results };
    }

    /// Takes the status and the outcomes out, leaving a collection that has not run.
    fn take_parts(&mut self) -> (r: (OperationStatus, Vec<OperationResult>))
        ensures
            r.0 == old(self).status(),
            r.1@ == old(self)@,
            status_agrees(r.0, r.1@),
            final(self)@ == Seq::<OperationResult>::empty(),
            final(self).status() == OperationStatus::NotExecuted,
    {
        let mut taken = OperationResults::new();
        core::mem::swap(self, &mut taken);
        proof {
            use_type_invariant(&taken);
        }
        let OperationResults { status, results } = taken;
        (status, results)
    }

    /// Takes every outcome out of `results` as the outcomes of one run:
    /// failed if any of them is an error, completed otherwise.
    pub fn from_results(results: &mut Vec<OperationResult>) -> (r: OperationResults)
        ensures
            r@ == old(results)@,
            r.status() == executed_status(r@),
            final(results)@ == Seq::<OperationResult>::empty(),
    {
        let mut taken: Vec<OperationResult> = Vec::new();
        taken.append(results);
        let mut failed = false;
        let mut i: usize = 0;
        while i < taken.len()
            invariant
                0 <= i <= taken.len(),
                failed == exists|j: int| 0 <= j < i && (#[trigger] taken@[j]) is Err,
            decreases taken.len() - i,
        {
            if taken[i].is_err() {
                failed = true;
            }
            i = i + 1;
        }
        let status = if failed {
            OperationStatus::Failed
        } else {
            OperationStatus::Completed
        };
        OperationResults { status, results: taken }
    }

    /// The outcomes of a run that produced the single outcome `result`.
    pub fn from_result(result: OperationResult) -> (r: OperationResults)
        ensures
            r@ == seq![result],
            r.status() == (if result is Err {
                OperationStatus::Failed
            } else {
                OperationStatus::Completed
            }),
    {
        let status = if result.is_err() {
            OperationStatus::Failed
        } else {
            OperationStatus::Completed
        };
        let mut results: Vec<OperationResult> = Vec::new();
        results.push(result);
        proof {
            assert(results@[0] == result);
        }
        OperationResults { status, results }
    }

    /// Records that a run took place: a collection that had not run counts as
    /// completed, even when the run produced no outcome.
    pub(crate) fn mark_executed(&mut self)
        ensures
            final(self)@ == old(self)@,
            final(self).status() == (if old(self).status() == OperationStatus::NotExecuted {
                OperationStatus::Completed
            } else {
                old(self).status()
            }),
    {
        let (status, results) = self.take_parts();
        let status = if status == OperationStatus::NotExecuted {
            OperationStatus::Completed
        } else {
            status
        };
        *self = OperationResults { status, results };
    }

    /// The outcomes, in the order they were recorded.
    pub fn as_slice(&self) -> (r: &[OperationResult])
        ensures
            r@ == self@,
    {
        self.results.as_slice()
    }

    /// As in `OperationResults(status: Failed, results: done, no such file)`.
    pub open spec fn text(&self) -> Seq<char> {
        "OperationResults(status: "@ + self.status().text() + ", results: ["@ + results_text(self@) + "])"@
    }

    pub fn to_string(&self) -> (r: String)
        ensures
            r@ == self.text(),
    {
        let mut output = String::new();
        push_text(&mut output, "OperationResults(status: ");
        let status = self.status.to_string();
        push_text(&mut output, status.as_str());
        push_text(&mut output, ", results: [");
        let ghost prefix = output@;
        let mut i: usize = 0;
        while i < self.results.len()
            invariant
                0 <= i <= self@.len(),
                output@ == prefix + results_text(self@.take(i as int)),
            decreases self@.len() - i,
        {
            if i > 0 {
                push_text(&mut output, ", ");
            }
            match &self.results[i] {
                Ok(message) => push_text(&mut output, message.as_str()),
                Err(description) => push_text(&mut output, description.as_str()),
            }
            proof {
                let next = self@.take(i + 1);
                assert(next.drop_last() =~= self@.take(i as int));
                assert(next.last() == self@[i as int]);
                if i == 0 {
                    assert(self@.take(0) =~= Seq::<OperationResult>::empty());
                }
            }
            i = i + 1;
        }
        assert(self@.take(self@.len() as int) =~= self@);
        push_text(&mut output, "])");
        output
    }

    pub fn is_failed(&self) -> (r: bool)
        ensures
            r == (self.status() == OperationStatus::Failed),
            r == has_failure(self@),
    {
        proof {
            use_type_invariant(self);
        }
        self.status == OperationStatus::Failed
    }

    /// Nothing here stops a run part way, so a collection built by this
    /// library is never aborted.
    pub fn is_aborted(&self) -> (r: bool)
        ensures
            r == (self.status() == OperationStatus::Aborted),
    {
        proof {
            use_type_invariant(self);
        }
        self.status == OperationStatus::Aborted
    }

    pub fn is_empty(&self) -> (r: bool)
        ensures
            r == (self@.len() == 0),
    {
        proof {
            use_type_invariant(self);
        }
        self.results.len() == 0
    }
}

/// An error among two sequences of outcomes is an error of their concatenation.
pub proof fn lemma_has_failure_concat(a: Seq<OperationResult>, b: Seq<OperationResult>)
    ensures
        has_failure(a + b) == (has_failure(a) || has_failure(b)),
{
    let ab = a + b;
    if has_failure(a) {
        let i = choose|i: int| 0 <= i < a.len() && (#[trigger] a[i]) is Err;
        assert(ab[i] == a[i]);
    }
    if has_failure(b) {
        let i = choose|i: int| 0 <= i < b.len() && (#[trigger] b[i]) is Err;
        assert(ab[a.len() + i] == b[i]);
    }
    if has_failure(ab) {
        let i = choose|i: int| 0 <= i < ab.len() && (#[trigger] ab[i]) is Err;
        if i < a.len() {
            assert(a[i] == ab[i]);
        } else {
            assert(b[i - a.len()] == ab[i]);
        }
    }
}

} // verus!
