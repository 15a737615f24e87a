//! Folding the outcomes of a batch: every matched file gives one outcome,
//! and the sources of the successful ones are the only deletion candidates.
//! Paths are bytes, as the file system holds them.

use vstd::prelude::*;
use crate::convert::ConvertError;

verus! {

/// Why a file of a batch did not become a GIF.
#[derive(Clone, Copy, Debug, PartialEq, Eq, Structural)]
pub enum Failure {
    /// The source could not be read.
    Read,
    /// The conversion itself failed.
    Convert(ConvertError),
    /// The output file could not be created or written.
    Write,
}

/// The result of converting one matched file.
#[derive(Debug)]
pub enum Outcome {
    Success { output: Vec<u8>, elapsed_micros: u64 },
    Failure { source: Vec<u8>, failure: Failure },
}

/// The successes of `outcomes`, counted.
pub open spec fn success_count(outcomes: Seq<Outcome>) -> nat
    decreases outcomes.len(),
{
    if outcomes.len() == 0 {
        0
    } else {
        success_count(outcomes.drop_last()) + if outcomes.last() is Success {
            1nat
        } else {
            0nat
        }
    }
}

/// The failures of `outcomes`, counted.
pub open spec fn failure_count(outcomes: Seq<Outcome>) -> nat
    decreases outcomes.len(),
{
    if outcomes.len() == 0 {
        0
    } else {
        failure_count(outcomes.drop_last()) + if outcomes.last() is Failure {
            1nat
        } else {
            0nat
        }
    }
}

/// The sources whose outcome (at the same index) is a success, in order.
pub open spec fn successful_sources(sources: Seq<Seq<u8>>, outcomes: Seq<Outcome>) -> Seq<Seq<u8>>
    decreases outcomes.len(),
{
    if outcomes.len() == 0 || sources.len() == 0 {
        Seq::empty()
    } else {
        let rest = successful_sources(sources.drop_last(), outcomes.drop_last());
        if outcomes.last() is Success {
            rest.push(sources.last())
        } else {
            rest
        }
    }
}

/// The final tally of a batch.
#[derive(Clone, Copy, Debug, PartialEq, Eq, Structural)]
pub struct BatchSummary {
    /// How many files were converted.
    pub count: usize,
    /// Wall-clock time of the whole batch.
    pub elapsed_micros: u64,
}

/// A batch in progress: how many outcomes it has seen, and the sources of the
/// successful ones.
pub struct Batch {
    pub matched: usize,
    pub candidates: Vec<Vec<u8>>,
}

impl Batch {
    pub open spec fn wf(&self) -> bool {
        self.candidates@.len() <= self.matched
    }

    /// A batch that has seen nothing.
    pub fn new() -> (r: Batch)
        ensures
            r.wf(),
            r.matched == 0,
            r.candidates@.len() == 0,
    {
        Batch { matched: 0, candidates: Vec::new() }
    }

    /// Takes in the outcome for `source`: a success makes it a deletion
    /// candidate, a failure does not.
    pub fn record(&mut self, source: Vec<u8>, outcome: &Outcome)
        requires
            old(self).wf(),
            old(self).matched < usize::MAX,
        ensures
            final(self).wf(),
            final(self).matched == old(self).matched + 1,
            final(self).candidates.deep_view() == if *outcome is Success {
                old(self).candidates.deep_view().push(source@)
            } else {
                old(self).candidates.deep_view()
            },
    {
        self.matched = self.matched + 1;
        if let Outcome::Success { .. } = outcome {
            assert(source.deep_view() =~= source@);
            self.candidates.push(source);
            assert(self.candidates.deep_view() =~= old(self).candidates.deep_view().push(source@));
        }
    }

    /// The count of conversions, with the time the batch took.
    pub fn summary(&self, elapsed_micros: u64) -> (r: BatchSummary)
        ensures
            r.count == self.candidates@.len(),
            r.elapsed_micros == elapsed_micros,
    {
        BatchSummary { count: self.candidates.len(), elapsed_micros }
    }

    /// The files to delete: every candidate where `destroy` is set, none
    /// where it is not.
    pub fn deletions(&self, destroy: bool) -> (r: Vec<Vec<u8>>)
        ensures
            destroy ==> r.deep_view() == self.candidates.deep_view(),
            !destroy ==> r@.len() == 0,
    {
        let mut r: Vec<Vec<u8>> = Vec::new();
        if !destroy {
            return r;
        }
        let mut i: usize = 0;
        while i < self.candidates.len()
            invariant
                i <= self.candidates@.len(),
                r.deep_view() == self.candidates.deep_view().subrange(0, i as int),
            decreases self.candidates@.len() - i,
        {
            let c = self.candidates[i].clone();
            assert(c.deep_view() =~= self.candidates.deep_view()[i as int]);
            let ghost before = r.deep_view();
            r.push(c);
            assert(r.deep_view() =~= before.push(self.candidates.deep_view()[i as int]));
            i = i + 1;
            assert(r.deep_view() =~= self.candidates.deep_view().subrange(0, i as int));
        }
        assert(self.candidates.deep_view().subrange(0, i as int) =~= self.candidates.deep_view());
        r
    }
}

/// Folds the outcome of each source (at the same index) into a batch.
pub fn tally(sources: &Vec<Vec<u8>>, outcomes: &Vec<Outcome>) -> (r: Batch)
    requires
        sources@.len() == outcomes@.len(),
    ensures
        r.wf(),
        r.matched == outcomes@.len(),
        r.candidates.deep_view() == successful_sources(sources.deep_view(), outcomes@),
{
    let mut batch = Batch::new();
    let mut i: usize = 0;
    while i < outcomes.len()
        invariant
            sources@.len() == outcomes@.len(),
            i <= outcomes@.len(),
            batch.wf(),
            batch.matched == i,
            batch.candidates.deep_view() == successful_sources(
                sources.deep_view().subrange(0, i as int),
                outcomes@.subrange(0, i as int),
            ),
        decreases outcomes@.len() - i,
    {
        assert(sources.deep_view().subrange(0, i + 1).drop_last() =~= sources.deep_view().subrange(
            0,
            i as int,
        ));
        assert(outcomes@.subrange(0, i + 1).drop_last() == outcomes@.subrange(0, i as int));
        let source = sources[i].clone();
        assert(source@ =~= sources.deep_view()[i as int]);
        batch.record(source, &outcomes[i]);
        i = i + 1;
    }
    assert(sources.deep_view().subrange(0, i as int) =~= sources.deep_view());
    assert(outcomes@.subrange(0, i as int) == outcomes@);
    batch
}

/// Of N outcomes with K failures, N - K are successes, and the successful
/// sources, the deletion candidates, are N - K too.
pub proof fn lemma_batch_counts(sources: Seq<Seq<u8>>, outcomes: Seq<Outcome>)
    requires
        sources.len() == outcomes.len(),
    ensures
        success_count(outcomes) + failure_count(outcomes) == outcomes.len(),
        successful_sources(sources, outcomes).len() == success_count(outcomes),
    decreases outcomes.len(),
{
    if outcomes.len() > 0 {
        lemma_batch_counts(sources.drop_last(), outcomes.drop_last());
    }
}

/// A path whose every outcome in the batch is a failure is never a deletion
/// candidate, so destroying the successful sources leaves it in place.
pub proof fn lemma_failed_source_kept(sources: Seq<Seq<u8>>, outcomes: Seq<Outcome>, path: Seq<u8>)
    requires
        sources.len() == outcomes.len(),
        forall|j: int| 0 <= j < sources.len() && sources[j] == path ==> outcomes[j] is Failure,
    ensures
        !successful_sources(sources, outcomes).contains(path),
    decreases outcomes.len(),
{
    if outcomes.len() > 0 {
        let (s0, o0) = (sources.drop_last(), outcomes.drop_last());
        assert forall|j: int| 0 <= j < s0.len() && s0[j] == path implies o0[j] is Failure by {
            assert(sources[j] == s0[j]);
        }
        lemma_failed_source_kept(s0, o0, path);
        let rest = successful_sources(s0, o0);
        if outcomes.last() is Success {
            assert(sources.last() != path);
            assert forall|k: int| 0 <= k < rest.push(sources.last()).len() implies rest.push(
                sources.last(),
            )[k] != path by {
                if k < rest.len() {
                    assert(!rest.contains(path));
                }
            }
        }
    }
}

/// A path with a successful outcome is a deletion candidate.
pub proof fn lemma_converted_source_listed(sources: Seq<Seq<u8>>, outcomes: Seq<Outcome>, i: int)
    requires
        sources.len() == outcomes.len(),
        0 <= i < outcomes.len(),
        outcomes[i] is Success,
    ensures
        successful_sources(sources, outcomes).contains(sources[i]),
    decreases outcomes.len(),
{
    let rest = successful_sources(sources.drop_last(), outcomes.drop_last());
    if i == outcomes.len() - 1 {
        assert(rest.push(sources.last())[rest.len() as int] == sources[i]);
    } else {
        lemma_converted_source_listed(sources.drop_last(), outcomes.drop_last(), i);
        let k = choose|k: int| 0 <= k < rest.len() && rest[k] == sources[i];
        if outcomes.last() is Success {
            assert(rest.push(sources.last())[k] == sources[i]);
        }
    }
}

} // verus!
