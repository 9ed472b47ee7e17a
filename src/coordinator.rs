//! The fan-in step of the Concurrent Pipeline Coordinator: once every worker
//! has finished, keep the buffers that were produced and count the failures.

use vstd::prelude::*;
use crate::worker::{FetchOutcome, WorkerFailure, process_fetched, worker_failure};

verus! {

/// The buffers of one pipeline run and how many descriptors were discarded.
pub struct RunResult {
    pub buffers: Vec<Vec<u32>>,
    pub discarded: usize,
}

/// The pixel sequences of a sequence of buffers.
pub open spec fn buffer_views(buffers: Seq<Vec<u32>>) -> Seq<Seq<u32>> {
    buffers.map_values(|b: Vec<u32>| b@)
}

/// The buffers of the successful workers, in the order of their results.
pub open spec fn successes(results: Seq<Result<Vec<u32>, WorkerFailure>>) -> Seq<Seq<u32>>
    decreases results.len(),
{
    if results.len() == 0 {
        Seq::empty()
    } else {
        match results.last() {
            Ok(b) => successes(results.drop_last()).push(b@),
            Err(_) => successes(results.drop_last()),
        }
    }
}

/// How many workers failed.
pub open spec fn failure_count(results: Seq<Result<Vec<u32>, WorkerFailure>>) -> nat
    decreases results.len(),
{
    if results.len() == 0 {
        0
    } else {
        failure_count(results.drop_last()) + if results.last() is Err {
            1nat
        } else {
            0nat
        }
    }
}

/// How many of the fetched items a worker turns into a buffer.
pub open spec fn succeeding_count(fetched: Seq<FetchOutcome>) -> nat
    decreases fetched.len(),
{
    if fetched.len() == 0 {
        0
    } else {
        succeeding_count(fetched.drop_last()) + if worker_failure(fetched.last()) is None {
            1nat
        } else {
            0nat
        }
    }
}

impl RunResult {
    pub open spec fn usable_spec(&self) -> nat {
        self.buffers.len() as nat
    }

    /// The number of usable buffers.
    pub fn usable(&self) -> (r: usize)
        ensures
            r == self.usable_spec(),
    {
        self.buffers.len()
    }

    /// A run with no usable buffer.
    pub fn is_empty(&self) -> (r: bool)
        ensures
            r == (self.usable_spec() == 0),
    {
        self.buffers.len() == 0
    }
}

/// Merges the results of all workers: keeps every produced buffer, in the
/// order of the results, and counts the failures.
pub fn gather(results: &Vec<Result<Vec<u32>, WorkerFailure>>) -> (r: RunResult)
    ensures
        buffer_views(r.buffers@) == successes(results@),
        r.discarded == failure_count(results@),
        r.buffers.len() + r.discarded == results.len(),
{
    let mut buffers: Vec<Vec<u32>> = Vec::new();
    let mut discarded: usize = 0;
    let mut i: usize = 0;
    while i < results.len()
        invariant
            i <= results.len(),
            buffer_views(buffers@) == successes(results@.take(i as int)),
            discarded == failure_count(results@.take(i as int)),
            buffers.len() + discarded == i,
        decreases results.len() - i,
    {
        proof {
            assert(results@.take(i as int + 1).drop_last() =~= results@.take(i as int));
        }
        match &results[i] {
            Ok(b) => {
                let copy = b.clone();
                proof {
                    assert(buffer_views(buffers@.push(copy)) =~= buffer_views(buffers@).push(
                        copy@,
                    ));
                }
                buffers.push(copy);
            },
            Err(_) => {
                discarded = discarded + 1;
            },
        }
        i = i + 1;
    }
    proof {
        assert(results@.take(i as int) =~= results@);
    }
    RunResult { buffers, discarded }
}

/// Runs the worker step on every fetched item and merges the results: the
/// run keeps one `width` x `height` buffer for each item on which the worker
/// succeeds and counts every other item as discarded.
pub fn run_fetched(fetched: &Vec<FetchOutcome>, width: u32, height: u32) -> (r: RunResult)
    requires
        3 * (width as int) * (height as int) <= usize::MAX,
    ensures
        r.buffers.len() == succeeding_count(fetched@),
        r.buffers.len() + r.discarded == fetched.len(),
        forall|k: int|
            0 <= k < r.buffers.len() ==> #[trigger] r.buffers@[k]@.len() == (width as int) * (
            height as int),
{
    let mut results: Vec<Result<Vec<u32>, WorkerFailure>> = Vec::new();
    let mut i: usize = 0;
    while i < fetched.len()
        invariant
            i <= fetched.len(),
            3 * (width as int) * (height as int) <= usize::MAX,
            results.len() == i,
            forall|j: int|
                0 <= j < i ==> (#[trigger] results@[j] is Ok == (worker_failure(fetched@[j]) is None)),
            forall|j: int|
                0 <= j < i && #[trigger] results@[j] is Ok ==> results@[j]->Ok_0@.len() == (
                width as int) * (height as int),
        decreases fetched.len() - i,
    {
        let outcome = process_fetched(&fetched[i], width, height);
        results.push(outcome);
        i = i + 1;
    }
    let r = gather(&results);
    proof {
        lemma_success_count(fetched@, results@);
        lemma_successes_sized(results@, (width as int) * (height as int));
        assert forall|k: int| 0 <= k < r.buffers.len() implies #[trigger] r.buffers@[k]@.len() == (
        width as int) * (height as int) by {
            assert(buffer_views(r.buffers@)[k] == r.buffers@[k]@);
        }
    }
    r
}

proof fn lemma_successes_sized(results: Seq<Result<Vec<u32>, WorkerFailure>>, n: int)
    requires
        forall|j: int|
            0 <= j < results.len() && #[trigger] results[j] is Ok ==> results[j]->Ok_0@.len() == n,
    ensures
        forall|k: int| 0 <= k < successes(results).len() ==> #[trigger] successes(results)[k].len() == n,
    decreases results.len(),
{
    if results.len() > 0 {
        let last = results.len() - 1;
        assert(results[last] is Ok ==> results[last]->Ok_0@.len() == n);
        lemma_successes_sized(results.drop_last(), n);
        let prev = successes(results.drop_last());
        assert forall|k: int| 0 <= k < successes(results).len() implies #[trigger] successes(
            results,
        )[k].len() == n by {
            if k < prev.len() {
                assert(successes(results)[k] == prev[k]);
            }
        }
    }
}

/// Every worker result is accounted for: the buffers kept plus the failures
/// counted equal the number of results.
pub proof fn lemma_results_conserved(results: Seq<Result<Vec<u32>, WorkerFailure>>)
    ensures
        successes(results).len() + failure_count(results) == results.len(),
    decreases results.len(),
{
    if results.len() > 0 {
        lemma_results_conserved(results.drop_last());
    }
}

/// Two runs over the same fetched content keep the same number of buffers:
/// when the results of each run succeed exactly where a worker succeeds on
/// the fetched item, both runs keep as many buffers as workers succeed.
pub proof fn lemma_same_content_same_size(
    fetched: Seq<FetchOutcome>,
    first: Seq<Result<Vec<u32>, WorkerFailure>>,
    second: Seq<Result<Vec<u32>, WorkerFailure>>,
)
    requires
        first.len() == fetched.len(),
        second.len() == fetched.len(),
        forall|i: int|
            0 <= i < fetched.len() ==> (#[trigger] first[i] is Ok == (worker_failure(
                fetched[i],
            ) is None)),
        forall|i: int|
            0 <= i < fetched.len() ==> (#[trigger] second[i] is Ok == (worker_failure(
                fetched[i],
            ) is None)),
    ensures
        successes(first).len() == succeeding_count(fetched),
        successes(second).len() == succeeding_count(fetched),
{
    lemma_success_count(fetched, first);
    lemma_success_count(fetched, second);
}

proof fn lemma_success_count(
    fetched: Seq<FetchOutcome>,
    results: Seq<Result<Vec<u32>, WorkerFailure>>,
)
    requires
        results.len() == fetched.len(),
        forall|i: int|
            0 <= i < fetched.len() ==> (#[trigger] results[i] is Ok == (worker_failure(
                fetched[i],
            ) is None)),
    ensures
        successes(results).len() == succeeding_count(fetched),
    decreases fetched.len(),
{
    if fetched.len() > 0 {
        let n = fetched.len() - 1;
        assert(results[n] is Ok == (worker_failure(fetched[n]) is None));
        lemma_success_count(fetched.drop_last(), results.drop_last());
    }
}

} // verus!
