//! Batches: what became of each of many independent requests.

use vstd::prelude::*;
use crate::transport::{ErrorView, TransportError};

verus! {

/// What became of one request of a batch.
#[derive(Debug)]
pub enum TaskOutcome {
    /// The request has brought neither an answer nor an error yet.
    Pending,
    /// The request brought an answer.
    Succeeded,
    /// The request brought this error.
    Failed(TransportError),
}

/// An outcome as a plain value.
pub enum OutcomeView {
    Pending,
    Succeeded,
    Failed(ErrorView),
}

/// The kinds of outcome.
#[derive(Clone, Copy, Debug, PartialEq, Eq, Structural)]
pub enum OutcomeKind {
    Pending,
    Succeeded,
    Failed,
}

impl OutcomeView {
    /// The kind of the outcome.
    pub open spec fn kind(self) -> OutcomeKind {
        match self {
            OutcomeView::Pending => OutcomeKind::Pending,
            OutcomeView::Succeeded => OutcomeKind::Succeeded,
            OutcomeView::Failed(_) => OutcomeKind::Failed,
        }
    }
}

impl TaskOutcome {
    /// The kind of the outcome.
    pub fn kind(&self) -> (kind: OutcomeKind)
        ensures
            kind == self@.kind(),
    {
        match self {
            TaskOutcome::Pending => OutcomeKind::Pending,
            TaskOutcome::Succeeded => OutcomeKind::Succeeded,
            TaskOutcome::Failed(_) => OutcomeKind::Failed,
        }
    }
}

impl View for TaskOutcome {
    type V = OutcomeView;

    open spec fn view(&self) -> OutcomeView {
        match self {
            TaskOutcome::Pending => OutcomeView::Pending,
            TaskOutcome::Succeeded => OutcomeView::Succeeded,
            TaskOutcome::Failed(error) => OutcomeView::Failed(error@),
        }
    }
}

/// The views of a vector of outcomes.
pub open spec fn outcome_views(outcomes: Seq<TaskOutcome>) -> Seq<OutcomeView> {
    outcomes.map_values(|o: TaskOutcome| o@)
}

/// How many of `outcomes` are of the kind `kind`.
pub open spec fn count_of(outcomes: Seq<OutcomeView>, kind: OutcomeKind) -> nat
    decreases outcomes.len(),
{
    if outcomes.len() == 0 {
        0
    } else {
        count_of(outcomes.drop_last(), kind) + if outcomes.last().kind() == kind {
            1nat
        } else {
            0nat
        }
    }
}

/// How many of `outcomes` are pending.
pub open spec fn pending_in(outcomes: Seq<OutcomeView>) -> nat {
    count_of(outcomes, OutcomeKind::Pending)
}

/// How many of `outcomes` are successes.
pub open spec fn succeeded_in(outcomes: Seq<OutcomeView>) -> nat {
    count_of(outcomes, OutcomeKind::Succeeded)
}

/// How many of `outcomes` are failures.
pub open spec fn failed_in(outcomes: Seq<OutcomeView>) -> nat {
    count_of(outcomes, OutcomeKind::Failed)
}

/// Whether the first failure among `outcomes` is at place `task`.
pub open spec fn is_first_failure(outcomes: Seq<OutcomeView>, task: int) -> bool {
    0 <= task < outcomes.len() && outcomes[task] is Failed && forall|k: int|
        0 <= k < task ==> !(outcomes[k] is Failed)
}

/// Every request of a batch is pending, has succeeded or has failed, and
/// none is counted twice.
pub proof fn lemma_counts_add_up(outcomes: Seq<OutcomeView>)
    ensures
        pending_in(outcomes) + succeeded_in(outcomes) + failed_in(outcomes) == outcomes.len(),
    decreases outcomes.len(),
{
    if outcomes.len() > 0 {
        lemma_counts_add_up(outcomes.drop_last());
    }
}

/// A batch without failures has no failed request, and the other way round.
pub proof fn lemma_no_failure_means_none_failed(outcomes: Seq<OutcomeView>)
    ensures
        failed_in(outcomes) == 0 <==> forall|k: int|
            0 <= k < outcomes.len() ==> !(#[trigger] outcomes[k] is Failed),
    decreases outcomes.len(),
{
    if outcomes.len() > 0 {
        let front = outcomes.drop_last();
        lemma_no_failure_means_none_failed(front);
        if failed_in(outcomes) == 0 {
            assert forall|k: int| 0 <= k < outcomes.len() implies !(#[trigger] outcomes[k]
                is Failed) by {
                if k < front.len() {
                    assert(front[k] == outcomes[k]);
                }
            }
        } else if !(outcomes.last() is Failed) {
            let k: int = choose|k: int| 0 <= k < front.len() && #[trigger] front[k] is Failed;
            assert(outcomes[k] is Failed);
        }
    }
}

/// The outcomes of the requests of one batch, by the place of each request in
/// the batch. Each request is settled once, whatever becomes of the others.
pub struct BatchReport {
    outcomes: Vec<TaskOutcome>,
}

impl View for BatchReport {
    type V = Seq<OutcomeView>;

    closed spec fn view(&self) -> Seq<OutcomeView> {
        outcome_views(self.outcomes@)
    }
}

impl BatchReport {
    /// The report of a batch of `tasks` requests, all of them pending.
    pub fn new(tasks: usize) -> (report: Self)
        ensures
            report@ == Seq::new(tasks as nat, |k: int| OutcomeView::Pending),
    {
        let mut outcomes: Vec<TaskOutcome> = Vec::new();
        let mut k: usize = 0;
        while k < tasks
            invariant
                k <= tasks,
                outcomes@.len() == k,
                forall|j: int| 0 <= j < k ==> outcomes@[j]@ is Pending,
            decreases tasks - k,
        {
            outcomes.push(TaskOutcome::Pending);
            k = k + 1;
        }
        BatchReport { outcomes }
    }

    /// The number of requests in the batch.
    pub fn len(&self) -> (n: usize)
        ensures
            n == self@.len(),
    {
        self.outcomes.len()
    }

    /// What became of the request at place `task`.
    pub fn outcome(&self, task: usize) -> (outcome: Option<&TaskOutcome>)
        ensures
            match outcome {
                Some(o) => task < self@.len() && o@ == self@[task as int],
                None => task >= self@.len(),
            },
    {
        if task < self.outcomes.len() {
            Some(&self.outcomes[task])
        } else {
            None
        }
    }

    /// Settles the request at place `task`, if it is a request of the batch
    /// and still pending, and says whether it did.
    fn settle(&mut self, task: usize, outcome: TaskOutcome) -> (settled: bool)
        ensures
            settled == (task < old(self)@.len() && old(self)@[task as int] is Pending),
            final(self)@ == (if settled {
                old(self)@.update(task as int, outcome@)
            } else {
                old(self)@
            }),
    {
        if task >= self.outcomes.len() || self.outcomes[task].kind() != OutcomeKind::Pending {
            return false;
        }
        self.outcomes.set(task, outcome);
        true
    }

    /// Takes note that the request at place `task` brought an answer. Returns
    /// `false`, and changes nothing, if there is no such request or it was
    /// settled before. The outcomes of all other requests stay as they are.
    pub fn succeed(&mut self, task: usize) -> (settled: bool)
        ensures
            settled == (task < old(self)@.len() && old(self)@[task as int] is Pending),
            final(self)@ == (if settled {
                old(self)@.update(task as int, OutcomeView::Succeeded)
            } else {
                old(self)@
            }),
    {
        self.settle(task, TaskOutcome::Succeeded)
    }

    /// Takes note that the request at place `task` brought `error`. Returns
    /// `false`, and changes nothing, if there is no such request or it was
    /// settled before. The outcomes of all other requests stay as they are.
    pub fn fail(&mut self, task: usize, error: TransportError) -> (settled: bool)
        ensures
            settled == (task < old(self)@.len() && old(self)@[task as int] is Pending),
            final(self)@ == (if settled {
                old(self)@.update(task as int, OutcomeView::Failed(error@))
            } else {
                old(self)@
            }),
    {
        self.settle(task, TaskOutcome::Failed(error))
    }

    /// The number of requests whose outcome is of the kind `kind`.
    pub fn count(&self, kind: OutcomeKind) -> (n: usize)
        ensures
            n == count_of(self@, kind),
    {
        let ghost all = self@;
        let mut n: usize = 0;
        let mut k: usize = 0;
        while k < self.outcomes.len()
            invariant
                k <= self.outcomes.len(),
                all == outcome_views(self.outcomes@),
                n == count_of(all.take(k as int), kind),
                n <= k,
            decreases self.outcomes.len() - k,
        {
            assert(all.take(k + 1).drop_last() =~= all.take(k as int));
            if self.outcomes[k].kind() == kind {
                n = n + 1;
            }
            k = k + 1;
        }
        assert(all.take(k as int) =~= all);
        n
    }

    /// The number of requests that are pending.
    pub fn pending(&self) -> (n: usize)
        ensures
            n == pending_in(self@),
    {
        self.count(OutcomeKind::Pending)
    }

    /// The number of requests that brought an answer.
    pub fn succeeded(&self) -> (n: usize)
        ensures
            n == succeeded_in(self@),
    {
        self.count(OutcomeKind::Succeeded)
    }

    /// The number of requests that brought an error.
    pub fn failed(&self) -> (n: usize)
        ensures
            n == failed_in(self@),
    {
        self.count(OutcomeKind::Failed)
    }

    /// Whether every request of the batch is settled.
    pub fn is_complete(&self) -> (complete: bool)
        ensures
            complete == (pending_in(self@) == 0),
    {
        self.pending() == 0
    }

    /// The place of the first request that failed, if any did.
    pub fn first_failure(&self) -> (first: Option<usize>)
        ensures
            match first {
                Some(task) => is_first_failure(self@, task as int),
                None => failed_in(self@) == 0,
            },
    {
        let mut k: usize = 0;
        while k < self.outcomes.len()
            invariant
                k <= self.outcomes.len(),
                forall|j: int| 0 <= j < k ==> !(#[trigger] self@[j] is Failed),
            decreases self.outcomes.len() - k,
        {
            match &self.outcomes[k] {
                TaskOutcome::Failed(_) => {
                    return Some(k);
                },
                _ => {},
            }
            k = k + 1;
        }
        proof {
            lemma_no_failure_means_none_failed(self@);
        }
        None
    }
}

} // verus!
