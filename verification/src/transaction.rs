//! The run of a batch of statements inside one transaction.
//!
//! The statements of a batch are run in their order. The first failure ends
//! the run: what is left is not run, and the transaction is rolled back, so
//! that nothing of the batch stays. Only a batch of which every statement
//! succeeded is committed.

use crate::dispatch::StorageError;
use crate::rows::{collect, is_result_set, Identified};
use vstd::prelude::*;

verus! {

/// What is to be done next for a batch.
#[derive(Clone, Copy, Debug, PartialEq, Eq, Structural)]
pub enum Action {
    /// Run the statement at this place of the batch.
    Run(usize),
    /// Every statement succeeded: commit the transaction.
    Commit,
    /// A statement failed: roll the transaction back.
    Rollback,
}

/// How far the run of a batch has come.
pub struct Batch<E> {
    count: usize,
    done: usize,
    rows: Vec<E>,
    failure: Option<StorageError>,
}

/// The run of a batch as a mathematical value: the number of statements, how
/// many of them succeeded, the rows they returned, one after the other, and
/// the failure that ended the run.
pub struct BatchView<E> {
    pub count: nat,
    pub done: nat,
    pub rows: Seq<E>,
    pub failure: Option<StorageError>,
}

impl<E> BatchView<E> {
    /// A run of which nothing has happened yet.
    pub open spec fn begin(count: nat) -> Self {
        BatchView { count, done: 0, rows: Seq::empty(), failure: None }
    }

    /// What is to be done next.
    pub open spec fn action(self) -> Action {
        if self.failure is Some {
            Action::Rollback
        } else if self.done < self.count {
            Action::Run(self.done as usize)
        } else {
            Action::Commit
        }
    }

    /// The run after the outcome of the statement that was to be run. An
    /// outcome that was not asked for changes nothing.
    pub open spec fn record(self, outcome: Result<Vec<E>, StorageError>) -> Self {
        if self.action() is Run {
            match outcome {
                Ok(rows) => BatchView { done: self.done + 1, rows: self.rows + rows@, ..self },
                Err(err) => BatchView { failure: Some(err), ..self },
            }
        } else {
            self
        }
    }

    /// The run after a sequence of outcomes, one for each statement that was
    /// run.
    pub open spec fn record_all(self, outcomes: Seq<Result<Vec<E>, StorageError>>) -> Self
        decreases outcomes.len(),
    {
        if outcomes.len() == 0 {
            self
        } else {
            self.record_all(outcomes.drop_last()).record(outcomes.last())
        }
    }
}

impl<E> Batch<E> {
    pub closed spec fn view(&self) -> BatchView<E> {
        BatchView {
            count: self.count as nat,
            done: self.done as nat,
            rows: self.rows@,
            failure: self.failure,
        }
    }

    /// Starts the run of a batch of `count` statements.
    pub fn begin(count: usize) -> (batch: Self)
        ensures
            batch@ == BatchView::<E>::begin(count as nat),
    {
        Batch { count, done: 0, rows: Vec::new(), failure: None }
    }

    /// Says what is to be done next: the next statement is run as long as
    /// none has failed; after the last the transaction is committed; after a
    /// failure it is rolled back.
    pub fn action(&self) -> (action: Action)
        ensures
            action == self@.action(),
            action matches Action::Run(at) ==> at < self@.count,
    {
        if self.failure.is_some() {
            Action::Rollback
        } else if self.done < self.count {
            Action::Run(self.done)
        } else {
            Action::Commit
        }
    }

    /// Takes the outcome of the statement that was to be run.
    pub fn record(&mut self, outcome: Result<Vec<E>, StorageError>)
        ensures
            final(self)@ == old(self)@.record(outcome),
    {
        if self.failure.is_some() || self.done >= self.count {
            return ;
        }
        match outcome {
            Ok(rows) => {
                let mut rows = rows;
                self.rows.append(&mut rows);
                self.done = self.done + 1;
            },
            Err(err) => {
                self.failure = Some(err);
            },
        }
    }

}

impl<E: Identified> Batch<E> {
    /// Ends the run, once the transaction was committed or rolled back as
    /// `action` asked, and gives the answer of the batch: the failure of the
    /// statement that failed, else the failure of the commit, else the
    /// result set of all rows. After a rollback `committed` is not looked
    /// at.
    pub fn finish(self, committed: Result<(), StorageError>) -> (answer: Result<Vec<E>, StorageError>)
        ensures
            match self@.failure {
                Some(err) => answer == Err::<Vec<E>, StorageError>(err),
                None => match committed {
                    Err(err) => answer == Err::<Vec<E>, StorageError>(err),
                    Ok(_) => answer matches Ok(set) && is_result_set(self@.rows, set@),
                },
            },
    {
        match self.failure {
            Some(err) => Err(err),
            None => match committed {
                Err(err) => Err(err),
                Ok(_) => Ok(collect(self.rows)),
            },
        }
    }
}

/// A run that has failed stays failed, whatever is recorded after.
pub proof fn lemma_failure_stays<E>(
    run: BatchView<E>,
    outcomes: Seq<Result<Vec<E>, StorageError>>,
)
    requires
        run.failure is Some,
    ensures
        run.record_all(outcomes) == run,
    decreases outcomes.len(),
{
    if outcomes.len() > 0 {
        lemma_failure_stays(run, outcomes.drop_last());
    }
}

/// All or nothing: if one of the statements of a batch fails, the batch is
/// never committed. After the failure the only thing left to do is to roll
/// back, whatever else is recorded, and before it no commit was asked for,
/// since not every statement had run.
pub proof fn lemma_batch_is_atomic<E>(
    count: nat,
    outcomes: Seq<Result<Vec<E>, StorageError>>,
    failing: int,
    n: int,
)
    requires
        0 <= failing < outcomes.len(),
        failing < count <= usize::MAX,
        outcomes[failing] is Err,
        0 <= n <= outcomes.len(),
    ensures
        BatchView::<E>::begin(count).record_all(outcomes.take(n)).action() != Action::Commit,
        n > failing ==> BatchView::<E>::begin(count).record_all(outcomes.take(n)).action()
            == Action::Rollback,
    decreases n,
{
    let start = BatchView::<E>::begin(count);
    lemma_progress(count, outcomes, n);
    if n > 0 {
        lemma_batch_is_atomic(count, outcomes, failing, n - 1);
        lemma_progress(count, outcomes, n - 1);
        let before = start.record_all(outcomes.take(n - 1));
        assert(outcomes.take(n).drop_last() =~= outcomes.take(n - 1));
        assert(outcomes.take(n).last() == outcomes[n - 1]);
        assert(start.record_all(outcomes.take(n)) == before.record(outcomes[n - 1]));
    }
}

/// As long as no statement has failed, as many statements are done as
/// outcomes were recorded, up to the number of statements in the batch.
pub proof fn lemma_progress<E>(count: nat, outcomes: Seq<Result<Vec<E>, StorageError>>, n: int)
    requires
        0 <= n <= outcomes.len(),
        count <= usize::MAX,
    ensures
        ({
            let run = BatchView::<E>::begin(count).record_all(outcomes.take(n));
            &&& run.count == count
            &&& run.done <= count
            &&& run.done <= n
            &&& (run.failure is None ==> run.done == if n <= count {
                n as nat
            } else {
                count
            })
            &&& (run.failure is None ==> forall|i: int|
                0 <= i < n && i < count ==> (#[trigger] outcomes[i]) is Ok)
            &&& (run.failure is Some ==> exists|i: int|
                0 <= i < n && i < count && (#[trigger] outcomes[i]) is Err)
        }),
    decreases n,
{
    let start = BatchView::<E>::begin(count);
    if n == 0 {
        assert(outcomes.take(0) =~= Seq::empty());
    } else {
        lemma_progress(count, outcomes, n - 1);
        assert(outcomes.take(n).drop_last() =~= outcomes.take(n - 1));
        assert(outcomes.take(n).last() == outcomes[n - 1]);
        let before = start.record_all(outcomes.take(n - 1));
        let run = before.record(outcomes[n - 1]);
        assert(start.record_all(outcomes.take(n)) == run);
        if run.failure is Some {
            if before.failure is Some {
                let i = choose|i: int|
                    0 <= i < n - 1 && i < count && (#[trigger] outcomes[i]) is Err;
                assert(outcomes[i] is Err);
            } else {
                assert(outcomes[n - 1] is Err);
            }
        }
    }
}

/// A batch of which every statement succeeds is committed once all of them
/// have run, and not before.
pub proof fn lemma_batch_commits<E>(count: nat, outcomes: Seq<Result<Vec<E>, StorageError>>, n: int)
    requires
        0 <= n <= outcomes.len(),
        count <= usize::MAX,
        forall|i: int| 0 <= i < outcomes.len() ==> (#[trigger] outcomes[i]) is Ok,
    ensures
        BatchView::<E>::begin(count).record_all(outcomes.take(n)).action() == if n < count {
            Action::Run(n as usize)
        } else {
            Action::Commit
        },
{
    lemma_progress(count, outcomes, n);
    let run = BatchView::<E>::begin(count).record_all(outcomes.take(n));
    if run.failure is Some {
        let i = choose|i: int| 0 <= i < n && i < count && (#[trigger] outcomes[i]) is Err;
        assert(outcomes[i] is Ok);
    }
}

} // verus!
