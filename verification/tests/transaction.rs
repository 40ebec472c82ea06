use rs_backend::dispatch::StorageError;
use rs_backend::entities::List;
use rs_backend::transaction::{Action, Batch};

fn list(id: i32, title: &str) -> List {
    List { id, title: title.to_string() }
}

/// Runs a batch against outcomes that are known beforehand, and says which
/// statements were run and how the transaction ended.
fn run(
    count: usize,
    mut outcomes: Vec<Result<Vec<List>, StorageError>>,
) -> (Vec<usize>, Action, Result<Vec<List>, StorageError>) {
    outcomes.reverse();
    let mut batch: Batch<List> = Batch::begin(count);
    let mut ran = Vec::new();
    loop {
        match batch.action() {
            Action::Run(at) => {
                ran.push(at);
                batch.record(outcomes.pop().unwrap());
            }
            end => return (ran, end, batch.finish(Ok(()))),
        }
    }
}

#[test]
fn batch_commits_after_every_statement_succeeded() {
    let (ran, end, answer) = run(
        3,
        vec![
            Ok(vec![list(2, "two")]),
            Ok(vec![list(1, "one"), list(3, "three")]),
            Ok(vec![list(2, "two again")]),
        ],
    );
    assert_eq!(ran, vec![0, 1, 2]);
    assert_eq!(end, Action::Commit);
    let set = answer.unwrap();
    let seen: Vec<(i32, &str)> = set.iter().map(|l| (l.id, l.title.as_str())).collect();
    assert_eq!(seen, vec![(1, "one"), (2, "two again"), (3, "three")]);
}

#[test]
fn batch_rolls_back_at_the_first_failure() {
    let (ran, end, answer) = run(
        3,
        vec![
            Ok(vec![list(1, "changed")]),
            Err(StorageError::Other("FOREIGN KEY constraint failed".to_string())),
            Ok(vec![list(3, "never run")]),
        ],
    );
    assert_eq!(ran, vec![0, 1]);
    assert_eq!(end, Action::Rollback);
    assert!(matches!(answer, Err(StorageError::Other(words))
        if words == "FOREIGN KEY constraint failed"));
}

#[test]
fn failed_commit_is_the_answer() {
    let mut batch: Batch<List> = Batch::begin(1);
    assert_eq!(batch.action(), Action::Run(0));
    batch.record(Ok(vec![list(1, "one")]));
    assert_eq!(batch.action(), Action::Commit);
    let answer = batch.finish(Err(StorageError::Other("disk full".to_string())));
    assert!(matches!(answer, Err(StorageError::Other(words)) if words == "disk full"));
}

#[test]
fn outcomes_that_were_not_asked_for_change_nothing() {
    let mut batch: Batch<List> = Batch::begin(1);
    batch.record(Err(StorageError::InvalidArgument("first".to_string())));
    assert_eq!(batch.action(), Action::Rollback);
    batch.record(Ok(vec![list(1, "late")]));
    batch.record(Err(StorageError::Other("second".to_string())));
    assert_eq!(batch.action(), Action::Rollback);
    let answer = batch.finish(Ok(()));
    assert!(matches!(answer, Err(StorageError::InvalidArgument(words)) if words == "first"));

    let mut done: Batch<List> = Batch::begin(0);
    assert_eq!(done.action(), Action::Commit);
    done.record(Ok(vec![list(1, "late")]));
    assert_eq!(done.action(), Action::Commit);
    assert!(done.finish(Ok(())).unwrap().is_empty());
}
