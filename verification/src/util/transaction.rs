//! The decisions of a write sequence run in one database transaction.
use vstd::prelude::*;
use crate::error::Error;
use crate::util;

verus! {

/// What to do after one write of a transaction.
#[derive(Clone, Debug)]
pub enum TxAction {
    /// The write succeeded and more follow: go on.
    Next,
    /// The last write succeeded: commit, and answer with its affected rows.
    Commit(u64),
    /// The write failed: roll back every write of the transaction, and
    /// answer with this error.
    Rollback(Error),
}

/// Whether `a` is the action after a write that affected `written` rows,
/// `last` telling whether it is the transaction's last write: a failure rolls
/// back with `failure` as message and the failure code, a success goes on or,
/// after the last write, commits.
pub open spec fn is_write_action(a: TxAction, written: Option<u64>, last: bool, failure: Seq<char>) -> bool {
    match written {
        None => a matches TxAction::Rollback(e) && e.message() == failure && e.code() == util::CODE_FAIL,
        Some(n) => if last { a == TxAction::Commit(n) } else { a is Next },
    }
}

/// The action after one write of a transaction.
pub fn after_write(written: Option<u64>, last: bool, failure: &str) -> (a: TxAction)
    ensures
        is_write_action(a, written, last, failure@),
{
    match written {
        None => TxAction::Rollback(Error::from_message(failure)),
        Some(n) => if last {
            TxAction::Commit(n)
        } else {
            TxAction::Next
        },
    }
}

/// Where a run of writes stands: the rows of the last write where every
/// write succeeded and the run committed, or the index of the first failed
/// write, after which the run rolled back and made no further write.
pub open spec fn run_outcome(written: Seq<Option<u64>>) -> Result<u64, nat>
    decreases written.len(),
{
    if written.len() == 0 {
        Err(0)
    } else if written[0] is None {
        Err(0)
    } else if written.len() == 1 {
        Ok(written[0].unwrap())
    } else {
        match run_outcome(written.drop_first()) {
            Ok(n) => Ok(n),
            Err(i) => Err(i + 1),
        }
    }
}

/// A transaction commits exactly when every one of its writes succeeded:
/// then it answers with the rows of the last write; otherwise it rolls back
/// at the first failed write.
pub proof fn lemma_commit_only_after_every_write(written: Seq<Option<u64>>)
    requires
        written.len() > 0,
    ensures
        run_outcome(written) is Ok <==> forall|i: int| 0 <= i < written.len() ==> (#[trigger] written[i]) is Some,
        run_outcome(written) is Ok ==> run_outcome(written) == Ok::<u64, nat>(written.last().unwrap()),
        run_outcome(written) matches Err(k) ==> (k < written.len() && written[k as int] is None && forall|i: int|
            0 <= i < k ==> (#[trigger] written[i]) is Some),
    decreases written.len(),
{
    if written.len() > 1 && written[0] is Some {
        let rest = written.drop_first();
        lemma_commit_only_after_every_write(rest);
        assert forall|i: int| 1 <= i < written.len() implies #[trigger] written[i] == rest[i - 1] by {}
        if run_outcome(rest) is Ok {
            assert forall|i: int| 0 <= i < written.len() implies (#[trigger] written[i]) is Some by {
                if i > 0 {
                    assert(rest[i - 1] is Some);
                }
            }
        } else {
            let k = run_outcome(rest)->Err_0;
            assert(written[(k + 1) as int] == rest[k as int]);
            assert forall|i: int| 0 <= i < k + 1 implies (#[trigger] written[i]) is Some by {
                if i > 0 {
                    assert(rest[i - 1] is Some);
                }
            }
        }
    }
}

} // verus!
