//! Errors of the account checks, and the rule by which a list of checks,
//! taken in order, yields its outcome.
use vstd::prelude::*;

verus! {

/// Why the accounts handed to an instruction were refused.
#[derive(Clone, Copy, Debug, PartialEq, Eq, Structural)]
pub enum AccountsError {
    /// An account that must sign did not.
    AccountNotSigner,
    /// An account that must be writable is not.
    ConstraintMut,
    /// An account to create is already in use.
    AccountAlreadyInUse,
    /// The signing authority is not on the game's authority list.
    InvalidAuthority,
    /// A `has_one` relation between two accounts does not hold.
    ConstraintHasOne,
    /// A plain `constraint = ..` expression is false.
    ConstraintRaw,
    /// An account is not at the address that its seeds derive.
    ConstraintSeeds,
    /// An account is not at the address that it must have.
    ConstraintAddress,
}

/// One declared check: whether it holds, and the error it raises when not.
#[derive(Clone, Copy, Debug, PartialEq, Eq, Structural)]
pub struct Check {
    pub passed: bool,
    pub error: AccountsError,
}

/// The outcome of running `checks` in order: the error of the first check
/// that fails, or success when none does.
pub open spec fn outcome(checks: Seq<Check>) -> Result<(), AccountsError>
    decreases checks.len(),
{
    if checks.len() == 0 {
        Ok(())
    } else if !checks[0].passed {
        Err(checks[0].error)
    } else {
        outcome(checks.drop_first())
    }
}

/// Every check before position `n` holds: a check at `n` is reached.
pub open spec fn reaches(checks: Seq<Check>, n: int) -> bool {
    forall|j: int| 0 <= j < n && j < checks.len() ==> #[trigger] checks[j].passed
}

/// Runs the checks in order and stops at the first that fails.
pub fn evaluate(checks: &Vec<Check>) -> (res: Result<(), AccountsError>)
    ensures
        res == outcome(checks@),
{
    let mut i: usize = 0;
    assert(checks@.skip(0) =~= checks@);
    while i < checks.len()
        invariant
            0 <= i <= checks@.len(),
            outcome(checks@) == outcome(checks@.skip(i as int)),
        decreases checks@.len() - i,
    {
        let c = checks[i];
        if !c.passed {
            return Err(c.error);
        }
        assert(checks@.skip(i as int).drop_first() =~= checks@.skip(i + 1));
        i = i + 1;
    }
    Ok(())
}

/// A list of checks succeeds exactly when every check in it holds, and
/// otherwise fails with the error of the first check that does not hold.
pub proof fn lemma_outcome(checks: Seq<Check>)
    ensures
        outcome(checks) is Ok <==> reaches(checks, checks.len() as int),
        outcome(checks) is Ok ==> outcome(checks) == Ok::<(), AccountsError>(()),
        outcome(checks) is Err ==> exists|i: int|
            #![trigger checks[i]]
            0 <= i < checks.len() && reaches(checks, i) && !checks[i].passed
                && outcome(checks) == Err::<(), AccountsError>(checks[i].error),
    decreases checks.len(),
{
    if checks.len() > 0 {
        let rest = checks.drop_first();
        lemma_outcome(rest);
        if !checks[0].passed {
            assert(reaches(checks, 0));
        } else {
            if outcome(rest) is Err {
                let k = choose|k: int|
                    #![trigger rest[k]]
                    0 <= k < rest.len() && reaches(rest, k) && !rest[k].passed
                        && outcome(rest) == Err::<(), AccountsError>(rest[k].error);
                assert(checks[k + 1] == rest[k]);
                assert forall|j: int| 0 <= j < k + 1 && j < checks.len() implies #[trigger] checks[j].passed by {
                    if j > 0 {
                        assert(rest[j - 1] == checks[j]);
                    }
                }
            } else {
                assert forall|j: int| 0 <= j < checks.len() implies #[trigger] checks[j].passed by {
                    if j > 0 {
                        assert(rest[j - 1] == checks[j]);
                    }
                }
            }
            if reaches(checks, checks.len() as int) {
                assert forall|j: int| 0 <= j < rest.len() implies #[trigger] rest[j].passed by {
                    assert(rest[j] == checks[j + 1]);
                }
            }
        }
    }
}

/// A check that is reached and fails decides the outcome: its error.
pub proof fn lemma_first_failure(checks: Seq<Check>, i: int)
    requires
        0 <= i < checks.len(),
        reaches(checks, i),
        !checks[i].passed,
    ensures
        outcome(checks) == Err::<(), AccountsError>(checks[i].error),
    decreases checks.len(),
{
    if i > 0 {
        assert(checks[0].passed);
        let rest = checks.drop_first();
        assert forall|j: int| 0 <= j < i - 1 && j < rest.len() implies #[trigger] rest[j].passed by {
            assert(rest[j] == checks[j + 1]);
        }
        assert(rest[i - 1] == checks[i]);
        lemma_first_failure(rest, i - 1);
    }
}

} // verus!
