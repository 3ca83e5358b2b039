//! Admission of new submissions and the contest score changes that verdicts bring.
use vstd::prelude::*;
use crate::text::{i64_to_decimal, int_decimal};
use crate::verdict::Verdict;

verus! {

/// A database failure, carried through unchanged.
#[verifier::external_type_specification]
#[verifier::external_body]
pub struct ExSqlxError(sqlx::Error);

/// Why a submission was not stored.
#[derive(Debug)]
pub enum SubmissionError {
    SubmissionLimitExceeded(String),
    TransactionFailed(sqlx::Error),
    SubmissionCoolDown(String),
}

impl From<sqlx::Error> for SubmissionError {
    fn from(error: sqlx::Error) -> (r: Self) {
        SubmissionError::TransactionFailed(error)
    }
}

impl vstd::std_specs::convert::FromSpecImpl<sqlx::Error> for SubmissionError {
    open spec fn obeys_from_spec() -> bool {
        true
    }

    open spec fn from_spec(v: sqlx::Error) -> SubmissionError {
        SubmissionError::TransactionFailed(v)
    }
}

pub open spec fn ongoing_message(user_id: i64) -> Seq<char> {
    "User "@ + int_decimal(user_id as int) + " already has ongoing submissions!"@
}

pub open spec fn cooldown_message() -> Seq<char> {
    "Slow down! You are submitting too often!"@
}

/// Whether a user may submit now, given how many of their submissions are
/// still pending or being judged, and how many they made in the last ten
/// seconds: an ongoing submission refuses it first, a recent one next.
pub fn check_submission_quota(user_id: i64, pending_count: i64, cooldown_count: i64) -> (r: Result<
    (),
    SubmissionError,
>)
    ensures
        pending_count > 0 ==> (r matches Err(SubmissionError::SubmissionLimitExceeded(m)) && m@
            == ongoing_message(user_id)),
        pending_count <= 0 && cooldown_count > 0 ==> (r matches Err(
            SubmissionError::SubmissionCoolDown(m),
        ) && m@ == cooldown_message()),
        pending_count <= 0 && cooldown_count <= 0 ==> r is Ok,
{
    if pending_count > 0 {
        let mut m = String::from_str("User ");
        let id = i64_to_decimal(user_id);
        m.append(id.as_str());
        m.append(" already has ongoing submissions!");
        return Err(SubmissionError::SubmissionLimitExceeded(m));
    }
    if cooldown_count > 0 {
        return Err(
            SubmissionError::SubmissionCoolDown(
                String::from_str("Slow down! You are submitting too often!"),
            ),
        );
    }
    Ok(())
}

/// Whether a verdict is a final judgement that counts against the contestant.
pub open spec fn counts_as_rejection(v: Verdict) -> bool {
    v != Verdict::Accepted && v != Verdict::JudgeFailure && v != Verdict::Pending && v
        != Verdict::Judging
}

/// The change to a contestant's (points, penalty) when one of their contest
/// submissions gets `verdict`, `elapsed_secs` seconds after the contest
/// started; `None` when the standing does not change.
pub open spec fn score_change_spec(already_accepted: bool, verdict: Verdict, elapsed_secs: i32) -> Option<
    (i32, i32),
> {
    if already_accepted {
        None
    } else if verdict == Verdict::Accepted {
        Some((1i32, elapsed_secs))
    } else if counts_as_rejection(verdict) {
        Some((0i32, 1i32))
    } else {
        None
    }
}

/// The standing change for a newly judged contest submission: once the
/// problem is solved nothing changes; the first acceptance earns one point
/// and the elapsed seconds as penalty; a wrong answer, time or memory limit,
/// runtime or compile error adds one penalty; a judge failure or a
/// submission still pending or judging changes nothing.
pub fn contest_score_change(already_accepted: bool, verdict: Verdict, elapsed_secs: i32) -> (r:
    Option<(i32, i32)>)
    ensures
        r == score_change_spec(already_accepted, verdict, elapsed_secs),
{
    let mut points: i32 = 0;
    let mut penalty: i32 = 0;
    if !already_accepted {
        if verdict == Verdict::Accepted {
            points = 1;
            penalty = elapsed_secs;
        } else if verdict != Verdict::JudgeFailure && verdict != Verdict::Pending && verdict
            != Verdict::Judging {
            penalty = penalty + 1;
        }
    }
    if points != 0 || penalty != 0 {
        Some((points, penalty))
    } else {
        None
    }
}

/// Whether any of the first `n` attempts was accepted.
pub open spec fn accepted_within(attempts: Seq<(Verdict, i32)>, n: int) -> bool {
    exists|i: int| 0 <= i < n && (#[trigger] attempts[i]).0 == Verdict::Accepted
}

/// The (points, penalty) that a sequence of judged attempts at one contest
/// problem adds up to, each attempt scored with `contest_score_change`
/// against whether an earlier attempt was accepted.
pub open spec fn standing_after(attempts: Seq<(Verdict, i32)>) -> (int, int)
    decreases attempts.len(),
{
    if attempts.len() == 0 {
        (0, 0)
    } else {
        let n = attempts.len() - 1;
        let before = standing_after(attempts.drop_last());
        match score_change_spec(accepted_within(attempts, n), attempts[n].0, attempts[n].1) {
            Some((p, q)) => (before.0 + p, before.1 + q),
            None => before,
        }
    }
}

/// The number of rejections among the first `n` attempts.
pub open spec fn rejections_within(attempts: Seq<(Verdict, i32)>, n: int) -> int
    decreases n,
{
    if n <= 0 {
        0
    } else {
        rejections_within(attempts, n - 1) + if counts_as_rejection(attempts[n - 1].0) {
            1int
        } else {
            0int
        }
    }
}

/// Index of the first accepted attempt, or `attempts.len()` when there is none.
pub open spec fn first_accepted(attempts: Seq<(Verdict, i32)>) -> int
    decreases attempts.len(),
{
    if attempts.len() == 0 {
        0
    } else if attempts[0].0 == Verdict::Accepted {
        0
    } else {
        1 + first_accepted(attempts.drop_first())
    }
}

proof fn lemma_first_accepted(attempts: Seq<(Verdict, i32)>)
    ensures
        0 <= first_accepted(attempts) <= attempts.len(),
        first_accepted(attempts) < attempts.len() ==> attempts[first_accepted(attempts)].0
            == Verdict::Accepted,
        forall|i: int|
            0 <= i < first_accepted(attempts) ==> (#[trigger] attempts[i]).0 != Verdict::Accepted,
    decreases attempts.len(),
{
    if attempts.len() > 0 && attempts[0].0 != Verdict::Accepted {
        lemma_first_accepted(attempts.drop_first());
        assert forall|i: int| 0 <= i < first_accepted(attempts) implies (
        #[trigger] attempts[i]).0 != Verdict::Accepted by {
            if i > 0 {
                assert(attempts[i] == attempts.drop_first()[i - 1]);
            }
        }
    }
}

proof fn lemma_rejections_prefix(attempts: Seq<(Verdict, i32)>, m: int, n: int)
    requires
        0 <= n <= m <= attempts.len(),
    ensures
        rejections_within(attempts.take(m), n) == rejections_within(attempts, n),
    decreases n,
{
    if n > 0 {
        lemma_rejections_prefix(attempts, m, n - 1);
        assert(attempts.take(m)[n - 1] == attempts[n - 1]);
    }
}

/// Contest scoring over all attempts at one problem: the problem earns one
/// point if some attempt is accepted and none otherwise; the penalty is the
/// number of rejections before the first acceptance plus the seconds at
/// which that acceptance came, or, with no acceptance, the number of
/// rejections. Attempts after the first acceptance change nothing.
pub proof fn lemma_contest_scoring(attempts: Seq<(Verdict, i32)>)
    ensures
        ({
            let f = first_accepted(attempts);
            if f < attempts.len() {
                standing_after(attempts) == (1int, rejections_within(attempts, f)
                    + attempts[f].1)
            } else {
                standing_after(attempts) == (0int, rejections_within(attempts, attempts.len() as int))
            }
        }),
    decreases attempts.len(),
{
    lemma_first_accepted(attempts);
    if attempts.len() > 0 {
        let pre = attempts.drop_last();
        let n = attempts.len() - 1;
        lemma_contest_scoring(pre);
        lemma_first_accepted(pre);
        let f = first_accepted(attempts);
        let fp = first_accepted(pre);
        assert forall|i: int| 0 <= i < n implies #[trigger] pre[i] == attempts[i] by {}
        lemma_rejections_prefix(attempts, n, fp);
        lemma_rejections_prefix(attempts, n, n);
        assert(pre =~= attempts.take(n));
        if fp < n {
            // the problem was already solved before the last attempt
            assert(fp == f) by {
                if f < fp {
                    assert(pre[f] == attempts[f]);
                }
                if fp < f {
                    assert(pre[fp] == attempts[fp]);
                }
            }
            assert(accepted_within(attempts, n)) by {
                assert(attempts[fp].0 == Verdict::Accepted);
            }
        } else {
            assert(!accepted_within(attempts, n)) by {
                if accepted_within(attempts, n) {
                    let i = choose|i: int| 0 <= i < n && (#[trigger] attempts[i]).0
                        == Verdict::Accepted;
                    assert(pre[i] == attempts[i]);
                }
            }
            if attempts[n].0 == Verdict::Accepted {
                assert(f == n) by {
                    if f < n {
                        assert(pre[f] == attempts[f]);
                    }
                }
            } else {
                assert(f == attempts.len()) by {
                    if f < n {
                        assert(pre[f] == attempts[f]);
                    }
                }
            }
        }
    }
}

} // verus!
