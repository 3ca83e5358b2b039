//! Contest rules: when a contest may be created, prepared, joined, entered
//! and ranked.
use vstd::prelude::*;
use crate::api::{ApiError, bad_request, is_bad_request, is_not_found, byte_len};
use crate::text::{int_decimal, is_alphabetic, unicode_alphabetic, with_number};

verus! {

/// An instant: whole seconds since the Unix epoch and nanoseconds within
/// the second (past one second only within a leap second). Instants are
/// ordered by seconds, then nanoseconds.
#[derive(Debug, Clone, Copy, PartialEq, Eq, Structural)]
pub struct Timestamp {
    pub secs: i64,
    pub nanos: u32,
}

/// `a` is strictly earlier than `b`.
pub open spec fn earlier(a: Timestamp, b: Timestamp) -> bool {
    a.secs < b.secs || (a.secs == b.secs && a.nanos < b.nanos)
}

impl Timestamp {
    /// Whether this instant is strictly earlier than `other`.
    pub fn is_before(&self, other: &Timestamp) -> (r: bool)
        ensures
            r == earlier(*self, *other),
    {
        self.secs < other.secs || (self.secs == other.secs && self.nanos < other.nanos)
    }
}

/// Checks a request for a new contest made at `now`: it needs a name, must
/// start before it ends, and must both start and end in the future.
pub fn check_new_contest(contest_name: &str, start_time: Timestamp, end_time: Timestamp, now: Timestamp) -> (r:
    Result<(), ApiError>)
    ensures
        contest_name@.len() == 0 ==> is_bad_request(r, "contests must have a name!"@),
        contest_name@.len() > 0 && !earlier(start_time, end_time) ==> is_bad_request(
            r,
            "contest start time must be before end time"@,
        ),
        contest_name@.len() > 0 && earlier(start_time, end_time) && !earlier(now, start_time)
            ==> is_bad_request(r, "contests cannot be started before it has been created!"@),
        contest_name@.len() > 0 && earlier(start_time, end_time) && earlier(now, start_time)
            && !earlier(now, end_time) ==> is_bad_request(
            r,
            "contests cannot be finished before it is created!"@,
        ),
        (r is Ok) <==> (contest_name@.len() > 0 && earlier(start_time, end_time) && earlier(
            now,
            start_time,
        ) && earlier(now, end_time)),
{
    if contest_name.is_empty() {
        return Err(bad_request("contests must have a name!"));
    }
    if !start_time.is_before(&end_time) {
        return Err(bad_request("contest start time must be before end time"));
    }
    if !now.is_before(&start_time) {
        return Err(bad_request("contests cannot be started before it has been created!"));
    }
    if !now.is_before(&end_time) {
        return Err(bad_request("contests cannot be finished before it is created!"));
    }
    Ok(())
}

pub open spec fn problem_order_message() -> Seq<char> {
    "problem order must be exactly 1 character, A-Z"@
}

/// Checks a problem's position label in a contest: at most one byte long,
/// and made of alphabetic characters only (so a single ASCII letter, or empty).
pub fn check_problem_order(problem_order: &str) -> (r: Result<(), ApiError>)
    ensures
        (r is Ok) <==> (byte_len(problem_order) <= 1 && forall|i: int|
            0 <= i < problem_order@.len() ==> unicode_alphabetic(#[trigger] problem_order@[i])),
        !(r is Ok) ==> is_bad_request(r, problem_order_message()),
{
    if problem_order.as_bytes().len() > 1 {
        return Err(bad_request("problem order must be exactly 1 character, A-Z"));
    }
    let n = problem_order.unicode_len();
    let mut i: usize = 0;
    while i < n
        invariant
            n == problem_order@.len(),
            i <= n,
            forall|k: int| 0 <= k < i ==> unicode_alphabetic(#[trigger] problem_order@[k]),
        decreases n - i,
    {
        if !is_alphabetic(problem_order.get_char(i)) {
            return Err(bad_request("problem order must be exactly 1 character, A-Z"));
        }
        i = i + 1;
    }
    Ok(())
}

/// Problems may be added to a contest only while it exists and has not begun.
pub fn check_assignable(contest_id: i64, contest_start: Option<Timestamp>, now: Timestamp) -> (r: Result<
    (),
    ApiError,
>)
    ensures
        match contest_start {
            None => is_bad_request(r, "contest "@ + int_decimal(contest_id as int) + " does not exist"@),
            Some(start) => if !earlier(now, start) {
                is_bad_request(r, "questions must be assigned before a contest begins!"@)
            } else {
                r is Ok
            },
        },
{
    match contest_start {
        None => Err(ApiError::BadRequest(with_number("contest ", contest_id, " does not exist"))),
        Some(start) => {
            if !now.is_before(&start) {
                return Err(bad_request("questions must be assigned before a contest begins!"));
            }
            Ok(())
        },
    }
}

/// A problem added to a contest must exist.
pub fn check_problem_exists(problem_id: i64, exists: bool) -> (r: Result<(), ApiError>)
    ensures
        exists ==> r is Ok,
        !exists ==> is_bad_request(r, "problem "@ + int_decimal(problem_id as int) + " does not exist!"@),
{
    if !exists {
        return Err(ApiError::BadRequest(with_number("problem ", problem_id, " does not exist!")));
    }
    Ok(())
}

/// Adding a problem that changed nothing means its label is already taken in the contest.
pub fn check_problem_assigned(rows_affected: u64) -> (r: Result<(), ApiError>)
    ensures
        rows_affected == 0 ==> is_bad_request(r, "problem order must be unique for each contest"@),
        rows_affected != 0 ==> r is Ok,
{
    if rows_affected == 0 {
        return Err(bad_request("problem order must be unique for each contest"));
    }
    Ok(())
}

/// A user may register for a contest only while it exists and has not begun.
pub fn check_registration_open(contest_id: i64, contest_start: Option<Timestamp>, now: Timestamp) -> (r:
    Result<(), ApiError>)
    ensures
        match contest_start {
            None => is_bad_request(r, "contest "@ + int_decimal(contest_id as int) + " does not exist!"@),
            Some(start) => if earlier(now, start) {
                r is Ok
            } else {
                is_bad_request(r, "you cannot register a contest that has ended or is in progress"@)
            },
        },
{
    match contest_start {
        None => Err(ApiError::BadRequest(with_number("contest ", contest_id, " does not exist!"))),
        Some(start) => {
            if now.is_before(&start) {
                Ok(())
            } else {
                Err(bad_request("you cannot register a contest that has ended or is in progress"))
            }
        },
    }
}

/// A registration that changed nothing means the user was already registered.
pub fn check_registered(user_id: i64, rows_affected: u64) -> (r: Result<(), ApiError>)
    ensures
        rows_affected >= 1 ==> r is Ok,
        rows_affected == 0 ==> is_bad_request(r, "user "@ + int_decimal(user_id as int) + " already registered"@),
{
    if rows_affected >= 1 {
        return Ok(());
    }
    Err(ApiError::BadRequest(with_number("user ", user_id, " already registered")))
}

/// A contest that was looked up must exist.
pub fn check_contest_exists(contest_id: i64, exists: bool) -> (r: Result<(), ApiError>)
    ensures
        exists ==> r is Ok,
        !exists ==> is_not_found(r, "contest "@ + int_decimal(contest_id as int) + " does not exist"@),
{
    if !exists {
        return Err(ApiError::NotFound(with_number("contest ", contest_id, " does not exist")));
    }
    Ok(())
}

/// Whether a user is registered for a contest, which must exist.
pub fn registration_status(contest_id: i64, registered: Option<bool>) -> (r: Result<bool, ApiError>)
    ensures
        match registered {
            None => is_not_found(r, "contest "@ + int_decimal(contest_id as int) + " does not exist"@),
            Some(b) => r matches Ok(x) && x == b,
        },
{
    match registered {
        None => Err(ApiError::NotFound(with_number("contest ", contest_id, " does not exist"))),
        Some(b) => Ok(b),
    }
}

/// A contest's problem is shown to a user only if the contest exists and
/// the user is registered for it.
pub fn check_contest_access(contest_id: i64, registered: Option<bool>) -> (r: Result<(), ApiError>)
    ensures
        match registered {
            None => is_not_found(r, "contest "@ + int_decimal(contest_id as int) + " does not exist"@),
            Some(true) => r is Ok,
            Some(false) => is_bad_request(
                r,
                "you are not registered for contest "@ + int_decimal(contest_id as int),
            ),
        },
{
    match registered {
        None => Err(ApiError::NotFound(with_number("contest ", contest_id, " does not exist"))),
        Some(true) => Ok(()),
        Some(false) => {
            let m = with_number("you are not registered for contest ", contest_id, "");
            proof {
                reveal_strlit("");
                assert(m@ =~= "you are not registered for contest "@ + int_decimal(contest_id as int));
            }
            Err(ApiError::BadRequest(m))
        },
    }
}

/// The final standings of a contest are shown once it exists and has ended.
pub fn check_final_ranking_ready(contest_id: i64, contest_end: Option<Timestamp>, now: Timestamp) -> (r:
    Result<(), ApiError>)
    ensures
        match contest_end {
            None => is_not_found(r, "contest "@ + int_decimal(contest_id as int) + " does not exist"@),
            Some(end) => if earlier(now, end) {
                is_bad_request(r, "contest "@ + int_decimal(contest_id as int) + " is still ongoing"@)
            } else {
                r is Ok
            },
        },
{
    match contest_end {
        None => Err(ApiError::NotFound(with_number("contest ", contest_id, " does not exist"))),
        Some(end) => {
            if now.is_before(&end) {
                return Err(ApiError::BadRequest(with_number("contest ", contest_id, " is still ongoing")));
            }
            Ok(())
        },
    }
}

/// A contest submission is accepted only from a registered user, while the
/// contest runs: from its start (inclusive) to its end (exclusive).
/// `registration` holds the contest's start and end when the user is registered.
pub fn check_submission_window(
    contest_id: i64,
    registration: Option<(Timestamp, Timestamp)>,
    now: Timestamp,
) -> (r: Result<(), ApiError>)
    ensures
        match registration {
            None => is_bad_request(r, "you did not register for contest "@ + int_decimal(contest_id as int)),
            Some((start, end)) => if earlier(now, start) || !earlier(now, end) {
                is_bad_request(r, "contest "@ + int_decimal(contest_id as int) + " is not currently active"@)
            } else {
                r is Ok
            },
        },
{
    match registration {
        None => {
            let m = with_number("you did not register for contest ", contest_id, "");
            proof {
                reveal_strlit("");
                assert(m@ =~= "you did not register for contest "@ + int_decimal(contest_id as int));
            }
            Err(ApiError::BadRequest(m))
        },
        Some((start, end)) => {
            if now.is_before(&start) || !now.is_before(&end) {
                return Err(
                    ApiError::BadRequest(with_number("contest ", contest_id, " is not currently active")),
                );
            }
            Ok(())
        },
    }
}

/// A contest submission must be for one of the contest's problems.
pub fn check_problem_in_contest(contest_id: i64, problem_id: i64, in_contest: bool) -> (r: Result<
    (),
    ApiError,
>)
    ensures
        in_contest ==> r is Ok,
        !in_contest ==> is_bad_request(
            r,
            "problem "@ + int_decimal(problem_id as int) + " is not a part of contest "@ + int_decimal(
                contest_id as int,
            ),
        ),
{
    if !in_contest {
        let mut m = with_number("problem ", problem_id, " is not a part of contest ");
        let c = crate::text::i64_to_decimal(contest_id);
        m.append(c.as_str());
        return Err(ApiError::BadRequest(m));
    }
    Ok(())
}

} // verus!
