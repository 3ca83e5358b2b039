use enyay_oj::api::ApiError;
use enyay_oj::contest::{
    check_assignable, check_contest_access, check_contest_exists, check_final_ranking_ready,
    check_new_contest, check_problem_assigned, check_problem_exists, check_problem_in_contest,
    check_problem_order, check_registered, check_registration_open, check_submission_window,
    registration_status, Timestamp,
};

fn at(secs: i64, nanos: u32) -> Timestamp {
    Timestamp { secs, nanos }
}

fn bad(r: Result<impl std::fmt::Debug, ApiError>) -> String {
    match r {
        Err(ApiError::BadRequest(m)) => m,
        other => panic!("expected a bad request, got {:?}", other),
    }
}

fn missing(r: Result<impl std::fmt::Debug, ApiError>) -> String {
    match r {
        Err(ApiError::NotFound(m)) => m,
        other => panic!("expected not found, got {:?}", other),
    }
}

#[test]
fn timestamps_order_by_seconds_then_nanos() {
    assert!(at(1, 0).is_before(&at(2, 0)));
    assert!(at(1, 5).is_before(&at(1, 6)));
    assert!(at(-1, 999_999_999).is_before(&at(0, 0)));
    assert!(!at(1, 5).is_before(&at(1, 5)));
    assert!(!at(2, 0).is_before(&at(1, 999_999_999)));
}

#[test]
fn new_contests() {
    let now = at(100, 0);
    assert!(check_new_contest("Round 1", at(200, 0), at(300, 0), now).is_ok());
    assert_eq!(bad(check_new_contest("", at(200, 0), at(300, 0), now)), "contests must have a name!");
    assert_eq!(
        bad(check_new_contest("R", at(300, 0), at(300, 0), now)),
        "contest start time must be before end time"
    );
    assert_eq!(
        bad(check_new_contest("R", at(100, 0), at(300, 0), now)),
        "contests cannot be started before it has been created!"
    );
    assert_eq!(
        bad(check_new_contest("R", at(50, 0), at(60, 0), now)),
        "contests cannot be started before it has been created!"
    );
}

#[test]
fn problem_order_labels() {
    assert!(check_problem_order("A").is_ok());
    assert!(check_problem_order("z").is_ok());
    assert!(check_problem_order("").is_ok());
    let msg = "problem order must be exactly 1 character, A-Z";
    assert_eq!(bad(check_problem_order("AB")), msg);
    assert_eq!(bad(check_problem_order("1")), msg);
    assert_eq!(bad(check_problem_order("_")), msg);
    assert_eq!(bad(check_problem_order("\u{e9}")), msg);
}

#[test]
fn assigning_problems() {
    assert!(check_assignable(4, Some(at(200, 0)), at(100, 0)).is_ok());
    assert_eq!(bad(check_assignable(4, Some(at(100, 0)), at(100, 0))), "questions must be assigned before a contest begins!");
    assert_eq!(bad(check_assignable(4, None, at(100, 0))), "contest 4 does not exist");
    assert!(check_problem_exists(7, true).is_ok());
    assert_eq!(bad(check_problem_exists(7, false)), "problem 7 does not exist!");
    assert!(check_problem_assigned(1).is_ok());
    assert_eq!(bad(check_problem_assigned(0)), "problem order must be unique for each contest");
}

#[test]
fn registering() {
    assert!(check_registration_open(4, Some(at(200, 0)), at(199, 999)).is_ok());
    assert_eq!(
        bad(check_registration_open(4, Some(at(200, 0)), at(200, 0))),
        "you cannot register a contest that has ended or is in progress"
    );
    assert_eq!(bad(check_registration_open(4, None, at(1, 0))), "contest 4 does not exist!");
    assert!(check_registered(3, 1).is_ok());
    assert_eq!(bad(check_registered(3, 0)), "user 3 already registered");
}

#[test]
fn contest_lookups() {
    assert!(check_contest_exists(4, true).is_ok());
    assert_eq!(missing(check_contest_exists(4, false)), "contest 4 does not exist");
    assert_eq!(registration_status(4, Some(true)).unwrap(), true);
    assert_eq!(registration_status(4, Some(false)).unwrap(), false);
    assert_eq!(missing(registration_status(4, None)), "contest 4 does not exist");
    assert!(check_contest_access(4, Some(true)).is_ok());
    assert_eq!(bad(check_contest_access(4, Some(false))), "you are not registered for contest 4");
    assert_eq!(missing(check_contest_access(4, None)), "contest 4 does not exist");
}

#[test]
fn final_ranking_after_the_end() {
    assert!(check_final_ranking_ready(4, Some(at(300, 0)), at(300, 0)).is_ok());
    assert_eq!(bad(check_final_ranking_ready(4, Some(at(300, 0)), at(299, 0))), "contest 4 is still ongoing");
    assert_eq!(missing(check_final_ranking_ready(4, None, at(1, 0))), "contest 4 does not exist");
}

#[test]
fn contest_submission_window() {
    let window = Some((at(200, 0), at(300, 0)));
    assert!(check_submission_window(4, window, at(200, 0)).is_ok());
    assert!(check_submission_window(4, window, at(299, 999_999_999)).is_ok());
    assert_eq!(bad(check_submission_window(4, window, at(199, 0))), "contest 4 is not currently active");
    assert_eq!(bad(check_submission_window(4, window, at(300, 0))), "contest 4 is not currently active");
    assert_eq!(bad(check_submission_window(4, None, at(250, 0))), "you did not register for contest 4");
    assert!(check_problem_in_contest(4, 9, true).is_ok());
    assert_eq!(bad(check_problem_in_contest(4, 9, false)), "problem 9 is not a part of contest 4");
}
