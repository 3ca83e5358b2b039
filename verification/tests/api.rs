use enyay_oj::api::{
    check_new_problem, check_new_submission, check_new_testcase, check_new_user, check_rejudge,
    check_verdict_updated, parse_verdict, rejudge_failed, validate_username, ApiError,
};
use enyay_oj::submission::SubmissionError;
use enyay_oj::verdict::Verdict;

fn bad(r: Result<impl std::fmt::Debug, ApiError>) -> String {
    match r {
        Err(ApiError::BadRequest(m)) => m,
        other => panic!("expected a bad request, got {:?}", other),
    }
}

fn missing(r: Result<impl std::fmt::Debug, ApiError>) -> String {
    match r {
        Err(ApiError::NotFound(m)) => m,
        other => panic!("expected not found, got {:?}", other),
    }
}

#[test]
fn usernames_accepted() {
    assert!(validate_username("abc").is_ok());
    assert!(validate_username("Alice_99").is_ok());
    assert!(validate_username("a_b_c_d_e_f_g_h_i_jk").is_ok());
}

#[test]
fn usernames_refused() {
    assert_eq!(bad(validate_username("ab")), "usernames must be between 3-20 characters");
    assert_eq!(bad(validate_username("abcdefghijklmnopqrstu")), "usernames must be between 3-20 characters");
    assert_eq!(bad(validate_username("\u{e9}")), "usernames must be between 3-20 characters");
    assert_eq!(bad(validate_username("1abc")), "usernames must start with a letter");
    assert_eq!(bad(validate_username("_abc")), "usernames must start with a letter");
    assert_eq!(bad(validate_username("abc_")), "usernames cannot have trailing underscores");
    assert_eq!(bad(validate_username("ab-c")), "usernames may only contain letters, numbers and underscores");
    assert_eq!(bad(validate_username("ab\u{e9}")), "usernames may only contain letters, numbers and underscores");
    assert_eq!(bad(validate_username("a b")), "usernames may only contain letters, numbers and underscores");
}

#[test]
fn new_user_requests() {
    assert_eq!(check_new_user("  alice  ", "uid-1").unwrap(), "alice");
    assert_eq!(bad(check_new_user(" \t ", "uid-1")), "user_name cannot be empty");
    assert_eq!(bad(check_new_user(" a ", "uid-1")), "usernames must be between 3-20 characters");
    assert_eq!(bad(check_new_user("alice", "")), "uid cannot be empty");
    assert_eq!(bad(check_new_user("9lives", "")), "usernames must start with a letter");
}

#[test]
fn new_problem_requests() {
    let ok = check_new_problem(" Sum ", "Add two numbers", 1000, 256, " standard ", None).unwrap();
    assert_eq!(ok, ("Sum".to_string(), "standard".to_string(), String::new()));
    let v = check_new_problem("Sum", "s", 1, 1, "validator", Some("check()".to_string())).unwrap();
    assert_eq!(v, ("Sum".to_string(), "validator".to_string(), "check()".to_string()));
    assert_eq!(bad(check_new_problem("  ", "s", 1, 1, "standard", None)), "problem_name cannot be empty");
    assert_eq!(bad(check_new_problem("Sum", "\n", 1, 1, "standard", None)), "problem statement cannot be empty");
    assert_eq!(bad(check_new_problem("Sum", "s", 0, 1, "standard", None)), "runtime_ms and memory_kb must be positive");
    assert_eq!(bad(check_new_problem("Sum", "s", 1, -5, "standard", None)), "runtime_ms and memory_kb must be positive");
    assert_eq!(
        bad(check_new_problem("Sum", "s", 1, 1, "special", None)),
        "One of the 2 modes must be selected, standard or validator"
    );
    assert_eq!(
        bad(check_new_problem("Sum", "s", 1, 1, "validator", Some("  ".to_string()))),
        "validator_code is required for validator problems"
    );
    assert_eq!(
        bad(check_new_problem("Sum", "s", 1, 1, "validator", None)),
        "validator_code is required for validator problems"
    );
}

#[test]
fn new_testcase_and_submission_requests() {
    assert!(check_new_testcase(4, "1 2", "3").is_ok());
    assert_eq!(bad(check_new_testcase(0, "1 2", "3")), "Problem id must be positive");
    assert_eq!(bad(check_new_testcase(4, " ", "3")), "Testcases and solutions must not be empty");
    assert_eq!(bad(check_new_testcase(4, "1", "\n")), "Testcases and solutions must not be empty");
    assert!(check_new_submission("int main(){}").is_ok());
    assert_eq!(bad(check_new_submission("  \n ")), "source_code cannot be empty");
}

#[test]
fn verdict_updates() {
    assert_eq!(parse_verdict("TLE").unwrap(), Verdict::TimeLimitExceeded);
    assert_eq!(
        bad(parse_verdict("OK")),
        "expected one of PENDING, JUDGING, AC, WA, TLE, MLE, RE, CE Or JF"
    );
    assert!(check_verdict_updated(5, 1).is_ok());
    assert_eq!(missing(check_verdict_updated(5, 0)), "submission 5 not found");
}

#[test]
fn rejudge_rules() {
    assert!(check_rejudge(8, Some("WA")).is_ok());
    assert!(check_rejudge(8, Some("AC")).is_ok());
    assert_eq!(
        bad(check_rejudge(8, Some("PENDING"))),
        "You cannot rejudge a submission that is currently being judged!"
    );
    assert_eq!(
        bad(check_rejudge(8, Some("JUDGING"))),
        "You cannot rejudge a submission that is currently being judged!"
    );
    assert_eq!(missing(check_rejudge(-2, None)), "Submission -2 does not exist!");
    match rejudge_failed(8) {
        ApiError::BadRequest(m) => assert_eq!(m, "Failed to rejudge submission 8. Are you sure it exists?"),
        other => panic!("unexpected {:?}", other),
    }
}

#[test]
fn error_responses() {
    assert_eq!(ApiError::BadRequest("nope".to_string()).response(), (400, "nope".to_string()));
    assert_eq!(ApiError::NotFound("gone".to_string()).response(), (404, "gone".to_string()));
    assert_eq!(
        ApiError::from(sqlx::Error::RowNotFound).response(),
        (500, "database request failed".to_string())
    );
    let io = std::io::Error::new(std::io::ErrorKind::Other, "disk");
    assert_eq!(ApiError::from(io).response(), (500, "server request failed".to_string()));
}

#[test]
fn submission_errors_as_responses() {
    let limit = ApiError::from(SubmissionError::SubmissionLimitExceeded("busy".to_string()));
    assert_eq!(limit.response(), (400, "busy".to_string()));
    let cool = ApiError::from(SubmissionError::SubmissionCoolDown("slow".to_string()));
    assert_eq!(cool.response(), (400, "slow".to_string()));
    let db = ApiError::from(SubmissionError::from(sqlx::Error::RowNotFound));
    assert!(matches!(db, ApiError::Database(_)));
}
