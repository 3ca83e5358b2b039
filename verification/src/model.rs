//! The records the judge stores and serves: users, problems, test cases,
//! submissions and contest rankings.
use vstd::prelude::*;

verus! {

/// A registered user.
#[derive(Debug, PartialEq, Eq)]
pub struct User {
    pub user_id: i64,
    pub user_name: String,
    pub auth_uid: String,
}

/// A user's standing in a contest.
#[derive(Debug, PartialEq, Eq)]
pub struct UserRanking {
    pub user_id: i64,
    pub user_name: String,
    pub points: i32,
    pub penalty: i32,
}

/// A user's final standing in a contest, with the state of every contest problem.
#[derive(Debug, PartialEq, Eq)]
pub struct FinalRanking {
    pub user_id: i64,
    pub user_name: String,
    pub points: i32,
    pub penalty: i32,
    pub problems: Vec<PublicRankingItems>,
}

/// One (user, contest problem) pair of a contest's final standings.
#[derive(Debug, PartialEq, Eq)]
pub struct RankingItems {
    pub user_id: i64,
    pub user_name: String,
    pub points: i32,
    pub penalty: i32,
    pub problem_id: i64,
    pub problem_order: String,
    pub accepted: bool,
}

/// The part of a ranking item that is shown for one problem.
#[derive(Debug, PartialEq, Eq)]
pub struct PublicRankingItems {
    pub problem_id: i64,
    pub problem_order: String,
    pub accepted: bool,
}

/// A problem with its judging settings.
#[derive(Debug, PartialEq, Eq)]
pub struct Problem {
    pub problem_id: i64,
    pub problem_name: String,
    pub runtime_ms: i64,
    pub memory_mb: i64,
    pub problem_rating: i32,
    pub problem_statement: String,
    pub judge_type: String,
    pub validator_code: Option<String>,
}

/// A problem as a user sees it, with whether that user has solved it.
#[derive(Debug, PartialEq, Eq)]
pub struct PublicProblem {
    pub problem_id: i64,
    pub problem_name: String,
    pub runtime_ms: i64,
    pub memory_mb: i64,
    pub problem_rating: i32,
    pub problem_statement: String,
    pub judge_type: String,
    pub accepted: bool,
    pub problem_order: Option<String>,
}

/// One hidden test of a problem: its input and the expected output.
#[derive(Debug, PartialEq, Eq)]
pub struct TestCase {
    pub problem_id: i64,
    pub input: String,
    pub solution: String,
}

/// A submitted program and its judging state.
#[derive(Debug, PartialEq, Eq)]
pub struct Submission {
    pub submission_id: i64,
    pub user_id: i64,
    pub contest_id: Option<i64>,
    pub problem_id: i64,
    pub verdict: String,
    pub runtime_ms: Option<i64>,
    pub memory_kb: Option<i64>,
    pub language: Option<String>,
    pub source_code: String,
}

} // verus!
