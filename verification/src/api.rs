//! Errors of the HTTP interface and the checks that requests pass before
//! anything is stored.
use vstd::prelude::*;
use vstd::string::StringSliceAdditionalSpecFns;
use crate::submission::SubmissionError;
use crate::text::{int_decimal, is_ascii_alnum, is_ascii_alpha, owned, str_eq, trim, trim_spec, with_number};
use crate::verdict::{Verdict, parse_verdict_message, verdict_of_code};

verus! {

/// Why a request failed.
#[derive(Debug)]
pub enum ApiError {
    BadRequest(String),
    NotFound(String),
    Database(sqlx::Error),
    Io(std::io::Error),
}

impl From<sqlx::Error> for ApiError {
    fn from(error: sqlx::Error) -> (r: Self) {
        ApiError::Database(error)
    }
}

impl vstd::std_specs::convert::FromSpecImpl<sqlx::Error> for ApiError {
    open spec fn obeys_from_spec() -> bool {
        true
    }

    open spec fn from_spec(v: sqlx::Error) -> ApiError {
        ApiError::Database(v)
    }
}

impl From<std::io::Error> for ApiError {
    fn from(error: std::io::Error) -> (r: Self) {
        ApiError::Io(error)
    }
}

impl vstd::std_specs::convert::FromSpecImpl<std::io::Error> for ApiError {
    open spec fn obeys_from_spec() -> bool {
        true
    }

    open spec fn from_spec(v: std::io::Error) -> ApiError {
        ApiError::Io(v)
    }
}

/// A refused submission is a bad request with the refusal's text; a failed
/// transaction is a database error.
pub open spec fn api_error_of_submission(e: SubmissionError) -> ApiError {
    match e {
        SubmissionError::SubmissionLimitExceeded(m) => ApiError::BadRequest(m),
        SubmissionError::SubmissionCoolDown(m) => ApiError::BadRequest(m),
        SubmissionError::TransactionFailed(err) => ApiError::Database(err),
    }
}

impl From<SubmissionError> for ApiError {
    fn from(error: SubmissionError) -> (r: Self) {
        match error {
            SubmissionError::SubmissionLimitExceeded(message) => ApiError::BadRequest(message),
            SubmissionError::SubmissionCoolDown(message) => ApiError::BadRequest(message),
            SubmissionError::TransactionFailed(err) => ApiError::Database(err),
        }
    }
}

impl vstd::std_specs::convert::FromSpecImpl<SubmissionError> for ApiError {
    open spec fn obeys_from_spec() -> bool {
        true
    }

    open spec fn from_spec(v: SubmissionError) -> ApiError {
        api_error_of_submission(v)
    }
}

impl ApiError {
    /// The HTTP status and the text sent back: a bad request is 400 and a
    /// missing record 404, each with its own text; database and I/O failures
    /// are 500 with a fixed text that reveals nothing of the failure.
    pub fn response(&self) -> (r: (u16, String))
        ensures
            match self {
                ApiError::BadRequest(m) => r.0 == 400 && r.1@ == m@,
                ApiError::NotFound(m) => r.0 == 404 && r.1@ == m@,
                ApiError::Database(_) => r.0 == 500 && r.1@ == "database request failed"@,
                ApiError::Io(_) => r.0 == 500 && r.1@ == "server request failed"@,
            },
    {
        match self {
            ApiError::BadRequest(message) => (400, message.clone()),
            ApiError::NotFound(message) => (404, message.clone()),
            ApiError::Database(_) => (500, String::from_str("database request failed")),
            ApiError::Io(_) => (500, String::from_str("server request failed")),
        }
    }
}

/// `r` is a bad request with text `m`.
pub open spec fn is_bad_request<T>(r: Result<T, ApiError>, m: Seq<char>) -> bool {
    r matches Err(ApiError::BadRequest(s)) && s@ == m
}

/// `r` is a not-found error with text `m`.
pub open spec fn is_not_found<T>(r: Result<T, ApiError>, m: Seq<char>) -> bool {
    r matches Err(ApiError::NotFound(s)) && s@ == m
}

/// A bad request with the text `m`.
pub(crate) fn bad_request(m: &str) -> (r: ApiError)
    ensures
        r matches ApiError::BadRequest(s) && s@ == m@,
{
    ApiError::BadRequest(owned(m))
}

/// A not-found error with the text `m`.
pub(crate) fn not_found(m: &str) -> (r: ApiError)
    ensures
        r matches ApiError::NotFound(s) && s@ == m@,
{
    ApiError::NotFound(owned(m))
}

/// The UTF-8 length of `s`, in bytes.
pub open spec fn byte_len(s: &str) -> int {
    vstd::utf8::encode_utf8(s@).len() as int
}

/// The reason a user name is refused, if it is: between 3 and 20 bytes,
/// starting with an ASCII letter, not ending in `'_'`, and made of ASCII
/// letters, digits and underscores only.
pub open spec fn username_problem(name: Seq<char>, bytes: int) -> Option<Seq<char>> {
    if bytes < 3 || bytes > 20 {
        Some("usernames must be between 3-20 characters"@)
    } else if !(name.len() > 0 && is_ascii_alpha(name[0])) {
        Some("usernames must start with a letter"@)
    } else if name.len() > 0 && name.last() == '_' {
        Some("usernames cannot have trailing underscores"@)
    } else if exists|i: int| 0 <= i < name.len() && !(is_ascii_alnum(#[trigger] name[i]) || name[i] == '_') {
        Some("usernames may only contain letters, numbers and underscores"@)
    } else {
        None
    }
}

/// Checks a user name against the naming rules, reporting the first one it breaks.
pub fn validate_username(username: &str) -> (r: Result<(), ApiError>)
    ensures
        match username_problem(username@, byte_len(username)) {
            None => r is Ok,
            Some(m) => is_bad_request(r, m),
        },
{
    let bytes = username.as_bytes().len();
    if bytes < 3 || bytes > 20 {
        return Err(bad_request("usernames must be between 3-20 characters"));
    }
    let n = username.unicode_len();
    assert(n > 0) by {
        if n == 0 {
            assert(username.spec_bytes().len() == 0);
        }
    }
    let starts_with_letter = if n > 0 {
        let c = username.get_char(0);
        ('a' <= c && c <= 'z') || ('A' <= c && c <= 'Z')
    } else {
        false
    };
    if !starts_with_letter {
        return Err(bad_request("usernames must start with a letter"));
    }
    if n > 0 && username.get_char(n - 1) == '_' {
        return Err(bad_request("usernames cannot have trailing underscores"));
    }
    let mut i: usize = 0;
    while i < n
        invariant
            n == username@.len(),
            n > 0,
            3 <= byte_len(username) <= 20,
            is_ascii_alpha(username@[0]),
            username@.last() != '_',
            i <= n,
            forall|k: int| 0 <= k < i ==> (is_ascii_alnum(#[trigger] username@[k]) || username@[k] == '_'),
        decreases n - i,
    {
        let c = username.get_char(i);
        if !(('a' <= c && c <= 'z') || ('A' <= c && c <= 'Z') || ('0' <= c && c <= '9') || c
            == '_') {
            return Err(bad_request("usernames may only contain letters, numbers and underscores"));
        }
        i = i + 1;
    }
    Ok(())
}

/// A character allowed in a user name: an ASCII letter, an ASCII digit or `'_'`.
pub open spec fn username_char(c: char) -> bool {
    ('a' <= c && c <= 'z') || ('A' <= c && c <= 'Z') || ('0' <= c && c <= '9') || c == '_'
}

/// The naming rules: a user name is accepted exactly when it is 3 to 20
/// bytes long, starts with an ASCII letter, does not end in `'_'`, and
/// every character is an ASCII letter, an ASCII digit or `'_'`. A name
/// that passes the other rules but holds any other character (such as
/// `'.'`) is refused for that character.
pub proof fn lemma_username_rules(name: Seq<char>, bytes: int)
    ensures
        (username_problem(name, bytes) is None) <==> (3 <= bytes <= 20 && name.len() > 0 && (('a'
            <= name[0] && name[0] <= 'z') || ('A' <= name[0] && name[0] <= 'Z')) && name.last()
            != '_' && forall|i: int| 0 <= i < name.len() ==> username_char(#[trigger] name[i])),
        forall|i: int|
            0 <= i < name.len() && !username_char(#[trigger] name[i]) ==> username_problem(
                name,
                bytes,
            ) is Some,
        (3 <= bytes <= 20 && name.len() > 0 && (('a' <= name[0] && name[0] <= 'z') || ('A'
            <= name[0] && name[0] <= 'Z')) && name.last() != '_' && exists|i: int|
            0 <= i < name.len() && !username_char(#[trigger] name[i])) ==> username_problem(
            name,
            bytes,
        ) == Some("usernames may only contain letters, numbers and underscores"@),
{
    assert forall|i: int| 0 <= i < name.len() implies (username_char(#[trigger] name[i]) <==> (
    is_ascii_alnum(name[i]) || name[i] == '_')) by {}
}

/// Checks a request for a new user: the name without surrounding
/// whitespace must be non-empty and follow the naming rules, and the
/// authentication id must be non-empty; on success, the name to store.
pub fn check_new_user<'a>(user_name: &'a str, auth_uid: &str) -> (r: Result<&'a str, ApiError>)
    ensures
        r matches Ok(name) ==> name@ == trim_spec(user_name@),
        trim_spec(user_name@).len() == 0 ==> is_bad_request(r, "user_name cannot be empty"@),
        trim_spec(user_name@).len() > 0 ==> match username_problem(
            trim_spec(user_name@),
            encode_trimmed_len(user_name),
        ) {
            Some(m) => is_bad_request(r, m),
            None => if auth_uid@.len() == 0 {
                is_bad_request(r, "uid cannot be empty"@)
            } else {
                r is Ok
            },
        },
{
    let username = trim(user_name);
    if username.is_empty() {
        return Err(bad_request("user_name cannot be empty"));
    }
    match validate_username(username) {
        Ok(()) => {},
        Err(e) => return Err(e),
    }
    if auth_uid.is_empty() {
        return Err(bad_request("uid cannot be empty"));
    }
    Ok(username)
}

/// The UTF-8 length of `user_name` once trimmed.
pub open spec fn encode_trimmed_len(user_name: &str) -> int {
    vstd::utf8::encode_utf8(trim_spec(user_name@)).len() as int
}

/// What a problem is stored with: its name without surrounding
/// whitespace, its judging mode without surrounding whitespace, and its
/// validator program (empty when none was given).
pub open spec fn new_problem_problem(
    problem_name: Seq<char>,
    problem_statement: Seq<char>,
    runtime_ms: i64,
    memory_mb: i64,
    judge_type: Seq<char>,
    validator_code: Seq<char>,
) -> Option<Seq<char>> {
    let mode = trim_spec(judge_type);
    if trim_spec(problem_name).len() == 0 {
        Some("problem_name cannot be empty"@)
    } else if trim_spec(problem_statement).len() == 0 {
        Some("problem statement cannot be empty"@)
    } else if runtime_ms <= 0 || memory_mb <= 0 {
        Some("runtime_ms and memory_kb must be positive"@)
    } else if mode != "standard"@ && mode != "validator"@ {
        Some("One of the 2 modes must be selected, standard or validator"@)
    } else if mode == "validator"@ && trim_spec(validator_code).len() == 0 {
        Some("validator_code is required for validator problems"@)
    } else {
        None
    }
}

/// The validator program of a request: the given one, or empty.
pub open spec fn validator_or_empty(validator_code: Option<String>) -> Seq<char> {
    match validator_code {
        Some(v) => v@,
        None => Seq::empty(),
    }
}

/// Checks a request for a new problem; on success, the name, mode and
/// validator program to store.
pub fn check_new_problem(
    problem_name: &str,
    problem_statement: &str,
    runtime_ms: i64,
    memory_mb: i64,
    judge_type: &str,
    validator_code: Option<String>,
) -> (r: Result<(String, String, String), ApiError>)
    ensures
        match new_problem_problem(
            problem_name@,
            problem_statement@,
            runtime_ms,
            memory_mb,
            judge_type@,
            validator_or_empty(validator_code),
        ) {
            Some(m) => is_bad_request(r, m),
            None => r matches Ok((name, mode, code)) && name@ == trim_spec(problem_name@) && mode@
                == trim_spec(judge_type@) && code@ == validator_or_empty(validator_code),
        },
{
    let mode = trim(judge_type);
    if trim(problem_name).is_empty() {
        return Err(bad_request("problem_name cannot be empty"));
    }
    if trim(problem_statement).is_empty() {
        return Err(bad_request("problem statement cannot be empty"));
    }
    if runtime_ms <= 0 || memory_mb <= 0 {
        return Err(bad_request("runtime_ms and memory_kb must be positive"));
    }
    if !str_eq(mode, "standard") && !str_eq(mode, "validator") {
        return Err(bad_request("One of the 2 modes must be selected, standard or validator"));
    }
    let code = match validator_code {
        Some(v) => v,
        None => String::new(),
    };
    if str_eq(mode, "validator") && trim(code.as_str()).is_empty() {
        return Err(bad_request("validator_code is required for validator problems"));
    }
    Ok((owned(trim(problem_name)), owned(mode), code))
}

/// A new problem is accepted only with a non-blank name and statement,
/// strictly positive time and memory limits, and the mode `standard` or
/// `validator` (the latter with a non-blank validator program); a request
/// with names and statement given but a limit that is zero or negative is
/// refused for its limits.
pub proof fn lemma_new_problem_rules(
    problem_name: Seq<char>,
    problem_statement: Seq<char>,
    runtime_ms: i64,
    memory_mb: i64,
    judge_type: Seq<char>,
    validator_code: Seq<char>,
)
    ensures
        (new_problem_problem(
            problem_name,
            problem_statement,
            runtime_ms,
            memory_mb,
            judge_type,
            validator_code,
        ) is None) <==> (trim_spec(problem_name).len() > 0 && trim_spec(problem_statement).len()
            > 0 && runtime_ms > 0 && memory_mb > 0 && (trim_spec(judge_type) == "standard"@ || (
        trim_spec(judge_type) == "validator"@ && trim_spec(validator_code).len() > 0))),
        (runtime_ms <= 0 || memory_mb <= 0) && trim_spec(problem_name).len() > 0 && trim_spec(
            problem_statement,
        ).len() > 0 ==> new_problem_problem(
            problem_name,
            problem_statement,
            runtime_ms,
            memory_mb,
            judge_type,
            validator_code,
        ) == Some("runtime_ms and memory_kb must be positive"@),
{
    reveal_strlit("standard");
    reveal_strlit("validator");
    assert("standard"@ != "validator"@) by {
        assert("standard"@.len() != "validator"@.len());
    }
}

/// Checks a request for a new test case: a positive problem id, and a
/// non-blank input and solution.
pub fn check_new_testcase(problem_id: i64, testcases: &str, solution: &str) -> (r: Result<
    (),
    ApiError,
>)
    ensures
        problem_id <= 0 ==> is_bad_request(r, "Problem id must be positive"@),
        problem_id > 0 && (trim_spec(solution@).len() == 0 || trim_spec(testcases@).len() == 0)
            ==> is_bad_request(r, "Testcases and solutions must not be empty"@),
        problem_id > 0 && trim_spec(solution@).len() > 0 && trim_spec(testcases@).len() > 0
            ==> r is Ok,
{
    if problem_id <= 0 {
        return Err(bad_request("Problem id must be positive"));
    }
    if trim(solution).is_empty() || trim(testcases).is_empty() {
        return Err(bad_request("Testcases and solutions must not be empty"));
    }
    Ok(())
}

/// Checks the source of a new submission: it must not be blank.
pub fn check_new_submission(source_code: &str) -> (r: Result<(), ApiError>)
    ensures
        trim_spec(source_code@).len() == 0 ==> is_bad_request(r, "source_code cannot be empty"@),
        trim_spec(source_code@).len() > 0 ==> r is Ok,
{
    if trim(source_code).is_empty() {
        return Err(bad_request("source_code cannot be empty"));
    }
    Ok(())
}

/// The verdict a judge reports by its code; an unknown code is a bad
/// request that lists the known ones.
pub fn parse_verdict(value: &str) -> (r: Result<Verdict, ApiError>)
    ensures
        match verdict_of_code(value@) {
            Some(v) => r matches Ok(w) && w == v,
            None => is_bad_request(r, parse_verdict_message()),
        },
{
    match Verdict::parse(value) {
        Ok(v) => Ok(v),
        Err(error) => Err(ApiError::BadRequest(error.message())),
    }
}

/// Whether a submission may be sent back to judging: it must exist and
/// must not be pending or in judging already.
pub fn check_rejudge(submission_id: i64, current_verdict: Option<&str>) -> (r: Result<(), ApiError>)
    ensures
        match current_verdict {
            None => is_not_found(
                r,
                "Submission "@ + int_decimal(submission_id as int) + " does not exist!"@,
            ),
            Some(v) => if v@ == "PENDING"@ || v@ == "JUDGING"@ {
                is_bad_request(r, "You cannot rejudge a submission that is currently being judged!"@)
            } else {
                r is Ok
            },
        },
{
    match current_verdict {
        None => Err(
            ApiError::NotFound(with_number("Submission ", submission_id, " does not exist!")),
        ),
        Some(v) => {
            if !str_eq(v, "PENDING") && !str_eq(v, "JUDGING") {
                Ok(())
            } else {
                Err(bad_request("You cannot rejudge a submission that is currently being judged!"))
            }
        },
    }
}

/// The error when sending a submission back to judging fails.
pub fn rejudge_failed(submission_id: i64) -> (r: ApiError)
    ensures
        r matches ApiError::BadRequest(m) && m@ == "Failed to rejudge submission "@ + int_decimal(
            submission_id as int,
        ) + ". Are you sure it exists?"@,
{
    ApiError::BadRequest(
        with_number("Failed to rejudge submission ", submission_id, ". Are you sure it exists?"),
    )
}

/// A verdict update that changed no row names a submission that does not exist.
pub fn check_verdict_updated(submission_id: i64, rows_affected: u64) -> (r: Result<(), ApiError>)
    ensures
        rows_affected == 0 ==> is_not_found(
            r,
            "submission "@ + int_decimal(submission_id as int) + " not found"@,
        ),
        rows_affected != 0 ==> r is Ok,
{
    if rows_affected == 0 {
        return Err(ApiError::NotFound(with_number("submission ", submission_id, " not found")));
    }
    Ok(())
}

} // verus!
