use vstd::prelude::*;
use crate::text::str_eq;

verus! {

/// The outcome of judging a submission.
#[derive(Debug, Clone, Copy, PartialEq, Eq, Structural)]
pub enum Verdict {
    Pending,
    Accepted,
    WrongAnswer,
    TimeLimitExceeded,
    MemoryLimitExceeded,
    RunTimeError,
    CompileError,
    JudgeFailure,
    Judging,
}

/// The short code under which a verdict is stored.
pub open spec fn verdict_code(v: Verdict) -> Seq<char> {
    match v {
        Verdict::Pending => "PENDING"@,
        Verdict::Judging => "JUDGING"@,
        Verdict::Accepted => "AC"@,
        Verdict::WrongAnswer => "WA"@,
        Verdict::TimeLimitExceeded => "TLE"@,
        Verdict::MemoryLimitExceeded => "MLE"@,
        Verdict::RunTimeError => "RE"@,
        Verdict::CompileError => "CE"@,
        Verdict::JudgeFailure => "JF"@,
    }
}

impl Verdict {
    /// The stored code of this verdict.
    pub fn as_str(self) -> (s: &'static str)
        ensures
            s@ == verdict_code(self),
    {
        match self {
            Verdict::Pending => "PENDING",
            Verdict::Judging => "JUDGING",
            Verdict::Accepted => "AC",
            Verdict::WrongAnswer => "WA",
            Verdict::TimeLimitExceeded => "TLE",
            Verdict::MemoryLimitExceeded => "MLE",
            Verdict::RunTimeError => "RE",
            Verdict::CompileError => "CE",
            Verdict::JudgeFailure => "JF",
        }
    }
}

/// The verdict whose stored code is `s`, if any.
pub open spec fn verdict_of_code(s: Seq<char>) -> Option<Verdict> {
    if s == "PENDING"@ {
        Some(Verdict::Pending)
    } else if s == "JUDGING"@ {
        Some(Verdict::Judging)
    } else if s == "AC"@ {
        Some(Verdict::Accepted)
    } else if s == "WA"@ {
        Some(Verdict::WrongAnswer)
    } else if s == "TLE"@ {
        Some(Verdict::TimeLimitExceeded)
    } else if s == "MLE"@ {
        Some(Verdict::MemoryLimitExceeded)
    } else if s == "RE"@ {
        Some(Verdict::RunTimeError)
    } else if s == "CE"@ {
        Some(Verdict::CompileError)
    } else if s == "JF"@ {
        Some(Verdict::JudgeFailure)
    } else {
        None
    }
}

/// The text that explains a rejected verdict code.
pub open spec fn parse_verdict_message() -> Seq<char> {
    "expected one of PENDING, JUDGING, AC, WA, TLE, MLE, RE, CE Or JF"@
}

/// A verdict code that is none of the nine known ones.
#[derive(Debug, Clone, Copy, PartialEq, Eq, Structural)]
pub struct ParseVerdictError;

impl ParseVerdictError {
    /// The text shown for this error.
    pub fn message(&self) -> (s: String)
        ensures
            s@ == parse_verdict_message(),
    {
        String::from_str("expected one of PENDING, JUDGING, AC, WA, TLE, MLE, RE, CE Or JF")
    }
}

impl Verdict {
    /// The verdict stored under `value`; every string but the nine codes is refused.
    pub fn parse(value: &str) -> (r: Result<Verdict, ParseVerdictError>)
        ensures
            match verdict_of_code(value@) {
                Some(v) => r == Ok::<Verdict, ParseVerdictError>(v),
                None => r == Err::<Verdict, ParseVerdictError>(ParseVerdictError),
            },
    {
        if str_eq(value, "PENDING") {
            Ok(Verdict::Pending)
        } else if str_eq(value, "JUDGING") {
            Ok(Verdict::Judging)
        } else if str_eq(value, "AC") {
            Ok(Verdict::Accepted)
        } else if str_eq(value, "WA") {
            Ok(Verdict::WrongAnswer)
        } else if str_eq(value, "TLE") {
            Ok(Verdict::TimeLimitExceeded)
        } else if str_eq(value, "MLE") {
            Ok(Verdict::MemoryLimitExceeded)
        } else if str_eq(value, "RE") {
            Ok(Verdict::RunTimeError)
        } else if str_eq(value, "CE") {
            Ok(Verdict::CompileError)
        } else if str_eq(value, "JF") {
            Ok(Verdict::JudgeFailure)
        } else {
            Err(ParseVerdictError)
        }
    }
}

impl core::str::FromStr for Verdict {
    type Err = ParseVerdictError;

    fn from_str(value: &str) -> (r: Result<Verdict, ParseVerdictError>)
        ensures
            match verdict_of_code(value@) {
                Some(v) => r == Ok::<Verdict, ParseVerdictError>(v),
                None => r == Err::<Verdict, ParseVerdictError>(ParseVerdictError),
            },
    {
        Verdict::parse(value)
    }
}

/// Parsing a verdict's stored code yields that verdict, so the stored code
/// identifies it.
pub proof fn lemma_verdict_code_round_trip(v: Verdict)
    ensures
        verdict_of_code(verdict_code(v)) == Some(v),
{
    reveal_strlit("PENDING");
    reveal_strlit("JUDGING");
    reveal_strlit("AC");
    reveal_strlit("WA");
    reveal_strlit("TLE");
    reveal_strlit("MLE");
    reveal_strlit("RE");
    reveal_strlit("CE");
    reveal_strlit("JF");
    let c = verdict_code(v);
    assert(c.len() > 0);
    assert("PENDING"@.len() == 7 && "PENDING"@[0] == 'P');
    assert("JUDGING"@.len() == 7 && "JUDGING"@[0] == 'J');
    assert("AC"@.len() == 2 && "AC"@[0] == 'A');
    assert("WA"@.len() == 2 && "WA"@[0] == 'W');
    assert("TLE"@.len() == 3 && "TLE"@[0] == 'T');
    assert("MLE"@.len() == 3 && "MLE"@[0] == 'M');
    assert("RE"@.len() == 2 && "RE"@[0] == 'R');
    assert("CE"@.len() == 2 && "CE"@[0] == 'C');
    assert("JF"@.len() == 2 && "JF"@[0] == 'J');
    assert(c != "PENDING"@ || v == Verdict::Pending);
    assert(c != "JUDGING"@ || v == Verdict::Judging);
    assert(c != "AC"@ || v == Verdict::Accepted);
    assert(c != "WA"@ || v == Verdict::WrongAnswer);
    assert(c != "TLE"@ || v == Verdict::TimeLimitExceeded);
    assert(c != "MLE"@ || v == Verdict::MemoryLimitExceeded);
    assert(c != "RE"@ || v == Verdict::RunTimeError);
    assert(c != "CE"@ || v == Verdict::CompileError);
}

/// Distinct verdicts are stored under distinct codes.
pub proof fn lemma_verdict_code_injective(a: Verdict, b: Verdict)
    requires
        verdict_code(a) == verdict_code(b),
    ensures
        a == b,
{
    lemma_verdict_code_round_trip(a);
    lemma_verdict_code_round_trip(b);
}

/// Every code that is accepted is the code of the verdict it yields.
pub proof fn lemma_verdict_code_only_known(s: Seq<char>)
    ensures
        verdict_of_code(s) matches Some(v) ==> verdict_code(v) == s,
{
}

} // verus!
