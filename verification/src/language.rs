//! The languages a submission may be written in, and how each is built and run.
use vstd::prelude::*;
use crate::text::str_eq;

verus! {

/// A supported language, bound to a fixed container image.
#[allow(non_camel_case_types)]
#[derive(Debug, Clone, Copy, PartialEq, Eq, Structural)]
pub enum Language {
    GCC14,
    PYTHON3_12,
}

/// A language name that is not one of the supported ones.
#[derive(Debug, Clone, Copy, PartialEq, Eq, Structural)]
pub struct LanguageNotSupportedError;

pub open spec fn language_not_supported_message() -> Seq<char> {
    "Selected langauge is not supported"@
}

impl LanguageNotSupportedError {
    /// The text shown for this error.
    pub fn message(&self) -> (s: String)
        ensures
            s@ == language_not_supported_message(),
    {
        String::from_str("Selected langauge is not supported")
    }
}

/// The container image of each language.
pub open spec fn image_spec(l: Language) -> Seq<char> {
    match l {
        Language::GCC14 => "gcc:14"@,
        Language::PYTHON3_12 => "python:3.12-slim"@,
    }
}

/// The file extension of each language's source files.
pub open spec fn extension_spec(l: Language) -> Seq<char> {
    match l {
        Language::GCC14 => ".cpp"@,
        Language::PYTHON3_12 => ".py"@,
    }
}

/// The compiler invocation for `file_name`, producing `compiled_file`; empty
/// for a language that is not compiled.
pub open spec fn compile_command_spec(
    l: Language,
    file_name: Seq<char>,
    compiled_file: Seq<char>,
) -> Seq<Seq<char>> {
    match l {
        Language::GCC14 => seq![
            "g++"@,
            "-O2"@,
            "-fsanitize=address,undefined"@,
            "-fno-sanitize-recover=all"@,
            file_name,
            "-o"@,
            compiled_file,
        ],
        Language::PYTHON3_12 => seq![],
    }
}

pub open spec fn gcc_run_head() -> Seq<char> {
    "./\""@
}

pub open spec fn python_run_head() -> Seq<char> {
    "python3 \""@
}

pub open spec fn run_input_part() -> Seq<char> {
    "\" < \"/app/inputs/"@
}

pub open spec fn gcc_run_tail() -> Seq<char> {
    "\"; EXIT_CODE=$?; M=$(cat /sys/fs/cgroup/memory.current 2>/dev/null || cat /sys/fs/cgroup/memory/memory.usage_in_bytes 2>/dev/null); echo \"JUDGE_MEM:$M\" >&2; exit $EXIT_CODE"@
}

pub open spec fn python_run_tail() -> Seq<char> {
    "\"; EXIT_CODE=$?; M=$(cat /sys/fs/cgroup/memory.current 2>/dev/null); echo \"JUDGE_MEM:$M\" >&2; exit $EXIT_CODE"@
}

/// The shell line that runs a program on the input file `test_cases` and
/// reports its memory use on stderr as `JUDGE_MEM:<bytes>`: the compiled
/// binary for a compiled language, the source for an interpreted one.
pub open spec fn run_command_spec(
    l: Language,
    source_code: Seq<char>,
    compiled_file: Seq<char>,
    test_cases: Seq<char>,
) -> Seq<char> {
    match l {
        Language::GCC14 => gcc_run_head() + compiled_file + run_input_part() + test_cases
            + gcc_run_tail(),
        Language::PYTHON3_12 => python_run_head() + source_code + run_input_part() + test_cases
            + python_run_tail(),
    }
}

/// The language a submission names, if it is supported.
pub open spec fn language_of_name(s: Seq<char>) -> Option<Language> {
    if s == "c++20"@ {
        Some(Language::GCC14)
    } else if s == "python3"@ {
        Some(Language::PYTHON3_12)
    } else {
        None
    }
}

impl Language {
    /// The container image this language runs in.
    pub fn as_img(&self) -> (s: &'static str)
        ensures
            s@ == image_spec(*self),
    {
        match self {
            Language::GCC14 => "gcc:14",
            Language::PYTHON3_12 => "python:3.12-slim",
        }
    }

    /// The extension given to source files of this language.
    pub fn as_exten(&self) -> (s: &'static str)
        ensures
            s@ == extension_spec(*self),
    {
        match self {
            Language::GCC14 => ".cpp",
            Language::PYTHON3_12 => ".py",
        }
    }

    /// The compiler invocation; empty when the language is not compiled.
    pub fn compile_command(&self, file_name: &str, compiled_file: &str) -> (r: Vec<String>)
        ensures
            r@.len() == compile_command_spec(*self, file_name@, compiled_file@).len(),
            forall|i: int|
                0 <= i < r@.len() ==> (#[trigger] r@[i])@ == compile_command_spec(
                    *self,
                    file_name@,
                    compiled_file@,
                )[i],
    {
        match self {
            Language::GCC14 => {
                let mut v: Vec<String> = Vec::new();
                v.push(String::from_str("g++"));
                v.push(String::from_str("-O2"));
                v.push(String::from_str("-fsanitize=address,undefined"));
                v.push(String::from_str("-fno-sanitize-recover=all"));
                v.push(file_name.to_owned());
                v.push(String::from_str("-o"));
                v.push(compiled_file.to_owned());
                v
            },
            Language::PYTHON3_12 => Vec::new(),
        }
    }

    /// The shell line that runs the program on `/app/inputs/<test_cases>`.
    pub fn run_command(&self, source_code: &str, compiled_file: &str, test_cases: &str) -> (r:
        String)
        ensures
            r@ == run_command_spec(*self, source_code@, compiled_file@, test_cases@),
    {
        match self {
            Language::GCC14 => {
                let mut r = String::from_str("./\"");
                r.append(compiled_file);
                r.append("\" < \"/app/inputs/");
                r.append(test_cases);
                r.append(
                    "\"; EXIT_CODE=$?; M=$(cat /sys/fs/cgroup/memory.current 2>/dev/null || cat /sys/fs/cgroup/memory/memory.usage_in_bytes 2>/dev/null); echo \"JUDGE_MEM:$M\" >&2; exit $EXIT_CODE",
                );
                r
            },
            Language::PYTHON3_12 => {
                let mut r = String::from_str("python3 \"");
                r.append(source_code);
                r.append("\" < \"/app/inputs/");
                r.append(test_cases);
                r.append(
                    "\"; EXIT_CODE=$?; M=$(cat /sys/fs/cgroup/memory.current 2>/dev/null); echo \"JUDGE_MEM:$M\" >&2; exit $EXIT_CODE",
                );
                r
            },
        }
    }

    /// The language named `s`: `"c++20"` or `"python3"`; any other name is refused.
    pub fn parse(s: &str) -> (r: Result<Language, LanguageNotSupportedError>)
        ensures
            match language_of_name(s@) {
                Some(l) => r == Ok::<Language, LanguageNotSupportedError>(l),
                None => r == Err::<Language, LanguageNotSupportedError>(LanguageNotSupportedError),
            },
    {
        if str_eq(s, "c++20") {
            Ok(Language::GCC14)
        } else if str_eq(s, "python3") {
            Ok(Language::PYTHON3_12)
        } else {
            Err(LanguageNotSupportedError)
        }
    }
}

impl core::str::FromStr for Language {
    type Err = LanguageNotSupportedError;

    fn from_str(s: &str) -> (r: Result<Language, LanguageNotSupportedError>)
        ensures
            match language_of_name(s@) {
                Some(l) => r == Ok::<Language, LanguageNotSupportedError>(l),
                None => r == Err::<Language, LanguageNotSupportedError>(LanguageNotSupportedError),
            },
    {
        Language::parse(s)
    }
}

/// Exactly the interpreted language skips compilation: its compile command
/// is empty, and the compiled language's command names the source and the
/// output file.
pub proof fn lemma_compile_command_empty_iff_interpreted(
    l: Language,
    file_name: Seq<char>,
    compiled_file: Seq<char>,
)
    ensures
        (compile_command_spec(l, file_name, compiled_file).len() == 0) <==> l
            == Language::PYTHON3_12,
        l == Language::GCC14 ==> compile_command_spec(l, file_name, compiled_file)[4] == file_name
            && compile_command_spec(l, file_name, compiled_file)[6] == compiled_file,
{
}

/// The two language names are told apart: each names its own language.
pub proof fn lemma_language_names(l: Language)
    ensures
        l == Language::GCC14 ==> language_of_name("c++20"@) == Some(l),
        l == Language::PYTHON3_12 ==> language_of_name("python3"@) == Some(l),
{
    reveal_strlit("c++20");
    reveal_strlit("python3");
    assert("c++20"@.len() != "python3"@.len());
}

} // verus!
