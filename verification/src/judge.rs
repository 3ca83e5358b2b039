//! The judging of one submission: file and container names, the docker
//! invocations, reading a finished run, and the verdict over all tests.
use vstd::prelude::*;
use crate::language::{Language, LanguageNotSupportedError, compile_command_spec, image_spec, run_command_spec, extension_spec, language_of_name};
use crate::model::{Problem, Submission, TestCase};
use crate::text::{i64_to_decimal, int_decimal, join2, join3, join4, usize_to_decimal, lines, lines_spec, parse_u64, parse_u64_spec, str_eq, strip_prefix, trim, trim_spec, utf8_lossy, utf8_lossy_spec, words, words_spec};
use crate::verdict::Verdict;

verus! {

/// An operating-system I/O failure, carried through unchanged.
#[verifier::external_type_specification]
#[verifier::external_body]
pub struct ExIoError(std::io::Error);

/// A timestamp that could not be parsed.
#[verifier::external_type_specification]
#[verifier::external_body]
pub struct ExChronoParseError(chrono::ParseError);

/// The host directories that judging containers mount.
#[derive(Debug)]
pub struct JudgeVolume {
    pub input_volume_mount: String,
    pub user_volume_mount: String,
    pub input_dir: String,
    pub output_dir: String,
}

pub open spec fn input_mount_spec(input_dir: Seq<char>) -> Seq<char> {
    input_dir + ":/app/inputs:ro"@
}

pub open spec fn user_mount_spec(output_dir: Seq<char>) -> Seq<char> {
    output_dir + ":/app/workspace:rw"@
}

impl JudgeVolume {
    /// The volume for test inputs in `input_dir` (mounted read-only at
    /// `/app/inputs`) and submissions in `output_dir` (mounted read-write
    /// at `/app/workspace`).
    pub fn new(input_dir: String, output_dir: String) -> (r: Self)
        ensures
            r.input_dir@ == input_dir@,
            r.output_dir@ == output_dir@,
            r.input_volume_mount@ == input_mount_spec(input_dir@),
            r.user_volume_mount@ == user_mount_spec(output_dir@),
    {
        let input_volume_mount = join2(input_dir.as_str(), ":/app/inputs:ro");
        let user_volume_mount = join2(output_dir.as_str(), ":/app/workspace:rw");
        JudgeVolume { input_volume_mount, user_volume_mount, input_dir, output_dir }
    }
}

/// A container that could not be started or inspected.
#[derive(Debug, Clone, Copy, PartialEq, Eq, Structural)]
pub struct DockerError {}

impl DockerError {
    /// The text shown for this error.
    pub fn message(&self) -> (s: String)
        ensures
            s@ == "Docker did not compile/run"@,
    {
        String::from_str("Docker did not compile/run")
    }
}

impl From<std::io::Error> for DockerError {
    fn from(error: std::io::Error) -> (r: Self) {
        DockerError {}
    }
}

impl vstd::std_specs::convert::FromSpecImpl<std::io::Error> for DockerError {
    open spec fn obeys_from_spec() -> bool {
        true
    }

    open spec fn from_spec(v: std::io::Error) -> DockerError {
        DockerError {}
    }
}

impl From<chrono::ParseError> for DockerError {
    fn from(error: chrono::ParseError) -> (r: Self) {
        DockerError {}
    }
}

impl vstd::std_specs::convert::FromSpecImpl<chrono::ParseError> for DockerError {
    open spec fn obeys_from_spec() -> bool {
        true
    }

    open spec fn from_spec(v: chrono::ParseError) -> DockerError {
        DockerError {}
    }
}

/// Resource use of a run: wall time in milliseconds and peak memory in KiB.
#[derive(Debug, Clone, Copy, PartialEq, Eq, Structural)]
pub struct Metric {
    pub runtime_ms: Option<i64>,
    pub peak_memory_kb: Option<i64>,
}

/// A verdict with the resources it was reached with.
#[derive(Debug, Clone, Copy, PartialEq, Eq, Structural)]
pub struct SubmissionResults {
    pub verdict: Verdict,
    pub metrics: Metric,
}

/// The larger of two optional values, an absent one being the smallest.
pub open spec fn opt_max(a: Option<i64>, b: Option<i64>) -> Option<i64> {
    match (a, b) {
        (None, _) => b,
        (_, None) => a,
        (Some(x), Some(y)) => Some(if x >= y { x } else { y }),
    }
}

/// The resources after also counting `new`: each measured value keeps the
/// maximum, and a negative running time is discarded.
pub open spec fn merge_metric(old: Metric, new: Metric) -> Metric {
    let runtime = if new.runtime_ms is Some {
        opt_max(old.runtime_ms, new.runtime_ms)
    } else {
        old.runtime_ms
    };
    let runtime = if runtime matches Some(v) && v < 0 {
        None
    } else {
        runtime
    };
    let memory = if new.peak_memory_kb is Some {
        opt_max(old.peak_memory_kb, new.peak_memory_kb)
    } else {
        old.peak_memory_kb
    };
    Metric { runtime_ms: runtime, peak_memory_kb: memory }
}

fn max_opt(a: Option<i64>, b: Option<i64>) -> (r: Option<i64>)
    ensures
        r == opt_max(a, b),
{
    match (a, b) {
        (None, _) => b,
        (_, None) => a,
        (Some(x), Some(y)) => Some(if x >= y { x } else { y }),
    }
}

/// Counts the resources of one more test into `old_metric`.
pub fn update_metric(old_metric: &mut Metric, new_metric: &Metric)
    ensures
        *final(old_metric) == merge_metric(*old(old_metric), *new_metric),
{
    if new_metric.runtime_ms.is_some() {
        old_metric.runtime_ms = max_opt(old_metric.runtime_ms, new_metric.runtime_ms);
    }
    if let Some(val) = old_metric.runtime_ms {
        if val < 0 {
            old_metric.runtime_ms = None;
        }
    }
    if new_metric.peak_memory_kb.is_some() {
        old_metric.peak_memory_kb = max_opt(old_metric.peak_memory_kb, new_metric.peak_memory_kb);
    }
}

/// The language a submission is written in; a missing or unknown name is refused.
pub fn fetch_language(submission: &Submission) -> (r: Result<Language, LanguageNotSupportedError>)
    ensures
        match submission.language {
            None => r == Err::<Language, LanguageNotSupportedError>(LanguageNotSupportedError),
            Some(name) => match language_of_name(name@) {
                Some(l) => r == Ok::<Language, LanguageNotSupportedError>(l),
                None => r == Err::<Language, LanguageNotSupportedError>(LanguageNotSupportedError),
            },
        },
{
    match &submission.language {
        Some(lang) => Language::parse(lang.as_str()),
        None => Err(LanguageNotSupportedError),
    }
}

/// `<problem>_code_submission_<id><extension>`: where a submission's source is written.
pub open spec fn source_file_spec(problem_name: Seq<char>, submission_id: i64, l: Language) -> Seq<
    char,
> {
    problem_name + "_code_submission_"@ + int_decimal(submission_id as int) + extension_spec(l)
}

/// `<problem>_<id>.out`: the compiled program of a submission.
pub open spec fn binary_file_spec(problem_name: Seq<char>, submission_id: i64) -> Seq<char> {
    problem_name + "_"@ + int_decimal(submission_id as int) + ".out"@
}

/// `<problem>_input.txt`: where the current test input is written.
pub open spec fn input_file_spec(problem_name: Seq<char>) -> Seq<char> {
    problem_name + "_input.txt"@
}

/// `sub_<submission>_test_<index>_problem_<problem>`: the container of one test run.
pub open spec fn container_name_spec(submission_id: i64, test_index: usize, problem_id: i64) -> Seq<
    char,
> {
    "sub_"@ + int_decimal(submission_id as int) + "_test_"@ + int_decimal(test_index as int)
        + "_problem_"@ + int_decimal(problem_id as int)
}

/// The file the source of a submission is written to.
pub fn source_file_name(problem_name: &str, submission_id: i64, language: Language) -> (r: String)
    ensures
        r@ == source_file_spec(problem_name@, submission_id, language),
{
    let id = i64_to_decimal(submission_id);
    let mut r = join3(problem_name, "_code_submission_", id.as_str());
    r.append(language.as_exten());
    r
}

/// The file a submission is compiled to.
pub fn binary_file_name(problem_name: &str, submission_id: i64) -> (r: String)
    ensures
        r@ == binary_file_spec(problem_name@, submission_id),
{
    let id = i64_to_decimal(submission_id);
    join4(problem_name, "_", id.as_str(), ".out")
}

/// The file the current test input is written to.
pub fn input_file_name(problem_name: &str) -> (r: String)
    ensures
        r@ == input_file_spec(problem_name@),
{
    join2(problem_name, "_input.txt")
}

/// The name of the container that runs test `test_index` of a submission.
pub fn container_name(submission_id: i64, test_index: usize, problem_id: i64) -> (r: String)
    ensures
        r@ == container_name_spec(submission_id, test_index, problem_id),
{
    let s = i64_to_decimal(submission_id);
    let t = usize_to_decimal(test_index);
    let p = i64_to_decimal(problem_id);
    let mut r = join4("sub_", s.as_str(), "_test_", t.as_str());
    r.append("_problem_");
    r.append(p.as_str());
    r
}

/// The arguments of `docker` that compile a submission, or `None` when the
/// language is not compiled and compilation counts as a success.
pub open spec fn compile_args_spec(
    language: Language,
    file_name: Seq<char>,
    compiled_file: Seq<char>,
    user_volume_mount: Seq<char>,
) -> Option<Seq<Seq<char>>> {
    let command = compile_command_spec(language, file_name, compiled_file);
    if command.len() == 0 {
        None
    } else {
        Some(
            seq![
                "run"@,
                "--rm"@,
                "-v"@,
                user_volume_mount,
                "--user"@,
                "1000:1000"@,
                "-w"@,
                "/app/workspace"@,
                image_spec(language),
            ] + command,
        )
    }
}

/// The strings of `v`, as character sequences.
pub open spec fn views(v: Seq<String>) -> Seq<Seq<char>> {
    v.map_values(|s: String| s@)
}

fn push_str(v: &mut Vec<String>, s: &str)
    ensures
        views(final(v)@) == views(old(v)@).push(s@),
{
    v.push(s.to_owned());
    assert(views(v@) =~= views(old(v)@).push(s@));
}

/// The `docker` arguments that compile `file_name` into `compiled_file`
/// inside the workspace volume; `None` when there is nothing to compile.
pub fn compile_args(
    compiled_file: &str,
    file_name: &str,
    language: Language,
    judge_volume: &JudgeVolume,
) -> (r: Option<Vec<String>>)
    ensures
        match (r, compile_args_spec(language, file_name@, compiled_file@, judge_volume.user_volume_mount@)) {
            (None, None) => true,
            (Some(v), Some(s)) => views(v@) == s,
            _ => false,
        },
{
    let command = language.compile_command(file_name, compiled_file);
    if command.len() == 0 {
        return None;
    }
    let mut args: Vec<String> = Vec::new();
    push_str(&mut args, "run");
    push_str(&mut args, "--rm");
    push_str(&mut args, "-v");
    push_str(&mut args, judge_volume.user_volume_mount.as_str());
    push_str(&mut args, "--user");
    push_str(&mut args, "1000:1000");
    push_str(&mut args, "-w");
    push_str(&mut args, "/app/workspace");
    push_str(&mut args, language.as_img());
    let ghost head = views(args@);
    let ghost spec_command = compile_command_spec(language, file_name@, compiled_file@);
    let n = command.len();
    let mut i: usize = 0;
    while i < n
        invariant
            n == command@.len(),
            i <= n,
            spec_command.len() == n,
            forall|k: int| 0 <= k < n ==> (#[trigger] command@[k])@ == spec_command[k],
            views(args@) == head + spec_command.take(i as int),
        decreases n - i,
    {
        push_str(&mut args, command[i].as_str());
        assert(spec_command.take(i + 1) =~= spec_command.take(i as int).push(spec_command[i as int]));
        i = i + 1;
    }
    assert(spec_command.take(n as int) =~= spec_command);
    Some(args)
}

/// The `docker` arguments that run one test in a fresh container named
/// `docker_name`: memory limited to the problem's megabytes, one CPU, no
/// network, both volumes mounted, as an unprivileged user.
pub open spec fn run_args_spec(
    memory_mb: i64,
    compiled_file: Seq<char>,
    source_code: Seq<char>,
    test_cases: Seq<char>,
    language: Language,
    docker_name: Seq<char>,
    input_volume_mount: Seq<char>,
    user_volume_mount: Seq<char>,
) -> Seq<Seq<char>> {
    seq![
        "run"@,
        "--name"@,
        docker_name,
        "--memory"@,
        int_decimal(memory_mb as int) + "m"@,
        "--cpus"@,
        "1.0"@,
        "--network"@,
        "none"@,
        "-v"@,
        input_volume_mount,
        "-v"@,
        user_volume_mount,
        "--user"@,
        "1000:1000"@,
        "-w"@,
        "/app/workspace"@,
        image_spec(language),
        "sh"@,
        "-c"@,
        run_command_spec(language, source_code, compiled_file, test_cases),
    ]
}

/// The `docker` arguments that run the program of a submission on one test input.
pub fn run_args(
    question: &Problem,
    compiled_file: &str,
    source_code: &str,
    test_cases: &str,
    language: Language,
    docker_name: &str,
    judge_volume: &JudgeVolume,
) -> (r: Vec<String>)
    ensures
        views(r@) == run_args_spec(
            question.memory_mb,
            compiled_file@,
            source_code@,
            test_cases@,
            language,
            docker_name@,
            judge_volume.input_volume_mount@,
            judge_volume.user_volume_mount@,
        ),
{
    let mb = i64_to_decimal(question.memory_mb);
    let memory_limit = join2(mb.as_str(), "m");
    let command = language.run_command(source_code, compiled_file, test_cases);
    let mut args: Vec<String> = Vec::new();
    push_str(&mut args, "run");
    push_str(&mut args, "--name");
    push_str(&mut args, docker_name);
    push_str(&mut args, "--memory");
    push_str(&mut args, memory_limit.as_str());
    push_str(&mut args, "--cpus");
    push_str(&mut args, "1.0");
    push_str(&mut args, "--network");
    push_str(&mut args, "none");
    push_str(&mut args, "-v");
    push_str(&mut args, judge_volume.input_volume_mount.as_str());
    push_str(&mut args, "-v");
    push_str(&mut args, judge_volume.user_volume_mount.as_str());
    push_str(&mut args, "--user");
    push_str(&mut args, "1000:1000");
    push_str(&mut args, "-w");
    push_str(&mut args, "/app/workspace");
    push_str(&mut args, language.as_img());
    push_str(&mut args, "sh");
    push_str(&mut args, "-c");
    push_str(&mut args, command.as_str());
    assert(views(args@) =~= run_args_spec(
        question.memory_mb,
        compiled_file@,
        source_code@,
        test_cases@,
        language,
        docker_name@,
        judge_volume.input_volume_mount@,
        judge_volume.user_volume_mount@,
    ));
    args
}

/// A test run's container is limited to the problem's memory in megabytes,
/// whatever the language: the `--memory` argument is the decimal form of
/// `memory_mb` followed by `m`, and it is the same for every language.
pub proof fn lemma_run_memory_limit(
    memory_mb: i64,
    compiled_file: Seq<char>,
    source_code: Seq<char>,
    test_cases: Seq<char>,
    language: Language,
    other: Language,
    docker_name: Seq<char>,
    input_volume_mount: Seq<char>,
    user_volume_mount: Seq<char>,
)
    ensures
        ({
            let a = run_args_spec(
                memory_mb,
                compiled_file,
                source_code,
                test_cases,
                language,
                docker_name,
                input_volume_mount,
                user_volume_mount,
            );
            let b = run_args_spec(
                memory_mb,
                compiled_file,
                source_code,
                test_cases,
                other,
                docker_name,
                input_volume_mount,
                user_volume_mount,
            );
            &&& a.len() > 4
            &&& a[3] == "--memory"@
            &&& a[4] == int_decimal(memory_mb as int) + seq!['m']
            &&& a[4].last() == 'm'
            &&& a[4].drop_last() == int_decimal(memory_mb as int)
            &&& b[4] == a[4]
        }),
{
    reveal_strlit("m");
    assert((int_decimal(memory_mb as int) + "m"@).drop_last() =~= int_decimal(memory_mb as int));
}

/// The `docker` arguments that report when a container started and finished.
pub fn inspect_args(docker_name: &str) -> (r: Vec<String>)
    ensures
        views(r@) == seq![
            "inspect"@,
            docker_name@,
            "--format"@,
            "{{.State.StartedAt}} {{.State.FinishedAt}}"@,
        ],
{
    let mut args: Vec<String> = Vec::new();
    push_str(&mut args, "inspect");
    push_str(&mut args, docker_name);
    push_str(&mut args, "--format");
    push_str(&mut args, "{{.State.StartedAt}} {{.State.FinishedAt}}");
    assert(views(args@) =~= seq![
        "inspect"@,
        docker_name@,
        "--format"@,
        "{{.State.StartedAt}} {{.State.FinishedAt}}"@,
    ]);
    args
}

/// The `docker` arguments that remove a container with its volumes.
pub fn remove_args(docker_name: &str) -> (r: Vec<String>)
    ensures
        views(r@) == seq!["rm"@, "-f"@, "-v"@, docker_name@],
{
    let mut args: Vec<String> = Vec::new();
    push_str(&mut args, "rm");
    push_str(&mut args, "-f");
    push_str(&mut args, "-v");
    push_str(&mut args, docker_name);
    assert(views(args@) =~= seq!["rm"@, "-f"@, "-v"@, docker_name@]);
    args
}

/// The instant an RFC 3339 text denotes, as (seconds since the Unix epoch,
/// nanoseconds within the second), the nanoseconds reaching past one
/// second only within a leap second; `None` when the text is not RFC 3339.
pub uninterp spec fn rfc3339_instant(text: Seq<char>) -> Option<(i64, u32)>;

/// `chrono::DateTime::parse_from_rfc3339`, converted to UTC and read as
/// seconds and nanoseconds. Besides naming the result, it states the range
/// of chrono's dates (years -262144 to 262143, so well within 10^13
/// seconds of the epoch) and that the nanoseconds stay below two seconds.
#[verifier::external_body]
fn parse_rfc3339(text: &str) -> (r: Option<(i64, u32)>)
    ensures
        r == rfc3339_instant(text@),
        r matches Some((secs, nanos)) ==> -10_000_000_000_000 < secs < 10_000_000_000_000
            && nanos < 2_000_000_000,
{
    match chrono::DateTime::parse_from_rfc3339(text) {
        Ok(t) => {
            let utc = t.with_timezone(&chrono::Utc);
            Some((utc.timestamp(), utc.timestamp_subsec_nanos()))
        },
        Err(_) => None,
    }
}

/// Division that rounds toward zero.
pub open spec fn trunc_div(a: int, d: int) -> int {
    if a >= 0 {
        a / d
    } else {
        -((-a) / d)
    }
}

/// The whole milliseconds from `earlier` to `later`, rounded toward zero, as
/// chrono's `signed_duration_since` and `num_milliseconds` count them: a
/// leap second that one instant lies in counts when the other instant is
/// on the far side of it within the day.
pub open spec fn span_millis(later: (i64, u32), earlier: (i64, u32)) -> int {
    let t1 = later.0 % 86400;
    let t2 = earlier.0 % 86400;
    let adjust: int = if t1 > t2 && earlier.1 >= 1_000_000_000 {
        1
    } else if t1 < t2 && later.1 >= 1_000_000_000 {
        -1
    } else {
        0
    };
    let nanos = (later.0 - earlier.0 + adjust) * 1_000_000_000 + (later.1 - earlier.1);
    trunc_div(nanos, 1_000_000)
}

fn day_seconds(s: i64) -> (r: i64)
    ensures
        r == s % 86400,
{
    let q = s % 86400;
    if q < 0 {
        q + 86400
    } else {
        q
    }
}

/// The whole milliseconds from `earlier` to `later`, each given as
/// (seconds since the epoch, nanoseconds), rounded toward zero.
pub fn millis_between(later: (i64, u32), earlier: (i64, u32)) -> (r: i64)
    requires
        -10_000_000_000_000 < later.0 < 10_000_000_000_000,
        -10_000_000_000_000 < earlier.0 < 10_000_000_000_000,
        later.1 < 2_000_000_000,
        earlier.1 < 2_000_000_000,
    ensures
        r == span_millis(later, earlier),
{
    let t1 = day_seconds(later.0);
    let t2 = day_seconds(earlier.0);
    let adjust: i128 = if t1 > t2 && earlier.1 >= 1_000_000_000 {
        1
    } else if t1 < t2 && later.1 >= 1_000_000_000 {
        -1
    } else {
        0
    };
    let secs: i128 = later.0 as i128 - earlier.0 as i128 + adjust;
    assert(-20_000_000_000_001 * 1_000_000_000 <= secs * 1_000_000_000 <= 20_000_000_000_001
        * 1_000_000_000) by (nonlinear_arith)
        requires
            -20_000_000_000_001 <= secs <= 20_000_000_000_001,
    ;
    let nanos: i128 = secs * 1_000_000_000 + (later.1 as i128 - earlier.1 as i128);
    let ms: i128 = if nanos >= 0 {
        nanos / 1_000_000
    } else {
        -((-nanos) / 1_000_000)
    };
    assert(-30_000_000_000_000_000 < ms < 30_000_000_000_000_000) by (nonlinear_arith)
        requires
            -20_000_000_000_001 * 1_000_000_000 - 2_000_000_000 <= nanos <= 20_000_000_000_001
                * 1_000_000_000 + 2_000_000_000,
            nanos >= 0 ==> ms == nanos / 1_000_000,
            nanos < 0 ==> ms == -((-nanos) / 1_000_000),
    ;
    ms as i64
}

/// The marker line on which a run reports its memory use, in bytes.
pub open spec fn memory_marker() -> Seq<char> {
    "JUDGE_MEM:"@
}

/// A `u64` read as `i64` the way `as` does: values past `i64::MAX` wrap around.
pub open spec fn wrap_to_i64(b: u64) -> int {
    if b <= i64::MAX {
        b as int
    } else {
        b - 0x1_0000_0000_0000_0000
    }
}

/// The KiB that one stderr line reports: a `JUDGE_MEM:` line whose rest,
/// trimmed, is a byte count.
pub open spec fn line_memory_kb(line: Seq<char>) -> Option<int> {
    if memory_marker().is_prefix_of(line) {
        match parse_u64_spec(trim_spec(line.skip(memory_marker().len() as int))) {
            Some(b) => Some(trunc_div(wrap_to_i64(b), 1024)),
            None => None,
        }
    } else {
        None
    }
}

/// The KiB reported by the last line that reports any, or 0.
pub open spec fn memory_kb_of_lines(ls: Seq<Seq<char>>) -> int
    decreases ls.len(),
{
    if ls.len() == 0 {
        0
    } else {
        match line_memory_kb(ls.last()) {
            Some(kb) => kb,
            None => memory_kb_of_lines(ls.drop_last()),
        }
    }
}

/// The running time that `docker inspect` reports: when its output is two
/// words, the milliseconds from the first instant to the second, and
/// `None` if either is not RFC 3339; otherwise 0.
pub open spec fn inspect_runtime(text: Seq<char>) -> Option<int> {
    let w = words_spec(text);
    if w.len() == 2 {
        match (rfc3339_instant(w[0]), rfc3339_instant(w[1])) {
            (Some(started), Some(finished)) => Some(span_millis(finished, started)),
            _ => None,
        }
    } else {
        Some(0)
    }
}

/// The resources that a finished run reports, `None` when its start or
/// finish time cannot be read.
pub open spec fn metrics_spec(inspect_stdout: Seq<u8>, stderr: Seq<u8>) -> Option<Metric> {
    match inspect_runtime(utf8_lossy_spec(inspect_stdout)) {
        None => None,
        Some(ms) => Some(
            Metric {
                runtime_ms: Some(ms as i64),
                peak_memory_kb: Some(memory_kb_of_lines(lines_spec(utf8_lossy_spec(stderr))) as i64),
            },
        ),
    }
}

fn bytes_to_kb(b: u64) -> (r: i64)
    ensures
        r == trunc_div(wrap_to_i64(b), 1024),
{
    let v = b as i64;
    assert(b > 0x7fff_ffff_ffff_ffff ==> v == b - 0x1_0000_0000_0000_0000) by (bit_vector)
        requires
            v == b as i64,
    ;
    assert(b <= 0x7fff_ffff_ffff_ffff ==> v == b) by (bit_vector)
        requires
            v == b as i64,
    ;
    v / 1024
}

/// The memory that a run's stderr reports: that of the last `JUDGE_MEM:`
/// line whose rest, trimmed, is a byte count, in KiB; 0 when no line does.
pub fn memory_kb_from_stderr(stderr_text: &str) -> (r: i64)
    ensures
        r == memory_kb_of_lines(lines_spec(stderr_text@)),
{
    let all_lines = lines(stderr_text);
    let ghost ls = lines_spec(stderr_text@);
    let mut peak_memory_kb: i64 = 0;
    let n = all_lines.len();
    let mut i: usize = 0;
    proof {
        reveal_strlit("JUDGE_MEM:");
    }
    while i < n
        invariant
            n == all_lines@.len(),
            n == ls.len(),
            i <= n,
            forall|k: int| 0 <= k < n ==> (#[trigger] all_lines@[k])@ == ls[k],
            peak_memory_kb == memory_kb_of_lines(ls.take(i as int)),
            memory_marker().len() == 10,
        decreases n - i,
    {
        assert(ls.take(i + 1).drop_last() =~= ls.take(i as int));
        assert(ls.take(i + 1).last() == ls[i as int]);
        let line = all_lines[i].as_str();
        match strip_prefix(line, "JUDGE_MEM:") {
            Some(rest) => {
                assert(rest@ =~= line@.skip(10));
                let bytes_str = trim(rest);
                match parse_u64(bytes_str) {
                    Some(bytes) => {
                        peak_memory_kb = bytes_to_kb(bytes);
                    },
                    None => {},
                }
            },
            None => {},
        }
        i = i + 1;
    }
    assert(ls.take(n as int) =~= ls);
    peak_memory_kb
}

/// The resources of a finished run, from the `docker inspect` output of
/// its container and from its stderr: the time between the reported start
/// and finish (0 when the output is not two words), and the memory of the
/// last `JUDGE_MEM:` line that holds a byte count, in KiB (0 when none does).
/// Start or finish times that are not RFC 3339 fail.
pub fn docker_metrics(inspect_stdout: &[u8], stderr: &[u8]) -> (r: Result<Metric, DockerError>)
    ensures
        match metrics_spec(inspect_stdout@, stderr@) {
            None => r is Err,
            Some(m) => r == Ok::<Metric, DockerError>(m),
        },
{
    let inspect_str = utf8_lossy(inspect_stdout);
    let timestamps = words(inspect_str.as_str());
    let mut duration_ms: i64 = 0;
    if timestamps.len() == 2 {
        let started_at = match parse_rfc3339(timestamps[0].as_str()) {
            Some(t) => t,
            None => return Err(DockerError {}),
        };
        let finished_at = match parse_rfc3339(timestamps[1].as_str()) {
            Some(t) => t,
            None => return Err(DockerError {}),
        };
        duration_ms = millis_between(finished_at, started_at);
    }
    let stderr_str = utf8_lossy(stderr);
    let peak_memory_kb = memory_kb_from_stderr(stderr_str.as_str());
    Ok(Metric { runtime_ms: Some(duration_ms), peak_memory_kb: Some(peak_memory_kb) })
}

/// How a test run of a submission ended.
pub enum RunOutcome {
    /// The program ran to the end: its exit code (none when a signal ended
    /// it), its stdout and stderr, and the `docker inspect` output of its container.
    Finished { exit_code: Option<i32>, stdout: Vec<u8>, stderr: Vec<u8>, inspect_stdout: Vec<u8> },
    /// The container could not be run.
    DockerFailed,
    /// The run exceeded the problem's time limit.
    TimedOut,
}

/// The verdict of a run that ended with `exit_code`: exit 0 is accepted when
/// the output equals the expected solution up to surrounding whitespace and
/// a wrong answer otherwise; exit 137 (killed for memory) is a memory limit
/// overrun; any other end is a runtime error.
pub open spec fn exit_verdict(exit_code: Option<i32>, stdout: Seq<u8>, solution: Seq<char>) -> Verdict {
    text_exit_verdict(exit_code, utf8_lossy_spec(stdout), solution)
}

/// `exit_verdict` for an output already decoded to text.
pub open spec fn text_exit_verdict(exit_code: Option<i32>, output: Seq<char>, solution: Seq<char>) -> Verdict {
    match exit_code {
        Some(0) => if trim_spec(output) == trim_spec(solution) {
            Verdict::Accepted
        } else {
            Verdict::WrongAnswer
        },
        Some(137) => Verdict::MemoryLimitExceeded,
        _ => Verdict::RunTimeError,
    }
}

/// The verdict of a run that ended with `exit_code` and wrote `output`.
pub fn exit_verdict_of(exit_code: Option<i32>, output: &str, solution: &str) -> (r: Verdict)
    ensures
        r == text_exit_verdict(exit_code, output@, solution@),
{
    match exit_code {
        Some(0) => {
            if str_eq(trim(output), trim(solution)) {
                Verdict::Accepted
            } else {
                Verdict::WrongAnswer
            }
        },
        Some(137) => Verdict::MemoryLimitExceeded,
        _ => Verdict::RunTimeError,
    }
}

/// A run's verdict from its exit code and output: a run that exits with 0
/// is accepted exactly when its output, trimmed, equals the trimmed
/// expected solution, and is a wrong answer otherwise (an empty output
/// against a non-blank solution included); exit 137 is a memory limit
/// overrun and any other end a runtime error. The same holds of raw output
/// bytes through their decoding.
pub proof fn lemma_exit_verdict_rule(
    exit_code: Option<i32>,
    output: Seq<char>,
    stdout: Seq<u8>,
    solution: Seq<char>,
)
    ensures
        (text_exit_verdict(Some(0i32), output, solution) == Verdict::Accepted) <==> trim_spec(output)
            == trim_spec(solution),
        trim_spec(output) != trim_spec(solution) ==> text_exit_verdict(Some(0i32), output, solution)
            == Verdict::WrongAnswer,
        trim_spec(output).len() == 0 && trim_spec(solution).len() > 0 ==> text_exit_verdict(
            Some(0i32),
            output,
            solution,
        ) == Verdict::WrongAnswer,
        text_exit_verdict(Some(137i32), output, solution) == Verdict::MemoryLimitExceeded,
        exit_code != Some(0i32) && exit_code != Some(137i32) ==> text_exit_verdict(
            exit_code,
            output,
            solution,
        ) == Verdict::RunTimeError,
        (exit_verdict(Some(0i32), stdout, solution) == Verdict::Accepted) <==> trim_spec(
            utf8_lossy_spec(stdout),
        ) == trim_spec(solution),
        trim_spec(utf8_lossy_spec(stdout)) != trim_spec(solution) ==> exit_verdict(
            Some(0i32),
            stdout,
            solution,
        ) == Verdict::WrongAnswer,
{
}

/// The result of one test run against the test's expected solution: a
/// finished run gets its exit verdict and the resources it reported; a run
/// that docker could not start is left pending; a run past the time limit
/// exceeds it, with the limit as its running time.
pub fn check_sol(user_sol: RunOutcome, input: &TestCase, problem: &Problem) -> (r: Result<
    SubmissionResults,
    DockerError,
>)
    ensures
        match user_sol {
            RunOutcome::Finished { exit_code, stdout, stderr, inspect_stdout } => match metrics_spec(
                inspect_stdout@,
                stderr@,
            ) {
                None => r is Err,
                Some(m) => r == Ok::<SubmissionResults, DockerError>(
                    SubmissionResults {
                        verdict: exit_verdict(exit_code, stdout@, input.solution@),
                        metrics: m,
                    },
                ),
            },
            RunOutcome::DockerFailed => r == Ok::<SubmissionResults, DockerError>(
                SubmissionResults {
                    verdict: Verdict::Pending,
                    metrics: Metric { runtime_ms: None, peak_memory_kb: None },
                },
            ),
            RunOutcome::TimedOut => r == Ok::<SubmissionResults, DockerError>(
                SubmissionResults {
                    verdict: Verdict::TimeLimitExceeded,
                    metrics: Metric { runtime_ms: Some(problem.runtime_ms), peak_memory_kb: None },
                },
            ),
        },
{
    match user_sol {
        RunOutcome::Finished { exit_code, stdout, stderr, inspect_stdout } => {
            let metrics = match docker_metrics(inspect_stdout.as_slice(), stderr.as_slice()) {
                Ok(m) => m,
                Err(e) => return Err(e),
            };
            match exit_code {
                Some(0) => {
                    let out = utf8_lossy(stdout.as_slice());
                    let verdict = exit_verdict_of(exit_code, out.as_str(), input.solution.as_str());
                    Ok(SubmissionResults { verdict, metrics })
                },
                Some(137) => Ok(SubmissionResults { verdict: Verdict::MemoryLimitExceeded, metrics }),
                _ => Ok(SubmissionResults { verdict: Verdict::RunTimeError, metrics }),
            }
        },
        RunOutcome::DockerFailed => Ok(
            SubmissionResults {
                verdict: Verdict::Pending,
                metrics: Metric { runtime_ms: None, peak_memory_kb: None },
            },
        ),
        RunOutcome::TimedOut => Ok(
            SubmissionResults {
                verdict: Verdict::TimeLimitExceeded,
                metrics: Metric { runtime_ms: Some(problem.runtime_ms), peak_memory_kb: None },
            },
        ),
    }
}

/// Whether a stderr line is shown as part of a runtime error: it is not
/// empty and is not a `JUDGE_MEM` report.
pub open spec fn shown_error_line(line: Seq<char>) -> bool {
    line.len() > 0 && !"JUDGE_MEM"@.is_prefix_of(line)
}

/// The lines of `ls` that are shown for a runtime error, in order.
pub open spec fn shown_error_lines(ls: Seq<Seq<char>>) -> Seq<Seq<char>>
    decreases ls.len(),
{
    if ls.len() == 0 {
        seq![]
    } else if shown_error_line(ls.last()) {
        shown_error_lines(ls.drop_last()).push(ls.last())
    } else {
        shown_error_lines(ls.drop_last())
    }
}

/// The stderr lines of a crashed run that are logged: every non-empty
/// line that is not the memory report.
pub fn stderr_error_lines(raw_stderr: &[u8]) -> (r: Vec<String>)
    ensures
        views(r@) == shown_error_lines(lines_spec(utf8_lossy_spec(raw_stderr@))),
{
    let stderr_str = utf8_lossy(raw_stderr);
    runtime_error_lines(stderr_str.as_str())
}

/// The runtime error message kept for a crashed run. The stderr lines of
/// the run are only logged (see `stderr_error_lines`); no message is kept,
/// so the result is always empty, whatever the stderr and the file name.
pub fn extract_runtime_error(_raw_stderr: &[u8], _file_name: &str) -> (r: String)
    ensures
        r@ == Seq::<char>::empty(),
{
    String::new()
}

/// The lines of a crashed run's stderr text that are reported.
pub fn runtime_error_lines(stderr_text: &str) -> (r: Vec<String>)
    ensures
        views(r@) == shown_error_lines(lines_spec(stderr_text@)),
{
    let all_lines = lines(stderr_text);
    let ghost ls = lines_spec(stderr_text@);
    let mut shown: Vec<String> = Vec::new();
    let n = all_lines.len();
    let mut i: usize = 0;
    while i < n
        invariant
            n == all_lines@.len(),
            n == ls.len(),
            i <= n,
            forall|k: int| 0 <= k < n ==> (#[trigger] all_lines@[k])@ == ls[k],
            views(shown@) == shown_error_lines(ls.take(i as int)),
        decreases n - i,
    {
        assert(ls.take(i + 1).drop_last() =~= ls.take(i as int));
        assert(ls.take(i + 1).last() == ls[i as int]);
        let line = all_lines[i].as_str();
        if !line.is_empty() && strip_prefix(line, "JUDGE_MEM").is_none() {
            push_str(&mut shown, line);
        }
        i = i + 1;
    }
    assert(ls.take(n as int) =~= ls);
    shown
}

impl SubmissionResults {
    /// The result of a submission that failed to compile: no resources measured.
    pub fn failed_compilation() -> (r: Self)
        ensures
            r.verdict == Verdict::CompileError,
            r.metrics == (Metric { runtime_ms: None, peak_memory_kb: None }),
    {
        SubmissionResults {
            verdict: Verdict::CompileError,
            metrics: Metric { runtime_ms: None, peak_memory_kb: None },
        }
    }
}

/// The judging of a submission's tests so far: the verdict of the last
/// test run and the resources counted over all runs.
#[derive(Debug, Clone, Copy, PartialEq, Eq, Structural)]
pub struct TestRun {
    pub verdict: Verdict,
    pub metrics: Metric,
}

/// The state after one more test result.
pub open spec fn record_spec(state: TestRun, result: SubmissionResults) -> TestRun {
    TestRun { verdict: result.verdict, metrics: merge_metric(state.metrics, result.metrics) }
}

impl TestRun {
    /// Before any test: accepted, nothing measured.
    pub fn new() -> (r: Self)
        ensures
            r.verdict == Verdict::Accepted,
            r.metrics == (Metric { runtime_ms: None, peak_memory_kb: None }),
    {
        TestRun {
            verdict: Verdict::Accepted,
            metrics: Metric { runtime_ms: None, peak_memory_kb: None },
        }
    }

    /// Counts one test result; whether judging goes on to the next test,
    /// which it does only after an accepted one.
    pub fn record(&mut self, result: &SubmissionResults) -> (go_on: bool)
        ensures
            *final(self) == record_spec(*old(self), *result),
            go_on == (result.verdict == Verdict::Accepted),
    {
        self.verdict = result.verdict;
        update_metric(&mut self.metrics, &result.metrics);
        self.verdict == Verdict::Accepted
    }

    /// The submission's result once judging stops: its verdict is the last
    /// test's, and a memory limit overrun reports the whole limit, in KiB,
    /// as the memory used.
    pub fn finish(self, memory_mb: i64) -> (r: SubmissionResults)
        requires
            self.verdict == Verdict::MemoryLimitExceeded ==> i64::MIN <= memory_mb * 1024
                <= i64::MAX,
        ensures
            r.verdict == self.verdict,
            r.metrics.runtime_ms == self.metrics.runtime_ms,
            r.metrics.peak_memory_kb == if self.verdict == Verdict::MemoryLimitExceeded {
                Some((memory_mb * 1024) as i64)
            } else {
                self.metrics.peak_memory_kb
            },
    {
        let mut metrics = self.metrics;
        if self.verdict == Verdict::MemoryLimitExceeded {
            metrics.peak_memory_kb = Some(memory_mb * 1024);
        }
        SubmissionResults { verdict: self.verdict, metrics }
    }
}

/// The state after feeding `results` to `record` in order, stopping after
/// the first one that is not accepted.
pub open spec fn drive(state: TestRun, results: Seq<SubmissionResults>) -> TestRun
    decreases results.len(),
{
    if results.len() == 0 {
        state
    } else {
        let next = record_spec(state, results[0]);
        if results[0].verdict != Verdict::Accepted {
            next
        } else {
            drive(next, results.drop_first())
        }
    }
}

/// The verdict of the first result that is not accepted, or accepted when all are.
pub open spec fn first_failure(results: Seq<SubmissionResults>) -> Verdict
    decreases results.len(),
{
    if results.len() == 0 {
        Verdict::Accepted
    } else if results[0].verdict != Verdict::Accepted {
        results[0].verdict
    } else {
        first_failure(results.drop_first())
    }
}

/// A submission's verdict over its tests: judging from the initial state
/// stops at the first test that is not accepted and takes that test's
/// verdict; a submission is accepted exactly when every test is.
pub proof fn lemma_run_verdict(results: Seq<SubmissionResults>)
    ensures
        drive(
            TestRun {
                verdict: Verdict::Accepted,
                metrics: Metric { runtime_ms: None, peak_memory_kb: None },
            },
            results,
        ).verdict == first_failure(results),
        (first_failure(results) == Verdict::Accepted) <==> (forall|i: int|
            0 <= i < results.len() ==> (#[trigger] results[i]).verdict == Verdict::Accepted),
{
    lemma_drive_verdict(
        TestRun {
            verdict: Verdict::Accepted,
            metrics: Metric { runtime_ms: None, peak_memory_kb: None },
        },
        results,
    );
    lemma_first_failure_all(results);
}

proof fn lemma_drive_verdict(state: TestRun, results: Seq<SubmissionResults>)
    requires
        state.verdict == Verdict::Accepted,
    ensures
        drive(state, results).verdict == first_failure(results),
    decreases results.len(),
{
    if results.len() > 0 && results[0].verdict == Verdict::Accepted {
        lemma_drive_verdict(record_spec(state, results[0]), results.drop_first());
    }
}

proof fn lemma_first_failure_all(results: Seq<SubmissionResults>)
    ensures
        (first_failure(results) == Verdict::Accepted) <==> (forall|i: int|
            0 <= i < results.len() ==> (#[trigger] results[i]).verdict == Verdict::Accepted),
    decreases results.len(),
{
    if results.len() > 0 {
        lemma_first_failure_all(results.drop_first());
        if results[0].verdict == Verdict::Accepted {
            assert forall|i: int|
                0 <= i < results.len() && (forall|j: int|
                    0 <= j < results.drop_first().len() ==> (#[trigger] results.drop_first()[j]).verdict
                        == Verdict::Accepted) implies (#[trigger] results[i]).verdict
                == Verdict::Accepted by {
                if i > 0 {
                    assert(results[i] == results.drop_first()[i - 1]);
                }
            }
            assert((forall|i: int|
                0 <= i < results.len() ==> (#[trigger] results[i]).verdict == Verdict::Accepted)
                ==> (forall|j: int|
                0 <= j < results.drop_first().len() ==> (#[trigger] results.drop_first()[j]).verdict
                    == Verdict::Accepted)) by {
                assert forall|j: int|
                    0 <= j < results.drop_first().len() && (forall|i: int|
                        0 <= i < results.len() ==> (#[trigger] results[i]).verdict
                            == Verdict::Accepted) implies (
                #[trigger] results.drop_first()[j]).verdict == Verdict::Accepted by {
                    assert(results.drop_first()[j] == results[j + 1]);
                }
            }
        }
    }
}

/// Merging resources never loses a measurement: a measured memory stays
/// at least as large as before and as the new one, and a kept running
/// time is never negative.
pub proof fn lemma_merge_metric_monotone(old: Metric, new: Metric)
    ensures
        merge_metric(old, new).peak_memory_kb matches Some(m) ==> (old.peak_memory_kb matches Some(
            a,
        ) ==> a <= m) && (new.peak_memory_kb matches Some(b) ==> b <= m),
        old.peak_memory_kb is Some || new.peak_memory_kb is Some ==> merge_metric(
            old,
            new,
        ).peak_memory_kb is Some,
        merge_metric(old, new).runtime_ms matches Some(t) ==> t >= 0,
{
}

/// Recording a test result counts its resources whatever its verdict, the
/// failing test included: the verdict becomes the result's; the running
/// time kept is the largest of the earlier and the new one, and is absent
/// only when neither is a non-negative measurement; the peak memory kept is
/// the largest of the earlier and the new one, and is absent only when
/// neither was measured.
pub proof fn lemma_record_counts_every_result(state: TestRun, result: SubmissionResults)
    ensures
        record_spec(state, result).verdict == result.verdict,
        ({
            let t = record_spec(state, result).metrics.runtime_ms;
            let a = state.metrics.runtime_ms;
            let b = result.metrics.runtime_ms;
            &&& (t is Some) <==> ((a matches Some(x) && x >= 0) || (b matches Some(y) && y >= 0))
            &&& t matches Some(v) ==> (a matches Some(x) ==> x <= v) && (b matches Some(y) ==> y
                <= v) && (a == Some(v) || b == Some(v))
        }),
        ({
            let m = record_spec(state, result).metrics.peak_memory_kb;
            let a = state.metrics.peak_memory_kb;
            let b = result.metrics.peak_memory_kb;
            &&& (m is Some) <==> (a is Some || b is Some)
            &&& m matches Some(v) ==> (a matches Some(x) ==> x <= v) && (b matches Some(y) ==> y
                <= v) && (a == Some(v) || b == Some(v))
        }),
{
}

/// The first `i` results are all accepted, so judging reaches result `i`.
pub open spec fn judged(results: Seq<SubmissionResults>, i: int) -> bool {
    0 <= i < results.len() && forall|j: int| 0 <= j < i ==> (#[trigger] results[j]).verdict
        == Verdict::Accepted
}

/// Whether the kept value `kept` is at least the measurement `x`, if there is one.
pub open spec fn covers(kept: Option<i64>, x: Option<i64>) -> bool {
    match x {
        Some(a) => kept matches Some(v) && a <= v,
        None => true,
    }
}

/// Whether the kept running time `kept` is at least the running time `x`,
/// if that is a non-negative measurement.
pub open spec fn covers_time(kept: Option<i64>, x: Option<i64>) -> bool {
    match x {
        Some(a) => a < 0 || (kept matches Some(v) && a <= v),
        None => true,
    }
}

/// Over a whole submission, the reported running time and peak memory are
/// at least those of every test that was judged, the last (failing) one
/// included, and at least those already counted before.
pub proof fn lemma_drive_counts_judged_tests(state: TestRun, results: Seq<SubmissionResults>)
    ensures
        covers_time(drive(state, results).metrics.runtime_ms, state.metrics.runtime_ms),
        covers(drive(state, results).metrics.peak_memory_kb, state.metrics.peak_memory_kb),
        forall|i: int|
            #![trigger results[i]]
            judged(results, i) ==> covers_time(
                drive(state, results).metrics.runtime_ms,
                results[i].metrics.runtime_ms,
            ) && covers(drive(state, results).metrics.peak_memory_kb, results[i].metrics.peak_memory_kb),
    decreases results.len(),
{
    if results.len() > 0 {
        let next = record_spec(state, results[0]);
        lemma_record_counts_every_result(state, results[0]);
        if results[0].verdict == Verdict::Accepted {
            let rest = results.drop_first();
            lemma_drive_counts_judged_tests(next, rest);
            assert forall|i: int| #![trigger results[i]] judged(results, i) && i > 0 implies judged(
                rest,
                i - 1,
            ) by {
                assert(rest[i - 1] == results[i]);
                assert forall|j: int| 0 <= j < i - 1 implies (#[trigger] rest[j]).verdict
                    == Verdict::Accepted by {
                    assert(rest[j] == results[j + 1]);
                }
            }
            assert forall|i: int| #![trigger results[i]] judged(results, i) && i > 0 implies rest[i
                - 1] == results[i] by {}
        } else {
            assert forall|i: int| #![trigger results[i]] judged(results, i) implies i == 0 by {
                if i > 0 {
                    assert(results[0].verdict == Verdict::Accepted);
                }
            }
        }
    }
}

} // verus!
