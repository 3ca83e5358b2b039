use enyay_oj::judge::{
    check_sol, compile_args, container_name, docker_metrics, exit_verdict_of, extract_runtime_error,
    fetch_language, input_file_name, binary_file_name, memory_kb_from_stderr, millis_between,
    runtime_error_lines, stderr_error_lines, source_file_name, inspect_args, remove_args, run_args, update_metric, DockerError, JudgeVolume, Metric, RunOutcome, SubmissionResults, TestRun,
};
use enyay_oj::language::{Language, LanguageNotSupportedError};
use enyay_oj::model::{Problem, Submission, TestCase};
use enyay_oj::verdict::Verdict;

fn metric(runtime_ms: Option<i64>, peak_memory_kb: Option<i64>) -> Metric {
    Metric { runtime_ms, peak_memory_kb }
}

fn problem(runtime_ms: i64, memory_mb: i64) -> Problem {
    Problem {
        problem_id: 3,
        problem_name: "sum".to_string(),
        runtime_ms,
        memory_mb,
        problem_rating: 800,
        problem_statement: "add".to_string(),
        judge_type: "standard".to_string(),
        validator_code: None,
    }
}

fn test_case(solution: &str) -> TestCase {
    TestCase { problem_id: 3, input: "1 2".to_string(), solution: solution.to_string() }
}

fn submission(language: Option<&str>) -> Submission {
    Submission {
        submission_id: 9,
        user_id: 1,
        contest_id: None,
        problem_id: 3,
        verdict: "PENDING".to_string(),
        runtime_ms: None,
        memory_kb: None,
        language: language.map(|s| s.to_string()),
        source_code: "print(3)".to_string(),
    }
}

fn strings(v: &[&str]) -> Vec<String> {
    v.iter().map(|s| s.to_string()).collect()
}

const INSPECT: &str = "2024-01-01T00:00:00.000000000Z 2024-01-01T00:00:01.500000000Z\n";

#[test]
fn metric_keeps_maximum() {
    let mut m = metric(Some(10), Some(100));
    update_metric(&mut m, &metric(Some(30), Some(50)));
    assert_eq!(m, metric(Some(30), Some(100)));
    update_metric(&mut m, &metric(None, None));
    assert_eq!(m, metric(Some(30), Some(100)));
    let mut e = metric(None, None);
    update_metric(&mut e, &metric(Some(5), Some(7)));
    assert_eq!(e, metric(Some(5), Some(7)));
}

#[test]
fn metric_drops_negative_runtime() {
    let mut m = metric(None, None);
    update_metric(&mut m, &metric(Some(-4), None));
    assert_eq!(m, metric(None, None));
    let mut n = metric(Some(-2), Some(1));
    update_metric(&mut n, &metric(None, Some(3)));
    assert_eq!(n, metric(None, Some(3)));
}

#[test]
fn language_of_submission() {
    assert_eq!(fetch_language(&submission(Some("python3"))), Ok(Language::PYTHON3_12));
    assert_eq!(fetch_language(&submission(Some("c++20"))), Ok(Language::GCC14));
    assert_eq!(fetch_language(&submission(Some("rust"))), Err(LanguageNotSupportedError));
    assert_eq!(fetch_language(&submission(None)), Err(LanguageNotSupportedError));
}

#[test]
fn judging_file_and_container_names() {
    assert_eq!(source_file_name("sum", 12, Language::GCC14), "sum_code_submission_12.cpp");
    assert_eq!(source_file_name("sum", -3, Language::PYTHON3_12), "sum_code_submission_-3.py");
    assert_eq!(binary_file_name("sum", 12), "sum_12.out");
    assert_eq!(input_file_name("sum"), "sum_input.txt");
    assert_eq!(container_name(5, 0, 7), "sub_5_test_0_problem_7");
    assert_eq!(container_name(1234567890123, 42, 9), "sub_1234567890123_test_42_problem_9");
}

#[test]
fn judge_volume_mounts() {
    let v = JudgeVolume::new("/srv/test_cases".to_string(), "/srv/user_inputs".to_string());
    assert_eq!(v.input_volume_mount, "/srv/test_cases:/app/inputs:ro");
    assert_eq!(v.user_volume_mount, "/srv/user_inputs:/app/workspace:rw");
    assert_eq!(v.input_dir, "/srv/test_cases");
    assert_eq!(v.output_dir, "/srv/user_inputs");
}

#[test]
fn docker_compile_arguments() {
    let v = JudgeVolume::new("/i".to_string(), "/o".to_string());
    assert_eq!(
        compile_args("sum_1.out", "sum.cpp", Language::GCC14, &v),
        Some(strings(&[
            "run", "--rm", "-v", "/o:/app/workspace:rw", "--user", "1000:1000", "-w", "/app/workspace",
            "gcc:14", "g++", "-O2", "-fsanitize=address,undefined", "-fno-sanitize-recover=all",
            "sum.cpp", "-o", "sum_1.out",
        ]))
    );
    assert_eq!(compile_args("sum_1.out", "sum.py", Language::PYTHON3_12, &v), None);
}

#[test]
fn docker_run_arguments() {
    let v = JudgeVolume::new("/i".to_string(), "/o".to_string());
    let args = run_args(&problem(1000, 256), "sum_1.out", "sum.py", "sum_input.txt", Language::PYTHON3_12, "box", &v);
    let command = Language::PYTHON3_12.run_command("sum.py", "sum_1.out", "sum_input.txt");
    let mut expected = strings(&[
        "run", "--name", "box", "--memory", "256m", "--cpus", "1.0", "--network", "none", "-v",
        "/i:/app/inputs:ro", "-v", "/o:/app/workspace:rw", "--user", "1000:1000", "-w",
        "/app/workspace", "python:3.12-slim", "sh", "-c",
    ]);
    expected.push(command);
    assert_eq!(args, expected);
}

#[test]
fn docker_inspect_and_remove_arguments() {
    assert_eq!(
        inspect_args("box"),
        strings(&["inspect", "box", "--format", "{{.State.StartedAt}} {{.State.FinishedAt}}"])
    );
    assert_eq!(remove_args("box"), strings(&["rm", "-f", "-v", "box"]));
}

#[test]
fn metrics_from_docker_output() {
    let m = docker_metrics(INSPECT.as_bytes(), b"hello\nJUDGE_MEM:2048\n").unwrap();
    assert_eq!(m, metric(Some(1500), Some(2)));
}

#[test]
fn metrics_runtime_with_offsets_and_rounding() {
    let m = docker_metrics(b"2024-01-01T01:00:00+01:00 2024-01-01T00:00:02.0009Z", b"").unwrap();
    assert_eq!(m.runtime_ms, Some(2000));
    let back = docker_metrics(b"2024-01-01T00:00:01.0005Z 2024-01-01T00:00:00Z", b"").unwrap();
    assert_eq!(back.runtime_ms, Some(-1000));
}

#[test]
fn metrics_without_two_timestamps() {
    assert_eq!(docker_metrics(b"", b"").unwrap(), metric(Some(0), Some(0)));
    assert_eq!(docker_metrics(b"2024-01-01T00:00:00Z", b"").unwrap().runtime_ms, Some(0));
    assert_eq!(docker_metrics(b"a b c", b"").unwrap().runtime_ms, Some(0));
}

#[test]
fn metrics_with_unreadable_timestamp() {
    assert_eq!(docker_metrics(b"yesterday today", b"JUDGE_MEM:10"), Err(DockerError {}));
    assert_eq!(docker_metrics(b"2024-01-01T00:00:00Z later", b""), Err(DockerError {}));
}

#[test]
fn metrics_memory_lines() {
    let m = |stderr: &str| docker_metrics(INSPECT.as_bytes(), stderr.as_bytes()).unwrap().peak_memory_kb;
    assert_eq!(m("JUDGE_MEM:4096\nJUDGE_MEM:10240\n"), Some(10));
    assert_eq!(m("JUDGE_MEM:10240\nJUDGE_MEM:oops\n"), Some(10));
    assert_eq!(m("JUDGE_MEM:  8192  \r\n"), Some(8));
    assert_eq!(m("JUDGE_MEM:+3072"), Some(3));
    assert_eq!(m("JUDGE_MEM:1023"), Some(0));
    assert_eq!(m(" JUDGE_MEM:4096"), Some(0));
    assert_eq!(m("JUDGE_MEM:"), Some(0));
    assert_eq!(m("JUDGE_MEM:-1024"), Some(0));
    assert_eq!(m("JUDGE_MEM:18446744073709551615"), Some(0));
    assert_eq!(m("JUDGE_MEM:18446744073709550592"), Some(-1));
    assert_eq!(m("JUDGE_MEM:18446744073709551616"), Some(0));
}

#[test]
fn check_sol_accepted_and_wrong() {
    let finished = |code: Option<i32>, out: &str| RunOutcome::Finished {
        exit_code: code,
        stdout: out.as_bytes().to_vec(),
        stderr: b"JUDGE_MEM:1024\n".to_vec(),
        inspect_stdout: INSPECT.as_bytes().to_vec(),
    };
    let p = problem(1000, 256);
    let t = test_case("  3\n");
    let ok = check_sol(finished(Some(0), "3\n"), &t, &p).unwrap();
    assert_eq!(ok, SubmissionResults { verdict: Verdict::Accepted, metrics: metric(Some(1500), Some(1)) });
    assert_eq!(check_sol(finished(Some(0), "4\n"), &t, &p).unwrap().verdict, Verdict::WrongAnswer);
    assert_eq!(check_sol(finished(Some(0), "3 3"), &t, &p).unwrap().verdict, Verdict::WrongAnswer);
    assert_eq!(check_sol(finished(Some(137), "3"), &t, &p).unwrap().verdict, Verdict::MemoryLimitExceeded);
    assert_eq!(check_sol(finished(Some(1), "3"), &t, &p).unwrap().verdict, Verdict::RunTimeError);
    assert_eq!(check_sol(finished(None, "3"), &t, &p).unwrap().verdict, Verdict::RunTimeError);
}

#[test]
fn check_sol_invalid_utf8_output() {
    let outcome = RunOutcome::Finished {
        exit_code: Some(0),
        stdout: vec![0xff, b'3'],
        stderr: Vec::new(),
        inspect_stdout: Vec::new(),
    };
    let r = check_sol(outcome, &test_case("\u{fffd}3"), &problem(1000, 256)).unwrap();
    assert_eq!(r.verdict, Verdict::Accepted);
}

#[test]
fn check_sol_docker_failure_and_timeout() {
    let p = problem(1500, 256);
    let t = test_case("3");
    assert_eq!(
        check_sol(RunOutcome::DockerFailed, &t, &p).unwrap(),
        SubmissionResults { verdict: Verdict::Pending, metrics: metric(None, None) }
    );
    assert_eq!(
        check_sol(RunOutcome::TimedOut, &t, &p).unwrap(),
        SubmissionResults { verdict: Verdict::TimeLimitExceeded, metrics: metric(Some(1500), None) }
    );
    let broken = RunOutcome::Finished {
        exit_code: Some(0),
        stdout: b"3".to_vec(),
        stderr: Vec::new(),
        inspect_stdout: b"x y".to_vec(),
    };
    assert_eq!(check_sol(broken, &t, &p), Err(DockerError {}));
}

#[test]
fn runtime_error_lines_skip_memory_reports() {
    let lines = stderr_error_lines(b"error: boom\n\nJUDGE_MEM:10\nJUDGE_MEMORY x\nat line 2\r\n");
    assert_eq!(lines, strings(&["error: boom", "at line 2"]));
    assert!(stderr_error_lines(b"").is_empty());
}

#[test]
fn extract_runtime_error_keeps_no_message() {
    assert_eq!(extract_runtime_error(b"error: boom\nat line 2\n", "a_1.cpp"), String::new());
    assert_eq!(extract_runtime_error(b"", ""), String::new());
}

#[test]
fn test_run_stops_at_first_failure() {
    let mut run = TestRun::new();
    let ac = SubmissionResults { verdict: Verdict::Accepted, metrics: metric(Some(10), Some(100)) };
    let wa = SubmissionResults { verdict: Verdict::WrongAnswer, metrics: metric(Some(20), Some(50)) };
    assert!(run.record(&ac));
    assert!(!run.record(&wa));
    let result = run.finish(256);
    assert_eq!(result, SubmissionResults { verdict: Verdict::WrongAnswer, metrics: metric(Some(20), Some(100)) });
}

#[test]
fn test_run_all_accepted() {
    let mut run = TestRun::new();
    assert_eq!(run.clone().finish(64).verdict, Verdict::Accepted);
    for ms in [5, 9, 7] {
        assert!(run.record(&SubmissionResults { verdict: Verdict::Accepted, metrics: metric(Some(ms), None) }));
    }
    assert_eq!(run.finish(64), SubmissionResults { verdict: Verdict::Accepted, metrics: metric(Some(9), None) });
}

#[test]
fn test_run_memory_limit_reports_whole_limit() {
    let mut run = TestRun::new();
    let mle = SubmissionResults { verdict: Verdict::MemoryLimitExceeded, metrics: metric(Some(3), Some(7)) };
    assert!(!run.record(&mle));
    assert_eq!(run.finish(256).metrics, metric(Some(3), Some(262144)));
}

#[test]
fn failed_compilation_result() {
    assert_eq!(
        SubmissionResults::failed_compilation(),
        SubmissionResults { verdict: Verdict::CompileError, metrics: metric(None, None) }
    );
    assert_eq!(DockerError {}.message(), "Docker did not compile/run");
}

#[test]
fn docker_error_from_io() {
    let e: DockerError = std::io::Error::new(std::io::ErrorKind::Other, "gone").into();
    assert_eq!(e, DockerError {});
}

#[test]
fn millis_between_instants() {
    assert_eq!(millis_between((10, 500_000_000), (8, 0)), 2500);
    assert_eq!(millis_between((8, 0), (10, 500_000_000)), -2500);
    assert_eq!(millis_between((0, 999_999), (0, 0)), 0);
    assert_eq!(millis_between((0, 0), (0, 999_999)), 0);
    assert_eq!(millis_between((0, 1_000_000), (0, 0)), 1);
    assert_eq!(millis_between((-1, 0), (0, 1_000_000)), -1001);
}

#[test]
fn millis_across_a_leap_second() {
    let run = |a: &str, b: &str| {
        let text = format!("{a} {b}");
        docker_metrics(text.as_bytes(), b"").unwrap().runtime_ms
    };
    assert_eq!(run("2016-12-31T23:59:59Z", "2016-12-31T23:59:60.5Z"), Some(1500));
    assert_eq!(run("2016-12-31T23:59:58Z", "2016-12-31T23:59:60.5Z"), Some(2500));
    assert_eq!(run("2016-12-31T23:59:60.5Z", "2017-01-01T00:00:00Z"), Some(-500));
}

#[test]
fn memory_from_stderr_text() {
    assert_eq!(memory_kb_from_stderr("JUDGE_MEM:5120"), 5);
    assert_eq!(memory_kb_from_stderr("x\nJUDGE_MEM:2048\ny"), 2);
    assert_eq!(memory_kb_from_stderr("judge_mem:2048"), 0);
    assert_eq!(memory_kb_from_stderr(""), 0);
}

#[test]
fn exit_verdicts_from_text() {
    assert_eq!(exit_verdict_of(Some(0), "\t42 \n", "42"), Verdict::Accepted);
    assert_eq!(exit_verdict_of(Some(0), "4 2", "42"), Verdict::WrongAnswer);
    assert_eq!(exit_verdict_of(Some(0), "", "  "), Verdict::Accepted);
    assert_eq!(exit_verdict_of(Some(137), "42", "42"), Verdict::MemoryLimitExceeded);
    assert_eq!(exit_verdict_of(Some(139), "42", "42"), Verdict::RunTimeError);
    assert_eq!(exit_verdict_of(None, "42", "42"), Verdict::RunTimeError);
}

#[test]
fn runtime_error_lines_of_text() {
    assert_eq!(runtime_error_lines("a\nJUDGE_MEM\n\nb"), strings(&["a", "b"]));
    assert_eq!(runtime_error_lines("only\r"), strings(&["only\r"]));
}
