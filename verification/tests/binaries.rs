use quran_segmentation::types::Platform;
use quran_segmentation::binaries::{
    classify_spawn_error, exe_name, first_non_empty_line, format_ffprobe_exec_failed,
    map_ffprobe_resolve_error, probe_args_for, record_attempt, resolve_binary,
    resolve_binary_debug, resolve_binary_detailed, resolve_binary_with_attempts,
    test_binary_version as judge_probe, BinaryDiagnosticResult,
    BinaryResolutionAttempt, BinaryResolveDebugInfo, BinaryResolveError, CandidateSource,
    ProbeOutcome, SpawnErrorKind,
};

fn attempt(candidate: &str, outcome: &str, detail: Option<&str>) -> BinaryResolutionAttempt {
    BinaryResolutionAttempt {
        candidate: candidate.to_string(),
        source: "bundled_or_known_path".to_string(),
        outcome: outcome.to_string(),
        detail: detail.map(|d| d.to_string()),
    }
}

fn ran(success: bool, stdout: &str, stderr: &str) -> ProbeOutcome {
    ProbeOutcome::Ran { success, stdout: stdout.to_string(), stderr: stderr.to_string() }
}

#[test]
fn the_first_line_that_is_not_blank() {
    assert_eq!(first_non_empty_line("\n  \n  second \r\nthird"), "second");
    assert_eq!(first_non_empty_line("only"), "only");
    assert_eq!(first_non_empty_line(" \n \n"), "");
    assert_eq!(first_non_empty_line(""), "");
}

#[test]
fn spawn_errors_are_classified() {
    assert_eq!(classify_spawn_error(SpawnErrorKind::NotFound, "whatever"), ("missing", "Binary not found".to_string()));
    assert_eq!(
        classify_spawn_error(SpawnErrorKind::PermissionDenied, "x"),
        ("not_executable", "Permission denied while executing binary".to_string())
    );
    assert_eq!(
        classify_spawn_error(SpawnErrorKind::Other, "Exec format error (os error 8)"),
        ("not_executable", "Exec format error (os error 8)".to_string())
    );
    assert_eq!(
        classify_spawn_error(SpawnErrorKind::Other, "Bad CPU type in executable"),
        ("not_executable", "Bad CPU type in executable".to_string())
    );
    assert_eq!(
        classify_spawn_error(SpawnErrorKind::Other, "cannot execute binary file"),
        ("not_executable", "cannot execute binary file".to_string())
    );
    assert_eq!(
        classify_spawn_error(SpawnErrorKind::Other, "too many open files"),
        ("exec_failed", "too many open files".to_string())
    );
}

#[test]
fn tool_file_names() {
    assert_eq!(exe_name("ffmpeg", Platform::Windows), "ffmpeg.exe");
    assert_eq!(exe_name("ffmpeg", Platform::Other), "ffmpeg");
    assert_eq!(exe_name("yt-dlp", Platform::MacOs), "yt-dlp");
}

#[test]
fn probe_arguments() {
    assert_eq!(probe_args_for("ffmpeg"), &["-version"]);
    assert_eq!(probe_args_for("ffprobe.exe"), &["-version"]);
    assert_eq!(probe_args_for("yt-dlp"), &["--version"]);
    assert_eq!(probe_args_for("YT-DLP.exe"), &["--version"]);
    assert_eq!(probe_args_for("yt-dlp.EXE"), &["-version"]);
    assert_eq!(probe_args_for(""), &["-version"]);
    assert_eq!(probe_args_for(".exe"), &["-version"]);
}

#[test]
fn probes_are_judged() {
    assert_eq!(judge_probe(&ran(true, "", "noise")), Ok(()));
    assert_eq!(
        judge_probe(&ran(false, "out line", "\n  err line\nmore")),
        Err(("exec_failed".to_string(), "err line".to_string()))
    );
    assert_eq!(
        judge_probe(&ran(false, "\nout line\n", "  \n")),
        Err(("exec_failed".to_string(), "out line".to_string()))
    );
    assert_eq!(
        judge_probe(&ran(false, "", "")),
        Err(("exec_failed".to_string(), "Binary returned non-zero exit status".to_string()))
    );
    assert_eq!(
        judge_probe(&ProbeOutcome::SpawnFailed { kind: SpawnErrorKind::NotFound, message: "m".to_string() }),
        Err(("missing".to_string(), "Binary not found".to_string()))
    );
}

#[test]
fn attempts_are_recorded() {
    assert_eq!(
        record_attempt("/opt/ffmpeg", CandidateSource::KnownPath, None),
        attempt("/opt/ffmpeg", "missing", None)
    );
    assert_eq!(
        record_attempt("/opt/ffmpeg", CandidateSource::KnownPath, Some(&ran(true, "ffmpeg 7", ""))),
        attempt("/opt/ffmpeg", "ok", None)
    );
    assert_eq!(
        record_attempt("ffmpeg", CandidateSource::SystemPath, Some(&ran(false, "", "broken"))),
        BinaryResolutionAttempt {
            candidate: "ffmpeg".to_string(),
            source: "system_path".to_string(),
            outcome: "exec_failed".to_string(),
            detail: Some("broken".to_string()),
        }
    );
}

#[test]
fn the_first_attempt_that_succeeded_resolves_the_tool() {
    let attempts = vec![
        attempt("binaries/ffmpeg", "missing", None),
        attempt("/usr/bin/ffmpeg", "exec_failed", Some("bad")),
        attempt("/usr/local/bin/ffmpeg", "ok", None),
        attempt("/bin/ffmpeg", "ok", None),
    ];
    assert_eq!(
        resolve_binary_with_attempts("ffmpeg", attempts.clone()),
        Ok(("/usr/local/bin/ffmpeg".to_string(), attempts[..3].to_vec()))
    );
    assert_eq!(resolve_binary_detailed("ffmpeg", attempts.clone()), Ok("/usr/local/bin/ffmpeg".to_string()));
    assert_eq!(resolve_binary("ffmpeg", attempts.clone()), Some("/usr/local/bin/ffmpeg".to_string()));
    assert_eq!(
        resolve_binary_debug("ffmpeg", attempts.clone()),
        BinaryResolveDebugInfo {
            name: "ffmpeg".to_string(),
            resolved_path: Some("/usr/local/bin/ffmpeg".to_string()),
            error_code: None,
            error_details: None,
            attempts: attempts[..3].to_vec(),
        }
    );
}

#[test]
fn failed_resolutions_have_a_code_and_the_first_detail() {
    let attempts = vec![
        attempt("a", "missing", None),
        attempt("b", "exec_failed", Some("exit 1")),
        attempt("c", "not_executable", Some("denied")),
    ];
    assert_eq!(
        resolve_binary_detailed("ffprobe", attempts.clone()),
        Err(BinaryResolveError {
            code: "BINARY_NOT_EXECUTABLE".to_string(),
            details: "exit 1".to_string(),
            attempts: attempts.clone(),
        })
    );
    let attempts = vec![attempt("a", "missing", None), attempt("b", "exec_failed", Some("exit 1"))];
    assert_eq!(resolve_binary_detailed("ffprobe", attempts).unwrap_err().code, "BINARY_EXEC_FAILED");
    let attempts = vec![attempt("a", "missing", None), attempt("b", "missing", Some("Binary not found"))];
    let err = resolve_binary_detailed("ffprobe", attempts.clone()).unwrap_err();
    assert_eq!(err.code, "BINARY_NOT_FOUND");
    assert_eq!(err.details, "Binary not found");
    let err = resolve_binary_detailed("yt-dlp", vec![attempt("a", "missing", None)]).unwrap_err();
    assert_eq!(err.details, "No usable binary found for yt-dlp");
    let err = resolve_binary_detailed("yt-dlp", Vec::new()).unwrap_err();
    assert_eq!((err.code.as_str(), err.attempts.len()), ("BINARY_NOT_FOUND", 0));
    assert_eq!(resolve_binary("yt-dlp", Vec::new()), None);
    let debug = resolve_binary_debug("ffprobe", attempts.clone());
    assert_eq!(
        debug,
        BinaryResolveDebugInfo {
            name: "ffprobe".to_string(),
            resolved_path: None,
            error_code: Some("BINARY_NOT_FOUND".to_string()),
            error_details: Some("Binary not found".to_string()),
            attempts,
        }
    );
}

#[test]
fn probe_tool_messages() {
    let err = |code: &str| BinaryResolveError { code: code.to_string(), details: "why".to_string(), attempts: Vec::new() };
    assert_eq!(map_ffprobe_resolve_error(err("BINARY_NOT_FOUND")), "FFPROBE_NOT_FOUND");
    assert_eq!(map_ffprobe_resolve_error(err("BINARY_NOT_EXECUTABLE")), "FFPROBE_NOT_EXECUTABLE: why");
    assert_eq!(map_ffprobe_resolve_error(err("BINARY_EXEC_FAILED")), "FFPROBE_EXEC_FAILED:why");
    assert_eq!(map_ffprobe_resolve_error(err("SOMETHING_ELSE")), "FFPROBE_EXEC_FAILED:why");
    assert_eq!(format_ffprobe_exec_failed("  no such file \n"), "FFPROBE_EXEC_FAILED:no such file");
    assert_eq!(format_ffprobe_exec_failed(""), "FFPROBE_EXEC_FAILED:");
}

#[test]
fn records_hold_what_they_are_given() {
    let result = BinaryDiagnosticResult {
        name: "ffmpeg".to_string(),
        resolved_path: None,
        error_code: Some("BINARY_NOT_FOUND".to_string()),
        error_details: None,
        attempts: vec![attempt("a", "missing", None)],
        version_output: None,
    };
    assert_eq!(result.attempts.len(), 1);
    assert_eq!(result.clone(), result);
}
