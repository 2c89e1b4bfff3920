//! The readiness of the local engines, judged from what was found on the
//! system. The check is advisory: whatever was found, it yields a report, and
//! a check that did not finish in time yields the report that nothing is ready.

use vstd::prelude::*;
use crate::json::{
    json_document, node_member, parse_value, read_string_member, read_text_value, string_member,
    text_value, JsonNode, JsonNodeView,
};
use crate::params::{has_token, token_present};
use crate::text::{
    append_chars, append_str, copy_str, join, join_chars, opt_string_view, opt_view, str_chars,
    string_from_chars, strings_view, texts_of, trim, trim_chars,
};

verus! {

/// How long a readiness check may take, in seconds.
pub const READINESS_TIMEOUT_SECS: u64 = 25;

/// The program that checks the versions of the legacy engine's packages and
/// prints its verdict as JSON.
pub const LEGACY_VERSIONS_PROGRAM: &'static str =
    "\nimport json\nfrom importlib import metadata\n\ndef major(version: str) -> int:\n    try:\n        token = str(version).split('.', 1)[0]\n        return int(token)\n    except Exception:\n        return -1\n\ndef package_version(name: str) -> str:\n    try:\n        return metadata.version(name)\n    except Exception:\n        return \"unknown\"\n\ntry:\n    versions = {\n        \"transformers\": package_version(\"transformers\"),\n        \"numpy\": package_version(\"numpy\"),\n        \"librosa\": package_version(\"librosa\"),\n        \"soundfile\": package_version(\"soundfile\"),\n        \"accelerate\": package_version(\"accelerate\"),\n    }\n    checks = [\n        major(versions[\"transformers\"]) < 5,\n        major(versions[\"numpy\"]) < 2,\n        major(versions[\"librosa\"]) <= 0 or versions[\"librosa\"].startswith(\"0.10.\"),\n        major(versions[\"soundfile\"]) <= 0 or versions[\"soundfile\"].startswith(\"0.12.\"),\n        major(versions[\"accelerate\"]) < 1,\n    ]\n    print(json.dumps({\"ok\": all(checks), \"versions\": versions}))\nexcept Exception as e:\n    print(json.dumps({\"ok\": False, \"error\": str(e)}))\n";

/// What came of running the legacy version check.
#[derive(Debug, Clone, PartialEq, Eq)]
pub enum VersionCheckRun {
    /// The interpreter could not be started.
    SpawnFailed { error: String },
    /// The program ran to its end.
    Ran { success: bool, stdout: String },
}

/// A run of the version check as the contracts see it.
pub enum VersionCheckRunView {
    SpawnFailed { error: Seq<char> },
    Ran { success: bool, stdout: Seq<char> },
}

impl View for VersionCheckRun {
    type V = VersionCheckRunView;

    open spec fn view(&self) -> VersionCheckRunView {
        match self {
            VersionCheckRun::SpawnFailed { error } => VersionCheckRunView::SpawnFailed {
                error: error@,
            },
            VersionCheckRun::Ran { success, stdout } => VersionCheckRunView::Ran {
                success: *success,
                stdout: stdout@,
            },
        }
    }
}

/// Whether the member `key` of a JSON object is `true`.
pub open spec fn true_member(node: JsonNodeView, key: Seq<char>) -> bool {
    match node_member(node, key) {
        Some(t) => match json_document(t) {
            Ok(doc) => doc.node == JsonNodeView::Bool(true),
            Err(_) => false,
        },
        None => false,
    }
}

/// The words for one package and its version; `unknown` stands for a version
/// that is not a string.
pub open spec fn package_text(member: (Seq<char>, Seq<char>)) -> Seq<char> {
    member.0 + "="@ + (match text_value(member.1) {
        Some(v) => v,
        None => "unknown"@,
    })
}

/// The words for each package of a list.
pub open spec fn package_texts(members: Seq<(Seq<char>, Seq<char>)>) -> Seq<Seq<char>> {
    Seq::new(members.len(), |i: int| package_text(members[i]))
}

/// The packages and versions that a verdict lists under `versions`.
pub open spec fn versions_text(node: JsonNodeView) -> Seq<char> {
    match node_member(node, "versions"@) {
        Some(t) => match json_document(t) {
            Ok(doc) => match doc.node {
                JsonNodeView::Object(members) => join(package_texts(members), ", "@),
                _ => "unknown versions"@,
            },
            Err(_) => "unknown versions"@,
        },
        None => "unknown versions"@,
    }
}

/// What the verdict printed by the version check means.
pub open spec fn printed_verdict(node: JsonNodeView) -> (bool, Option<Seq<char>>) {
    if true_member(node, "ok"@) {
        (true, None)
    } else {
        match string_member(node, "error"@) {
            Some(e) => (false, Some("Legacy package version check error: "@ + e)),
            None => (
                false,
                Some("Incompatible legacy package versions: "@ + versions_text(node)),
            ),
        }
    }
}

/// Whether the legacy engine's packages have versions that it can run with,
/// and if not, why.
pub open spec fn legacy_versions(exists: bool, run: VersionCheckRunView) -> (
    bool,
    Option<Seq<char>>,
) {
    if !exists {
        (false, Some("Legacy Python environment not found"@))
    } else {
        match run {
            VersionCheckRunView::SpawnFailed { error } => (
                false,
                Some("Failed to validate legacy package versions: "@ + error),
            ),
            VersionCheckRunView::Ran { success, stdout } => if !success {
                (false, Some("Legacy package version check failed"@))
            } else {
                match json_document(trim(stdout)) {
                    Err(_) => (
                        false,
                        Some("Legacy package version check returned invalid JSON"@),
                    ),
                    Ok(doc) => printed_verdict(doc.node),
                }
            },
        }
    }
}

fn read_true_member(node: &JsonNode, key: &str) -> (r: bool)
    ensures
        r == true_member(node@, key@),
{
    match node.member(key) {
        Some(t) => match parse_value(t.as_str()) {
            Ok(doc) => match doc.node {
                JsonNode::Bool(b) => b,
                _ => false,
            },
            Err(_) => false,
        },
        None => false,
    }
}

fn read_versions_text(node: &JsonNode) -> (r: Vec<char>)
    ensures
        r@ == versions_text(node@),
{
    let unknown = str_chars("unknown versions");
    match node.member("versions") {
        Some(t) => match parse_value(t.as_str()) {
            Ok(doc) => match &doc.node {
                JsonNode::Object(members) => {
                    let ghost views = doc@.node->Object_0;
                    let mut parts: Vec<Vec<char>> = Vec::new();
                    let mut i: usize = 0;
                    while i < members.len()
                        invariant
                            i <= members.len(),
                            views.len() == members@.len(),
                            forall|k: int|
                                0 <= k < members@.len() ==> views[k] == (
                                    members@[k].0@,
                                    members@[k].1@,
                                ),
                            texts_of(parts@) == package_texts(views).subrange(0, i as int),
                        decreases members.len() - i,
                    {
                        let ghost before = texts_of(parts@);
                        let mut words = str_chars(members[i].0.as_str());
                        append_str(&mut words, "=");
                        match read_text_value(members[i].1.as_str()) {
                            Some(v) => {
                                append_str(&mut words, v.as_str());
                            },
                            None => {
                                append_str(&mut words, "unknown");
                            },
                        }
                        parts.push(words);
                        assert(texts_of(parts@) == before.push(package_text(views[i as int])));
                        i += 1;
                    }
                    assert(package_texts(views).subrange(0, members.len() as int)
                        == package_texts(views));
                    let sep = str_chars(", ");
                    join_chars(&parts, &sep)
                },
                _ => unknown,
            },
            Err(_) => unknown,
        },
        None => unknown,
    }
}

/// Judges the versions of the legacy engine's packages. `exists` is whether
/// the environment's interpreter exists, `run` what came of running the version
/// check with it.
pub fn check_legacy_python_versions(exists: bool, run: &VersionCheckRun) -> (r: (
    bool,
    Option<String>,
))
    ensures
        (r.0, opt_string_view(r.1)) == legacy_versions(exists, run@),
{
    if !exists {
        return (false, Some(copy_str("Legacy Python environment not found")));
    }
    match run {
        VersionCheckRun::SpawnFailed { error } => {
            let mut out = str_chars("Failed to validate legacy package versions: ");
            append_str(&mut out, error.as_str());
            (false, Some(string_from_chars(&out)))
        },
        VersionCheckRun::Ran { success, stdout } => {
            if !*success {
                return (false, Some(copy_str("Legacy package version check failed")));
            }
            let chars = str_chars(stdout.as_str());
            let trimmed = trim_chars(&chars);
            let text = string_from_chars(&trimmed);
            match parse_value(text.as_str()) {
                Err(_) => (
                    false,
                    Some(copy_str("Legacy package version check returned invalid JSON")),
                ),
                Ok(doc) => {
                    if read_true_member(&doc.node, "ok") {
                        return (true, None);
                    }
                    match read_string_member(&doc.node, "error") {
                        Some(e) => {
                            let mut out = str_chars("Legacy package version check error: ");
                            append_str(&mut out, e.as_str());
                            (false, Some(string_from_chars(&out)))
                        },
                        None => {
                            let mut out = str_chars("Incompatible legacy package versions: ");
                            let listed = read_versions_text(&doc.node);
                            append_chars(&mut out, &listed);
                            (false, Some(string_from_chars(&out)))
                        },
                    }
                },
            }
        },
    }
}

/// What was found about the legacy engine.
#[derive(Debug, Clone, PartialEq, Eq)]
pub struct LegacyFacts {
    /// Whether the environment's interpreter exists.
    pub venv_exists: bool,
    /// Whether every required module can be imported.
    pub imports_ok: bool,
    /// The required modules that cannot be imported.
    pub missing_modules: Vec<String>,
    /// Whether the packages have versions that the engine can run with.
    pub versions_ok: bool,
    /// Why they have not.
    pub versions_message: Option<String>,
}

/// What was found about the multi-aligner engine.
#[derive(Debug, Clone, PartialEq, Eq)]
pub struct MultiFacts {
    pub venv_exists: bool,
    pub imports_ok: bool,
    pub missing_modules: Vec<String>,
    /// Whether the phonemizer can be imported under one of its names.
    pub phonemizer_ok: bool,
    /// The message of the first model data file that is not valid.
    pub data_error: Option<String>,
}

/// How far a readiness check came.
#[derive(Debug, Clone, PartialEq, Eq)]
pub enum ReadinessInput {
    /// No interpreter is installed on the system.
    PythonMissing,
    /// Where the environments lie could not be found out.
    PathsUnresolved { error: String },
    /// The check did not finish in time.
    TimedOut,
    /// Both engines were looked at.
    Checked { legacy: LegacyFacts, multi: MultiFacts },
}

/// The findings about the legacy engine as the contracts see them.
pub struct LegacyFactsView {
    pub venv_exists: bool,
    pub imports_ok: bool,
    pub missing_modules: Seq<Seq<char>>,
    pub versions_ok: bool,
    pub versions_message: Option<Seq<char>>,
}

/// The findings about the multi-aligner as the contracts see them.
pub struct MultiFactsView {
    pub venv_exists: bool,
    pub imports_ok: bool,
    pub missing_modules: Seq<Seq<char>>,
    pub phonemizer_ok: bool,
    pub data_error: Option<Seq<char>>,
}

/// The outcome of a check as the contracts see it.
pub enum ReadinessInputView {
    PythonMissing,
    PathsUnresolved { error: Seq<char> },
    TimedOut,
    Checked { legacy: LegacyFactsView, multi: MultiFactsView },
}

impl View for LegacyFacts {
    type V = LegacyFactsView;

    open spec fn view(&self) -> LegacyFactsView {
        LegacyFactsView {
            venv_exists: self.venv_exists,
            imports_ok: self.imports_ok,
            missing_modules: strings_view(self.missing_modules@),
            versions_ok: self.versions_ok,
            versions_message: opt_string_view(self.versions_message),
        }
    }
}

impl View for MultiFacts {
    type V = MultiFactsView;

    open spec fn view(&self) -> MultiFactsView {
        MultiFactsView {
            venv_exists: self.venv_exists,
            imports_ok: self.imports_ok,
            missing_modules: strings_view(self.missing_modules@),
            phonemizer_ok: self.phonemizer_ok,
            data_error: opt_string_view(self.data_error),
        }
    }
}

impl View for ReadinessInput {
    type V = ReadinessInputView;

    open spec fn view(&self) -> ReadinessInputView {
        match self {
            ReadinessInput::PythonMissing => ReadinessInputView::PythonMissing,
            ReadinessInput::PathsUnresolved { error } => ReadinessInputView::PathsUnresolved {
                error: error@,
            },
            ReadinessInput::TimedOut => ReadinessInputView::TimedOut,
            ReadinessInput::Checked { legacy, multi } => ReadinessInputView::Checked {
                legacy: legacy@,
                multi: multi@,
            },
        }
    }
}

/// The readiness of one engine.
#[derive(Debug, Clone, PartialEq, Eq)]
pub struct EngineReadiness {
    /// Whether the engine is installed and complete.
    pub ready: bool,
    pub venv_exists: bool,
    pub packages_installed: bool,
    /// Whether the engine needs an access token to run.
    pub token_required: bool,
    /// Whether the caller supplied one.
    pub token_provided: bool,
    /// Whether the engine can be run as things are.
    pub usable: bool,
    pub message: String,
}

/// The readiness of the local engines.
#[derive(Debug, Clone, PartialEq, Eq)]
pub struct ReadinessReport {
    /// Whether some engine can be run as things are.
    pub ready: bool,
    pub python_installed: bool,
    /// Whether some engine is installed and complete.
    pub packages_installed: bool,
    pub message: String,
    pub legacy: EngineReadiness,
    pub multi: EngineReadiness,
}

/// The readiness of an engine as the contracts see it.
pub struct EngineReadinessView {
    pub ready: bool,
    pub venv_exists: bool,
    pub packages_installed: bool,
    pub token_required: bool,
    pub token_provided: bool,
    pub usable: bool,
    pub message: Seq<char>,
}

/// A readiness report as the contracts see it.
pub struct ReadinessReportView {
    pub ready: bool,
    pub python_installed: bool,
    pub packages_installed: bool,
    pub message: Seq<char>,
    pub legacy: EngineReadinessView,
    pub multi: EngineReadinessView,
}

impl View for EngineReadiness {
    type V = EngineReadinessView;

    open spec fn view(&self) -> EngineReadinessView {
        EngineReadinessView {
            ready: self.ready,
            venv_exists: self.venv_exists,
            packages_installed: self.packages_installed,
            token_required: self.token_required,
            token_provided: self.token_provided,
            usable: self.usable,
            message: self.message@,
        }
    }
}

impl View for ReadinessReport {
    type V = ReadinessReportView;

    open spec fn view(&self) -> ReadinessReportView {
        ReadinessReportView {
            ready: self.ready,
            python_installed: self.python_installed,
            packages_installed: self.packages_installed,
            message: self.message@,
            legacy: self.legacy@,
            multi: self.multi@,
        }
    }
}

/// The report that nothing is ready, with the given messages.
pub open spec fn nothing_ready(
    python_installed: bool,
    token_provided: bool,
    message: Seq<char>,
    engine_message: Seq<char>,
) -> ReadinessReportView {
    ReadinessReportView {
        ready: false,
        python_installed,
        packages_installed: false,
        message,
        legacy: EngineReadinessView {
            ready: false,
            venv_exists: false,
            packages_installed: false,
            token_required: false,
            token_provided: false,
            usable: false,
            message: engine_message,
        },
        multi: EngineReadinessView {
            ready: false,
            venv_exists: false,
            packages_installed: false,
            token_required: true,
            token_provided,
            usable: false,
            message: engine_message,
        },
    }
}

/// Whether the legacy engine's packages are complete.
pub open spec fn legacy_packages(f: LegacyFactsView) -> bool {
    f.imports_ok && f.versions_ok
}

/// Whether the multi-aligner's packages and data are complete.
pub open spec fn multi_packages(f: MultiFactsView) -> bool {
    f.imports_ok && f.phonemizer_ok && f.data_error is None
}

/// What is said about the legacy engine.
pub open spec fn legacy_message(f: LegacyFactsView) -> Seq<char> {
    if f.venv_exists && legacy_packages(f) {
        "Legacy Whisper local engine is ready"@
    } else if !f.venv_exists {
        "Legacy Whisper dependencies are not installed"@
    } else if f.missing_modules.len() > 0 {
        "Legacy Whisper packages are incomplete (missing imports: "@ + join(
            f.missing_modules,
            ", "@,
        ) + ")"@
    } else {
        match f.versions_message {
            Some(m) => "Legacy Whisper packages need reinstall ("@ + m + ")"@,
            None => "Legacy Whisper packages are incomplete"@,
        }
    }
}

/// What is said about the multi-aligner engine.
pub open spec fn multi_message(f: MultiFactsView, token_provided: bool) -> Seq<char> {
    if f.venv_exists && multi_packages(f) && token_provided {
        "Multi-Aligner local engine is ready"@
    } else if !f.venv_exists {
        "Multi-Aligner dependencies are not installed"@
    } else if !f.imports_ok {
        if f.missing_modules.len() > 0 {
            "Multi-Aligner packages are incomplete (missing imports: "@ + join(
                f.missing_modules,
                ", "@,
            ) + ")"@
        } else {
            "Multi-Aligner packages are incomplete"@
        }
    } else if !f.phonemizer_ok {
        "Multi-Aligner phonemizer dependency is incomplete"@
    } else {
        match f.data_error {
            Some(e) => "Multi-Aligner data files are invalid: "@ + e,
            None => if !token_provided {
                "Multi-Aligner requires a Hugging Face token"@
            } else {
                "Multi-Aligner packages are incomplete"@
            },
        }
    }
}

/// What is said about both engines together.
pub open spec fn overall_message(
    legacy: LegacyFactsView,
    multi: MultiFactsView,
    token_provided: bool,
) -> Seq<char> {
    let legacy_ready = legacy.venv_exists && legacy_packages(legacy);
    let multi_usable = multi.venv_exists && multi_packages(multi) && token_provided;
    if legacy_ready || multi_usable {
        "Local segmentation is ready"@
    } else if !legacy.venv_exists && !multi.venv_exists {
        "Local engines are not installed yet. Install dependencies for Legacy Whisper and/or Multi-Aligner."@
    } else {
        "Local engines need setup or a valid Hugging Face token for Multi-Aligner."@
    }
}

/// The report on two engines that were looked at. The legacy engine is usable
/// once it is ready; the multi-aligner needs an access token on top of that.
pub open spec fn checked_report(
    legacy: LegacyFactsView,
    multi: MultiFactsView,
    token_provided: bool,
) -> ReadinessReportView {
    let legacy_ready = legacy.venv_exists && legacy_packages(legacy);
    let multi_ready = multi.venv_exists && multi_packages(multi);
    let multi_usable = multi_ready && token_provided;
    ReadinessReportView {
        ready: legacy_ready || multi_usable,
        python_installed: true,
        packages_installed: legacy_ready || multi_ready,
        message: overall_message(legacy, multi, token_provided),
        legacy: EngineReadinessView {
            ready: legacy_ready,
            venv_exists: legacy.venv_exists,
            packages_installed: legacy_packages(legacy),
            token_required: false,
            token_provided: false,
            usable: legacy_ready,
            message: legacy_message(legacy),
        },
        multi: EngineReadinessView {
            ready: multi_ready,
            venv_exists: multi.venv_exists,
            packages_installed: multi_packages(multi),
            token_required: true,
            token_provided,
            usable: multi_usable,
            message: multi_message(multi, token_provided),
        },
    }
}

/// The readiness report for what a check found.
pub open spec fn readiness(input: ReadinessInputView, token_provided: bool) -> ReadinessReportView {
    match input {
        ReadinessInputView::PythonMissing => nothing_ready(
            false,
            token_provided,
            "Python is not installed. Please install Python 3.10+ from python.org"@,
            "Python not installed"@,
        ),
        ReadinessInputView::PathsUnresolved { error } => nothing_ready(
            true,
            token_provided,
            "Failed to resolve local env paths: "@ + error,
            "Failed to resolve local env path"@,
        ),
        ReadinessInputView::TimedOut => nothing_ready(
            true,
            token_provided,
            "Check timed out - packages may need to be installed"@,
            "Check timed out"@,
        ),
        ReadinessInputView::Checked { legacy, multi } => checked_report(
            legacy,
            multi,
            token_provided,
        ),
    }
}

/// The local engines are ready exactly when one of them is usable.
pub proof fn lemma_ready_iff_some_engine_usable(input: ReadinessInputView, token_provided: bool)
    ensures
        readiness(input, token_provided).ready == (readiness(input, token_provided).legacy.usable
            || readiness(input, token_provided).multi.usable),
{
}

/// Without an access token the multi-aligner is not usable, however complete
/// its installation is.
pub proof fn lemma_multi_aligner_needs_token(input: ReadinessInputView)
    ensures
        !readiness(input, false).multi.usable,
{
}

/// A check that did not finish in time reports that nothing is ready.
pub proof fn lemma_timeout_reports_not_ready(token_provided: bool)
    ensures
        !readiness(ReadinessInputView::TimedOut, token_provided).ready,
        !readiness(ReadinessInputView::TimedOut, token_provided).legacy.usable,
        !readiness(ReadinessInputView::TimedOut, token_provided).multi.usable,
{
}

fn report_nothing_ready(
    python_installed: bool,
    token_provided: bool,
    message: String,
    engine_message: &str,
) -> (r: ReadinessReport)
    ensures
        r@ == nothing_ready(python_installed, token_provided, message@, engine_message@),
{
    ReadinessReport {
        ready: false,
        python_installed,
        packages_installed: false,
        message,
        legacy: EngineReadiness {
            ready: false,
            venv_exists: false,
            packages_installed: false,
            token_required: false,
            token_provided: false,
            usable: false,
            message: copy_str(engine_message),
        },
        multi: EngineReadiness {
            ready: false,
            venv_exists: false,
            packages_installed: false,
            token_required: true,
            token_provided,
            usable: false,
            message: copy_str(engine_message),
        },
    }
}

fn joined_modules(modules: &Vec<String>) -> (r: Vec<char>)
    ensures
        r@ == join(strings_view(modules@), ", "@),
{
    let mut parts: Vec<Vec<char>> = Vec::new();
    let mut i: usize = 0;
    while i < modules.len()
        invariant
            i <= modules.len(),
            texts_of(parts@) == strings_view(modules@).subrange(0, i as int),
        decreases modules.len() - i,
    {
        let ghost before = texts_of(parts@);
        let part = str_chars(modules[i].as_str());
        parts.push(part);
        assert(texts_of(parts@) == before.push(strings_view(modules@)[i as int]));
        i += 1;
    }
    assert(strings_view(modules@).subrange(0, modules.len() as int) == strings_view(modules@));
    let sep = str_chars(", ");
    join_chars(&parts, &sep)
}

fn say_legacy(f: &LegacyFacts) -> (r: String)
    ensures
        r@ == legacy_message(f@),
{
    let packages = f.imports_ok && f.versions_ok;
    if f.venv_exists && packages {
        return copy_str("Legacy Whisper local engine is ready");
    }
    if !f.venv_exists {
        return copy_str("Legacy Whisper dependencies are not installed");
    }
    if f.missing_modules.len() > 0 {
        let mut out = str_chars("Legacy Whisper packages are incomplete (missing imports: ");
        let listed = joined_modules(&f.missing_modules);
        append_chars(&mut out, &listed);
        append_str(&mut out, ")");
        return string_from_chars(&out);
    }
    match &f.versions_message {
        Some(m) => {
            let mut out = str_chars("Legacy Whisper packages need reinstall (");
            append_str(&mut out, m.as_str());
            append_str(&mut out, ")");
            string_from_chars(&out)
        },
        None => copy_str("Legacy Whisper packages are incomplete"),
    }
}

fn say_multi(f: &MultiFacts, token_provided: bool) -> (r: String)
    ensures
        r@ == multi_message(f@, token_provided),
{
    let packages = f.imports_ok && f.phonemizer_ok && f.data_error.is_none();
    if f.venv_exists && packages && token_provided {
        return copy_str("Multi-Aligner local engine is ready");
    }
    if !f.venv_exists {
        return copy_str("Multi-Aligner dependencies are not installed");
    }
    if !f.imports_ok {
        if f.missing_modules.len() > 0 {
            let mut out = str_chars("Multi-Aligner packages are incomplete (missing imports: ");
            let listed = joined_modules(&f.missing_modules);
            append_chars(&mut out, &listed);
            append_str(&mut out, ")");
            return string_from_chars(&out);
        }
        return copy_str("Multi-Aligner packages are incomplete");
    }
    if !f.phonemizer_ok {
        return copy_str("Multi-Aligner phonemizer dependency is incomplete");
    }
    match &f.data_error {
        Some(e) => {
            let mut out = str_chars("Multi-Aligner data files are invalid: ");
            append_str(&mut out, e.as_str());
            string_from_chars(&out)
        },
        None => {
            if !token_provided {
                copy_str("Multi-Aligner requires a Hugging Face token")
            } else {
                copy_str("Multi-Aligner packages are incomplete")
            }
        },
    }
}

/// Reports the readiness of the local engines from what a check found.
/// `hf_token` is the access token that the caller has, if any.
pub fn check_local_segmentation_ready(input: &ReadinessInput, hf_token: Option<&str>) -> (r: ReadinessReport)
    ensures
        r@ == readiness(input@, token_present(opt_view(hf_token))),
{
    let token_provided = has_token(hf_token);
    match input {
        ReadinessInput::PythonMissing => report_nothing_ready(
            false,
            token_provided,
            copy_str("Python is not installed. Please install Python 3.10+ from python.org"),
            "Python not installed",
        ),
        ReadinessInput::PathsUnresolved { error } => {
            let mut out = str_chars("Failed to resolve local env paths: ");
            append_str(&mut out, error.as_str());
            report_nothing_ready(
                true,
                token_provided,
                string_from_chars(&out),
                "Failed to resolve local env path",
            )
        },
        ReadinessInput::TimedOut => report_nothing_ready(
            true,
            token_provided,
            copy_str("Check timed out - packages may need to be installed"),
            "Check timed out",
        ),
        ReadinessInput::Checked { legacy, multi } => {
            let legacy_packages = legacy.imports_ok && legacy.versions_ok;
            let multi_packages = multi.imports_ok && multi.phonemizer_ok
                && multi.data_error.is_none();
            let legacy_ready = legacy.venv_exists && legacy_packages;
            let multi_ready = multi.venv_exists && multi_packages;
            let multi_usable = multi_ready && token_provided;
            let message = if legacy_ready || multi_usable {
                copy_str("Local segmentation is ready")
            } else if !legacy.venv_exists && !multi.venv_exists {
                copy_str(
                    "Local engines are not installed yet. Install dependencies for Legacy Whisper and/or Multi-Aligner.",
                )
            } else {
                copy_str("Local engines need setup or a valid Hugging Face token for Multi-Aligner.")
            };
            ReadinessReport {
                ready: legacy_ready || multi_usable,
                python_installed: true,
                packages_installed: legacy_ready || multi_ready,
                message,
                legacy: EngineReadiness {
                    ready: legacy_ready,
                    venv_exists: legacy.venv_exists,
                    packages_installed: legacy_packages,
                    token_required: false,
                    token_provided: false,
                    usable: legacy_ready,
                    message: say_legacy(legacy),
                },
                multi: EngineReadiness {
                    ready: multi_ready,
                    venv_exists: multi.venv_exists,
                    packages_installed: multi_packages,
                    token_required: true,
                    token_provided,
                    usable: multi_usable,
                    message: say_multi(multi, token_provided),
                },
            }
        },
    }
}

} // verus!
