//! The isolated interpreter environments of the local engines: which system
//! interpreter qualifies, where an engine's environment lies, and the steps by
//! which it is created or replaced. Running interpreters and touching the disk
//! is the caller's part; it reports what it saw and is told what to do next.

use vstd::prelude::*;
use crate::error::{
    interpreter_views, EnvironmentFault, EnvironmentFaultView, InterpreterView, PythonInterpreter,
    SegmentationError, SegmentationErrorView,
};
use crate::json::{
    json_document, json_text_of_strings, node_member, parse_value, print_strings, read_string_list,
    read_string_member, string_list, string_member, JsonDoc, JsonDocView, JsonNode, JsonNodeView,
};
use crate::text::{
    append_str, copy_str, dedup, dedupe_strings, parse_unsigned, push_str_item, str_chars,
    string_from_chars, strings_view, trim, trim_chars, unsigned_value,
};
use crate::types::{LocalSegmentationEngine, Platform};

verus! {

/// The major version of the oldest interpreter that the local engines run on.
pub const MIN_LOCAL_PYTHON_MAJOR: u8 = 3;

/// Its minor version; see [`MIN_LOCAL_PYTHON_MAJOR`].
pub const MIN_LOCAL_PYTHON_MINOR: u8 = 10;

/// Whether the version `major.minor` is at least `min_major.min_minor`.
pub open spec fn version_meets_min(major: u8, minor: u8, min_major: u8, min_minor: u8) -> bool {
    major > min_major || (major == min_major && minor >= min_minor)
}

/// Checks whether an interpreter version satisfies a required minimum.
pub fn python_version_meets_min(major: u8, minor: u8, min_major: u8, min_minor: u8) -> (ok: bool)
    ensures
        ok == version_meets_min(major, minor, min_major, min_minor),
{
    major > min_major || (major == min_major && minor >= min_minor)
}

/// The interpreter commands to try on a system, most wanted first.
pub open spec fn raw_candidates(platform: Platform) -> Seq<Seq<char>> {
    match platform {
        Platform::Windows => seq!["python"@],
        Platform::MacOs => seq![
            "/opt/homebrew/bin/python3.12"@,
            "/opt/homebrew/bin/python3.11"@,
            "/opt/homebrew/bin/python3.10"@,
            "/usr/local/bin/python3.12"@,
            "/usr/local/bin/python3.11"@,
            "/usr/local/bin/python3.10"@,
            "python3.12"@,
            "python3.11"@,
            "python3.10"@,
            "/opt/homebrew/bin/python3"@,
            "/usr/local/bin/python3"@,
            "python3"@,
            "python"@,
        ],
        Platform::Other => seq![
            "python3.12"@,
            "python3.11"@,
            "python3.10"@,
            "python3"@,
            "python"@,
        ],
    }
}

/// The interpreter commands to try on a system, most wanted first, each once.
pub fn python_command_candidates(platform: Platform) -> (r: Vec<String>)
    ensures
        strings_view(r@) == dedup(raw_candidates(platform)),
{
    let mut list: Vec<String> = Vec::new();
    match platform {
        Platform::Windows => {
            push_str_item(&mut list, "python");
        },
        Platform::MacOs => {
            push_str_item(&mut list, "/opt/homebrew/bin/python3.12");
            push_str_item(&mut list, "/opt/homebrew/bin/python3.11");
            push_str_item(&mut list, "/opt/homebrew/bin/python3.10");
            push_str_item(&mut list, "/usr/local/bin/python3.12");
            push_str_item(&mut list, "/usr/local/bin/python3.11");
            push_str_item(&mut list, "/usr/local/bin/python3.10");
            push_str_item(&mut list, "python3.12");
            push_str_item(&mut list, "python3.11");
            push_str_item(&mut list, "python3.10");
            push_str_item(&mut list, "/opt/homebrew/bin/python3");
            push_str_item(&mut list, "/usr/local/bin/python3");
            push_str_item(&mut list, "python3");
            push_str_item(&mut list, "python");
        },
        Platform::Other => {
            push_str_item(&mut list, "python3.12");
            push_str_item(&mut list, "python3.11");
            push_str_item(&mut list, "python3.10");
            push_str_item(&mut list, "python3");
            push_str_item(&mut list, "python");
        },
    }
    assert(strings_view(list@) == raw_candidates(platform));
    dedupe_strings(list)
}

/// The command that tells whether any interpreter is installed at all.
pub fn get_system_python_cmd(platform: Platform) -> (r: &'static str)
    ensures
        r@ == match platform {
            Platform::Windows => "python"@,
            _ => "python3"@,
        },
{
    match platform {
        Platform::Windows => "python",
        _ => "python3",
    }
}

/// The least byte of an unsigned number.
pub open spec fn low_byte(n: u64) -> u8 {
    (n % 256) as u8
}

/// The number under `key` of a JSON object, cut to its least byte. `None` when
/// the member is missing or is not an unsigned integer.
pub open spec fn byte_member(node: JsonNodeView, key: Seq<char>) -> Option<u8> {
    match node_member(node, key) {
        None => None,
        Some(t) => match json_document(t) {
            Ok(doc) => match doc.node {
                JsonNodeView::Number(digits) => match unsigned_value(digits) {
                    Some(n) => Some(low_byte(n)),
                    None => None,
                },
                _ => None,
            },
            Err(_) => None,
        },
    }
}

/// Reads the number under `key`, cut to its least byte.
pub fn read_byte_member(node: &JsonNode, key: &str) -> (r: Option<u8>)
    ensures
        r == byte_member(node@, key@),
{
    match node.member(key) {
        None => None,
        Some(t) => match parse_value(t.as_str()) {
            Ok(doc) => match &doc.node {
                JsonNode::Number(digits) => {
                    let chars = str_chars(digits.as_str());
                    match parse_unsigned(&chars) {
                        Some(n) => Some((n % 256) as u8),
                        None => None,
                    }
                },
                _ => None,
            },
            Err(_) => None,
        },
    }
}

/// The version that an interpreter printed: the `major`, `minor` and `patch`
/// members of the JSON object on its standard output.
pub open spec fn printed_version(stdout: Seq<char>) -> Option<(u8, u8, u8)> {
    match json_document(trim(stdout)) {
        Err(_) => None,
        Ok(doc) => match (
            byte_member(doc.node, "major"@),
            byte_member(doc.node, "minor"@),
            byte_member(doc.node, "patch"@),
        ) {
            (Some(major), Some(minor), Some(patch)) => Some((major, minor, patch)),
            _ => None,
        },
    }
}

/// Parses `stdout` after trimming it.
fn parse_trimmed(stdout: &str) -> (r: Result<JsonDoc, String>)
    ensures
        match r {
            Ok(doc) => json_document(trim(stdout@)) == Ok::<JsonDocView, Seq<char>>(doc@),
            Err(e) => json_document(trim(stdout@)) == Err::<JsonDocView, Seq<char>>(e@),
        },
{
    let chars = str_chars(stdout);
    let trimmed = trim_chars(&chars);
    let text = string_from_chars(&trimmed);
    parse_value(text.as_str())
}

/// Reads the version out of what an interpreter printed when asked for it.
/// `success` is whether the interpreter exited with success.
pub fn read_python_version(success: bool, stdout: &str) -> (r: Option<(u8, u8, u8)>)
    ensures
        r == if success {
            printed_version(stdout@)
        } else {
            None
        },
{
    if !success {
        return None;
    }
    match parse_trimmed(stdout) {
        Err(_) => None,
        Ok(doc) => {
            let major = read_byte_member(&doc.node, "major");
            let minor = read_byte_member(&doc.node, "minor");
            let patch = read_byte_member(&doc.node, "patch");
            match (major, minor, patch) {
                (Some(a), Some(b), Some(c)) => Some((a, b, c)),
                _ => None,
            }
        },
    }
}

/// The interpreter that a probe of `command` found: its executable and version
/// as printed on its standard output.
pub open spec fn probed_interpreter(command: Seq<char>, stdout: Seq<char>) -> Option<
    InterpreterView,
> {
    match json_document(trim(stdout)) {
        Err(_) => None,
        Ok(doc) => match (
            string_member(doc.node, "executable"@),
            byte_member(doc.node, "major"@),
            byte_member(doc.node, "minor"@),
            byte_member(doc.node, "patch"@),
        ) {
            (Some(executable), Some(major), Some(minor), Some(patch)) => Some(
                InterpreterView { command, executable, major, minor, patch },
            ),
            _ => None,
        },
    }
}

/// The view of an optional interpreter.
pub open spec fn interpreter_view(p: Option<PythonInterpreter>) -> Option<InterpreterView> {
    match p {
        Some(i) => Some(i@),
        None => None,
    }
}

/// Reads what a probe of `command` found. `success` is whether the
/// interpreter exited with success.
pub fn probe_python_interpreter(command: &str, success: bool, stdout: &str) -> (r: Option<
    PythonInterpreter,
>)
    ensures
        interpreter_view(r) == if success {
            probed_interpreter(command@, stdout@)
        } else {
            None
        },
{
    if !success {
        return None;
    }
    match parse_trimmed(stdout) {
        Err(_) => None,
        Ok(doc) => {
            let executable = read_string_member(&doc.node, "executable");
            let major = read_byte_member(&doc.node, "major");
            let minor = read_byte_member(&doc.node, "minor");
            let patch = read_byte_member(&doc.node, "patch");
            match (executable, major, minor, patch) {
                (Some(executable), Some(major), Some(minor), Some(patch)) => Some(
                    PythonInterpreter {
                        command: copy_str(command),
                        executable,
                        major,
                        minor,
                        patch,
                    },
                ),
                _ => None,
            }
        },
    }
}

/// Whether an interpreter is recent enough.
pub open spec fn qualifies(p: InterpreterView, min_major: u8, min_minor: u8) -> bool {
    version_meets_min(p.major, p.minor, min_major, min_minor)
}

/// The views of a list of probe results.
pub open spec fn probe_views(probes: Seq<Option<PythonInterpreter>>) -> Seq<
    Option<InterpreterView>,
> {
    Seq::new(probes.len(), |i: int| interpreter_view(probes[i]))
}

/// The index of the first probe that found a qualifying interpreter, or the
/// number of probes when none did.
pub open spec fn first_qualifying(
    probes: Seq<Option<InterpreterView>>,
    min_major: u8,
    min_minor: u8,
) -> int
    decreases probes.len(),
{
    if probes.len() == 0 {
        0
    } else if probes[0] matches Some(p) && qualifies(p, min_major, min_minor) {
        0
    } else {
        1 + first_qualifying(probes.drop_first(), min_major, min_minor)
    }
}

/// The interpreters that the probes found, in order.
pub open spec fn discovered(probes: Seq<Option<InterpreterView>>) -> Seq<InterpreterView>
    decreases probes.len(),
{
    if probes.len() == 0 {
        Seq::empty()
    } else {
        match probes.last() {
            Some(p) => discovered(probes.drop_last()).push(p),
            None => discovered(probes.drop_last()),
        }
    }
}

/// The outcome of interpreter discovery, given the probes of the candidate
/// commands in order: the first interpreter that qualifies, else a failure that
/// lists every interpreter found.
pub open spec fn discovery(
    probes: Seq<Option<InterpreterView>>,
    min_major: u8,
    min_minor: u8,
) -> Result<InterpreterView, SegmentationErrorView> {
    let at = first_qualifying(probes, min_major, min_minor);
    if 0 <= at < probes.len() {
        Ok(probes[at]->0)
    } else {
        Err(
            SegmentationErrorView::NoCompatibleInterpreter {
                min_major,
                min_minor,
                found: discovered(probes),
            },
        )
    }
}

/// `first_qualifying` is the least index of a qualifying probe.
pub proof fn lemma_first_qualifying(
    probes: Seq<Option<InterpreterView>>,
    min_major: u8,
    min_minor: u8,
)
    ensures
        0 <= first_qualifying(probes, min_major, min_minor) <= probes.len(),
        forall|j: int|
            0 <= j < first_qualifying(probes, min_major, min_minor) ==> !(#[trigger] probes[j]
                matches Some(p) && qualifies(p, min_major, min_minor)),
        first_qualifying(probes, min_major, min_minor) < probes.len() ==> (probes[first_qualifying(
            probes,
            min_major,
            min_minor,
        )] matches Some(p) && qualifies(p, min_major, min_minor)),
    decreases probes.len(),
{
    if probes.len() > 0 && !(probes[0] matches Some(p) && qualifies(p, min_major, min_minor)) {
        let rest = probes.drop_first();
        lemma_first_qualifying(rest, min_major, min_minor);
        assert forall|j: int|
            0 <= j < first_qualifying(probes, min_major, min_minor) implies !(#[trigger] probes[j]
            matches Some(p) && qualifies(p, min_major, min_minor)) by {
            if j > 0 {
                assert(probes[j] == rest[j - 1]);
            }
        }
    }
}

proof fn lemma_first_qualifying_is(
    probes: Seq<Option<InterpreterView>>,
    min_major: u8,
    min_minor: u8,
    k: int,
)
    requires
        0 <= k <= probes.len(),
        forall|j: int|
            0 <= j < k ==> !(#[trigger] probes[j] matches Some(p) && qualifies(
                p,
                min_major,
                min_minor,
            )),
        k < probes.len() ==> (probes[k] matches Some(p) && qualifies(p, min_major, min_minor)),
    ensures
        first_qualifying(probes, min_major, min_minor) == k,
{
    lemma_first_qualifying(probes, min_major, min_minor);
}

/// A copy of an interpreter record.
pub fn copy_interpreter(p: &PythonInterpreter) -> (r: PythonInterpreter)
    ensures
        r@ == p@,
{
    PythonInterpreter {
        command: p.command.clone(),
        executable: p.executable.clone(),
        major: p.major,
        minor: p.minor,
        patch: p.patch,
    }
}

/// Picks the system interpreter from the probes of the candidate commands, in
/// the order in which they were tried.
pub fn resolve_system_python(
    probes: &Vec<Option<PythonInterpreter>>,
    min_major: u8,
    min_minor: u8,
) -> (r: Result<PythonInterpreter, SegmentationError>)
    ensures
        match r {
            Ok(p) => discovery(probe_views(probes@), min_major, min_minor) == Ok::<
                InterpreterView,
                SegmentationErrorView,
            >(p@),
            Err(e) => discovery(probe_views(probes@), min_major, min_minor) == Err::<
                InterpreterView,
                SegmentationErrorView,
            >(e@),
        },
{
    let ghost views = probe_views(probes@);
    let mut found: Vec<PythonInterpreter> = Vec::new();
    let mut i: usize = 0;
    while i < probes.len()
        invariant
            i <= probes.len(),
            views == probe_views(probes@),
            interpreter_views(found@) == discovered(views.subrange(0, i as int)),
            forall|j: int|
                0 <= j < i ==> !(#[trigger] views[j] matches Some(p) && qualifies(
                    p,
                    min_major,
                    min_minor,
                )),
        decreases probes.len() - i,
    {
        proof {
            assert(views.subrange(0, i + 1).drop_last() == views.subrange(0, i as int));
        }
        match &probes[i] {
            Some(p) => {
                if python_version_meets_min(p.major, p.minor, min_major, min_minor) {
                    proof {
                        lemma_first_qualifying_is(views, min_major, min_minor, i as int);
                    }
                    return Ok(copy_interpreter(p));
                }
                found.push(copy_interpreter(p));
            },
            None => {},
        }
        i += 1;
    }
    proof {
        assert(views.subrange(0, probes.len() as int) == views);
        lemma_first_qualifying_is(views, min_major, min_minor, probes.len() as int);
    }
    Err(SegmentationError::NoCompatibleInterpreter { min_major, min_minor, found })
}

/// Whether a probe result ends the search for a system interpreter.
pub fn ends_search(probe: &Option<PythonInterpreter>, min_major: u8, min_minor: u8) -> (r: bool)
    ensures
        r == (interpreter_view(*probe) matches Some(p) && qualifies(p, min_major, min_minor)),
{
    match probe {
        Some(p) => python_version_meets_min(p.major, p.minor, min_major, min_minor),
        None => false,
    }
}

/// The character that separates the parts of a path on a system.
pub open spec fn separator(platform: Platform) -> char {
    match platform {
        Platform::Windows => '\\',
        _ => '/',
    }
}

/// Whether `c` separates the parts of a path on a system.
pub open spec fn is_separator(c: char, platform: Platform) -> bool {
    c == '/' || (platform == Platform::Windows && c == '\\')
}

/// The path of `part` under the directory `base`: a separator is put between
/// them unless `base` is empty or already ends with one.
pub open spec fn joined_path(base: Seq<char>, part: Seq<char>, platform: Platform) -> Seq<char> {
    if base.len() == 0 || is_separator(base.last(), platform) {
        base + part
    } else {
        base.push(separator(platform)) + part
    }
}

/// Appends `part` to the path in `path`.
pub fn push_path(path: &mut Vec<char>, part: &str, platform: Platform)
    ensures
        final(path)@ == joined_path(old(path)@, part@, platform),
{
    let n: usize = path.len();
    if n > 0 {
        let last: char = path[n - 1];
        let ends = last == '/' || (matches!(platform, Platform::Windows) && last == '\\');
        if !ends {
            match platform {
                Platform::Windows => path.push('\\'),
                _ => path.push('/'),
            }
        }
    }
    append_str(path, part);
}

/// Where an engine's environment lies under the application's data directory.
pub open spec fn venv_dir_spec(
    app_data_dir: Seq<char>,
    engine: LocalSegmentationEngine,
    platform: Platform,
) -> Seq<char> {
    joined_path(
        joined_path(app_data_dir, "python_envs"@, platform),
        "seg-"@ + engine.key(),
        platform,
    )
}

/// Where an engine's environment lies under the application's data directory.
pub fn get_engine_venv_path(
    app_data_dir: &str,
    engine: LocalSegmentationEngine,
    platform: Platform,
) -> (r: String)
    ensures
        r@ == venv_dir_spec(app_data_dir@, engine, platform),
{
    let mut path = str_chars(app_data_dir);
    push_path(&mut path, "python_envs", platform);
    let mut name: Vec<char> = Vec::new();
    append_str(&mut name, "seg-");
    append_str(&mut name, engine.as_key());
    let name_text = string_from_chars(&name);
    push_path(&mut path, name_text.as_str(), platform);
    string_from_chars(&path)
}

/// Where the interpreter lies inside an environment.
pub open spec fn venv_python_spec(venv_dir: Seq<char>, platform: Platform) -> Seq<char> {
    match platform {
        Platform::Windows => joined_path(
            joined_path(venv_dir, "Scripts"@, platform),
            "python.exe"@,
            platform,
        ),
        _ => joined_path(joined_path(venv_dir, "bin"@, platform), "python3"@, platform),
    }
}

/// Where the interpreter lies inside an environment.
pub fn get_venv_python_exe(venv_dir: &str, platform: Platform) -> (r: String)
    ensures
        r@ == venv_python_spec(venv_dir@, platform),
{
    let mut path = str_chars(venv_dir);
    match platform {
        Platform::Windows => {
            push_path(&mut path, "Scripts", platform);
            push_path(&mut path, "python.exe", platform);
        },
        _ => {
            push_path(&mut path, "bin", platform);
            push_path(&mut path, "python3", platform);
        },
    }
    string_from_chars(&path)
}

/// The environment variables that carry an access token to a subprocess: the
/// trimmed token under each name that a downstream library may look for, and
/// nothing at all for a blank token.
pub open spec fn token_env_spec(token: Seq<char>) -> Seq<(Seq<char>, Seq<char>)> {
    if trim(token).len() == 0 {
        Seq::empty()
    } else {
        seq![
            ("HF_TOKEN"@, trim(token)),
            ("HF_HUB_TOKEN"@, trim(token)),
            ("HUGGING_FACE_HUB_TOKEN"@, trim(token)),
        ]
    }
}

/// The views of a list of pairs of strings.
pub open spec fn pairs_view(pairs: Seq<(String, String)>) -> Seq<(Seq<char>, Seq<char>)> {
    Seq::new(pairs.len(), |i: int| (pairs[i].0@, pairs[i].1@))
}

/// The environment variables that carry the access token to a subprocess.
pub fn apply_hf_token_env(token: &str) -> (r: Vec<(String, String)>)
    ensures
        pairs_view(r@) == token_env_spec(token@),
{
    let chars = str_chars(token);
    let trimmed = trim_chars(&chars);
    let mut env: Vec<(String, String)> = Vec::new();
    if trimmed.len() == 0 {
        return env;
    }
    env.push((copy_str("HF_TOKEN"), string_from_chars(&trimmed)));
    env.push((copy_str("HF_HUB_TOKEN"), string_from_chars(&trimmed)));
    env.push((copy_str("HUGGING_FACE_HUB_TOKEN"), string_from_chars(&trimmed)));
    env
}

/// The access token of a request, ready for use: trimmed, and `None` when
/// nothing is left.
pub fn normalize_token(token: Option<&str>) -> (r: Option<String>)
    ensures
        match r {
            Some(t) => token matches Some(raw) && trim(raw@).len() > 0 && t@ == trim(raw@),
            None => token matches Some(raw) ==> trim(raw@).len() == 0,
        },
{
    match token {
        Some(raw) => {
            let chars = str_chars(raw);
            let trimmed = trim_chars(&chars);
            if trimmed.len() > 0 {
                Some(string_from_chars(&trimmed))
            } else {
                None
            }
        },
        None => None,
    }
}

/// Resolves the interpreter of an engine that is already installed. This
/// never installs anything: without an interpreter the engine is reported as
/// not installed.
pub fn resolve_engine_python_exe(
    engine: LocalSegmentationEngine,
    python_exe: &str,
    exists: bool,
) -> (r: Result<String, SegmentationError>)
    ensures
        match r {
            Ok(path) => exists && path@ == python_exe@,
            Err(e) => !exists && e@ == SegmentationErrorView::EnvironmentNotInstalled { engine },
        },
{
    if exists {
        Ok(copy_str(python_exe))
    } else {
        Err(SegmentationError::EnvironmentNotInstalled { engine })
    }
}

/// Where the creation of an environment stands.
#[derive(Debug, Clone, Copy, PartialEq, Eq, Structural)]
pub enum VenvPhase {
    /// Nothing is known yet: the environment's interpreter has to be looked at.
    Start,
    /// The outdated environment is being deleted.
    Removing,
    /// A system interpreter is being looked for.
    Finding,
    /// The environment is being created.
    Creating,
    /// The new environment's interpreter has to be looked at.
    Revalidating,
    /// The environment is usable.
    Ready,
    /// The environment could not be made usable.
    Failed,
}

/// What the caller saw when it did what it was asked.
#[derive(Debug, PartialEq, Eq)]
pub enum VenvEvent {
    /// The environment's interpreter was looked at: whether it exists, and the
    /// version it reports, if it reports one.
    Inspected { exists: bool, version: Option<(u8, u8, u8)> },
    /// The environment's directory was deleted, or could not be.
    Removed { error: Option<String> },
    /// The search for a system interpreter ended.
    Searched { found: Result<PythonInterpreter, SegmentationError> },
    /// The tool that creates the environment ended; `output` is what it wrote.
    Created { success: bool, output: String },
}

/// What the caller is asked to do next.
#[derive(Debug, PartialEq, Eq)]
pub enum VenvAction {
    /// Look at the environment's interpreter: does it exist, which version?
    Inspect,
    /// Delete the environment's directory with all it holds.
    Remove,
    /// Look for a system interpreter.
    Search,
    /// Create the environment with this interpreter command.
    Create { command: String },
    /// Nothing more: the environment is usable.
    Done,
    /// Nothing more: the environment could not be made usable.
    Fail { error: SegmentationError },
}

/// An event as the contracts see it.
pub enum VenvEventView {
    Inspected { exists: bool, version: Option<(u8, u8, u8)> },
    Removed { error: Option<Seq<char>> },
    Searched { found: Result<InterpreterView, SegmentationErrorView> },
    Created { success: bool, output: Seq<char> },
}

/// An action as the contracts see it.
pub enum VenvActionView {
    Inspect,
    Remove,
    Search,
    Create { command: Seq<char> },
    Done,
    Fail { error: SegmentationErrorView },
}

impl View for VenvEvent {
    type V = VenvEventView;

    open spec fn view(&self) -> VenvEventView {
        match self {
            VenvEvent::Inspected { exists, version } => VenvEventView::Inspected {
                exists: *exists,
                version: *version,
            },
            VenvEvent::Removed { error } => VenvEventView::Removed {
                error: match error {
                    Some(e) => Some(e@),
                    None => None,
                },
            },
            VenvEvent::Searched { found } => VenvEventView::Searched {
                found: match found {
                    Ok(p) => Ok(p@),
                    Err(e) => Err(e@),
                },
            },
            VenvEvent::Created { success, output } => VenvEventView::Created {
                success: *success,
                output: output@,
            },
        }
    }
}

impl View for VenvAction {
    type V = VenvActionView;

    open spec fn view(&self) -> VenvActionView {
        match self {
            VenvAction::Inspect => VenvActionView::Inspect,
            VenvAction::Remove => VenvActionView::Remove,
            VenvAction::Search => VenvActionView::Search,
            VenvAction::Create { command } => VenvActionView::Create { command: command@ },
            VenvAction::Done => VenvActionView::Done,
            VenvAction::Fail { error } => VenvActionView::Fail { error: error@ },
        }
    }
}

/// The failure of an engine's environment with the given fault.
pub open spec fn corrupted(engine: LocalSegmentationEngine, fault: EnvironmentFaultView) -> (
    VenvPhase,
    VenvActionView,
) {
    (
        VenvPhase::Failed,
        VenvActionView::Fail {
            error: SegmentationErrorView::EnvironmentCorrupted { engine, cause: fault },
        },
    )
}

/// Whether an inspection found an interpreter that is recent enough.
pub open spec fn inspection_passes(exists: bool, version: Option<(u8, u8, u8)>) -> bool {
    exists && (version matches Some(v) && version_meets_min(
        v.0,
        v.1,
        MIN_LOCAL_PYTHON_MAJOR,
        MIN_LOCAL_PYTHON_MINOR,
    ))
}

/// The next phase and what to do, given what the caller saw.
///
/// An existing environment is kept only if its interpreter is recent enough;
/// otherwise it is deleted and created anew, never upgraded in place. A new
/// environment counts as usable only after its own interpreter was looked at
/// and found recent enough.
pub open spec fn venv_step(
    phase: VenvPhase,
    engine: LocalSegmentationEngine,
    event: VenvEventView,
) -> (
    VenvPhase,
    VenvActionView,
) {
    match (phase, event) {
        (VenvPhase::Start, VenvEventView::Inspected { exists, version }) => {
            if inspection_passes(exists, version) {
                (VenvPhase::Ready, VenvActionView::Done)
            } else if exists {
                (VenvPhase::Removing, VenvActionView::Remove)
            } else {
                (VenvPhase::Finding, VenvActionView::Search)
            }
        },
        (VenvPhase::Removing, VenvEventView::Removed { error }) => match error {
            None => (VenvPhase::Finding, VenvActionView::Search),
            Some(detail) => corrupted(engine, EnvironmentFaultView::ReplaceFailed { detail }),
        },
        (VenvPhase::Finding, VenvEventView::Searched { found }) => match found {
            Ok(p) => (VenvPhase::Creating, VenvActionView::Create { command: p.command }),
            Err(error) => (VenvPhase::Failed, VenvActionView::Fail { error }),
        },
        (VenvPhase::Creating, VenvEventView::Created { success, output }) => {
            if success {
                (VenvPhase::Revalidating, VenvActionView::Inspect)
            } else {
                corrupted(engine, EnvironmentFaultView::CreateFailed { detail: output })
            }
        },
        (VenvPhase::Revalidating, VenvEventView::Inspected { exists, version }) => {
            if !exists {
                corrupted(engine, EnvironmentFaultView::InterpreterMissing)
            } else {
                match version {
                    None => corrupted(engine, EnvironmentFaultView::VersionUnknown),
                    Some(v) => if version_meets_min(
                        v.0,
                        v.1,
                        MIN_LOCAL_PYTHON_MAJOR,
                        MIN_LOCAL_PYTHON_MINOR,
                    ) {
                        (VenvPhase::Ready, VenvActionView::Done)
                    } else {
                        corrupted(
                            engine,
                            EnvironmentFaultView::VersionTooOld { major: v.0, minor: v.1 },
                        )
                    },
                }
            }
        },
        _ => (
            VenvPhase::Failed,
            VenvActionView::Fail { error: SegmentationErrorView::UnexpectedEvent },
        ),
    }
}

/// How many more reports a phase can take before the creation has ended.
pub open spec fn reports_ahead(phase: VenvPhase) -> nat {
    match phase {
        VenvPhase::Start => 5,
        VenvPhase::Removing => 4,
        VenvPhase::Finding => 3,
        VenvPhase::Creating => 2,
        VenvPhase::Revalidating => 1,
        VenvPhase::Ready => 0,
        VenvPhase::Failed => 0,
    }
}

/// The creation of an environment ends after at most five reports: each report
/// leads to a later phase, and nothing more is asked once the environment is
/// usable or has failed.
pub proof fn lemma_venv_creation_ends(
    phase: VenvPhase,
    engine: LocalSegmentationEngine,
    event: VenvEventView,
)
    ensures
        reports_ahead(phase) > 0 ==> reports_ahead(venv_step(phase, engine, event).0)
            < reports_ahead(phase),
        venv_step(phase, engine, event).1 is Done || venv_step(phase, engine, event).1 is Fail
            <==> reports_ahead(venv_step(phase, engine, event).0) == 0,
{
}

/// An environment becomes usable only through an inspection that found its
/// interpreter recent enough.
pub proof fn lemma_ready_only_after_validation(
    phase: VenvPhase,
    engine: LocalSegmentationEngine,
    event: VenvEventView,
)
    ensures
        venv_step(phase, engine, event).0 == VenvPhase::Ready ==> (event
            matches VenvEventView::Inspected { exists, version } && inspection_passes(
            exists,
            version,
        )),
        venv_step(phase, engine, event).1 is Done <==> venv_step(phase, engine, event).0
            == VenvPhase::Ready,
{
}

/// An existing environment whose interpreter is too old is deleted, then a
/// system interpreter is looked for, the environment is created with it, and
/// the new interpreter is inspected before anything else.
pub proof fn lemma_outdated_environment_is_replaced(
    engine: LocalSegmentationEngine,
    version: (u8, u8, u8),
    found: InterpreterView,
    output: Seq<char>,
)
    requires
        !version_meets_min(version.0, version.1, MIN_LOCAL_PYTHON_MAJOR, MIN_LOCAL_PYTHON_MINOR),
    ensures
        venv_step(
            VenvPhase::Start,
            engine,
            VenvEventView::Inspected { exists: true, version: Some(version) },
        ) == (VenvPhase::Removing, VenvActionView::Remove),
        venv_step(VenvPhase::Removing, engine, VenvEventView::Removed { error: None }) == (
            VenvPhase::Finding,
            VenvActionView::Search,
        ),
        venv_step(VenvPhase::Finding, engine, VenvEventView::Searched { found: Ok(found) }) == (
            VenvPhase::Creating,
            VenvActionView::Create { command: found.command },
        ),
        venv_step(
            VenvPhase::Creating,
            engine,
            VenvEventView::Created { success: true, output },
        ) == (VenvPhase::Revalidating, VenvActionView::Inspect),
{
}

fn fail_corrupted(engine: LocalSegmentationEngine, fault: EnvironmentFault) -> (r: (
    VenvPhase,
    VenvAction,
))
    ensures
        (r.0, r.1@) == corrupted(engine, fault@),
{
    (
        VenvPhase::Failed,
        VenvAction::Fail {
            error: SegmentationError::EnvironmentCorrupted { engine, cause: fault },
        },
    )
}

/// Takes what the caller saw and says what to do next. The first thing to do,
/// before any call, is [`VenvAction::Inspect`] in phase [`VenvPhase::Start`].
pub fn create_venv_if_missing(
    phase: VenvPhase,
    engine: LocalSegmentationEngine,
    event: VenvEvent,
) -> (r: (VenvPhase, VenvAction))
    ensures
        (r.0, r.1@) == venv_step(phase, engine, event@),
{
    match (phase, event) {
        (VenvPhase::Start, VenvEvent::Inspected { exists, version }) => {
            let passes = exists && match version {
                Some(v) => python_version_meets_min(
                    v.0,
                    v.1,
                    MIN_LOCAL_PYTHON_MAJOR,
                    MIN_LOCAL_PYTHON_MINOR,
                ),
                None => false,
            };
            if passes {
                (VenvPhase::Ready, VenvAction::Done)
            } else if exists {
                (VenvPhase::Removing, VenvAction::Remove)
            } else {
                (VenvPhase::Finding, VenvAction::Search)
            }
        },
        (VenvPhase::Removing, VenvEvent::Removed { error }) => match error {
            None => (VenvPhase::Finding, VenvAction::Search),
            Some(detail) => fail_corrupted(engine, EnvironmentFault::ReplaceFailed { detail }),
        },
        (VenvPhase::Finding, VenvEvent::Searched { found }) => match found {
            Ok(p) => (VenvPhase::Creating, VenvAction::Create { command: p.command }),
            Err(error) => (VenvPhase::Failed, VenvAction::Fail { error }),
        },
        (VenvPhase::Creating, VenvEvent::Created { success, output }) => {
            if success {
                (VenvPhase::Revalidating, VenvAction::Inspect)
            } else {
                fail_corrupted(engine, EnvironmentFault::CreateFailed { detail: output })
            }
        },
        (VenvPhase::Revalidating, VenvEvent::Inspected { exists, version }) => {
            if !exists {
                fail_corrupted(engine, EnvironmentFault::InterpreterMissing)
            } else {
                match version {
                    None => fail_corrupted(engine, EnvironmentFault::VersionUnknown),
                    Some(v) => {
                        if python_version_meets_min(
                            v.0,
                            v.1,
                            MIN_LOCAL_PYTHON_MAJOR,
                            MIN_LOCAL_PYTHON_MINOR,
                        ) {
                            (VenvPhase::Ready, VenvAction::Done)
                        } else {
                            fail_corrupted(
                                engine,
                                EnvironmentFault::VersionTooOld { major: v.0, minor: v.1 },
                            )
                        }
                    },
                }
            }
        },
        _ => (VenvPhase::Failed, VenvAction::Fail { error: SegmentationError::UnexpectedEvent }),
    }
}

/// The arguments that make an interpreter create an environment in `venv_dir`.
pub fn venv_create_args(venv_dir: &str) -> (r: Vec<String>)
    ensures
        strings_view(r@) == seq!["-m"@, "venv"@, venv_dir@],
{
    let mut args: Vec<String> = Vec::new();
    push_str_item(&mut args, "-m");
    push_str_item(&mut args, "venv");
    push_str_item(&mut args, venv_dir);
    args
}

/// The program that makes an interpreter print its version as JSON.
pub const VERSION_PROGRAM: &'static str =
    "import json,sys; print(json.dumps({'major':sys.version_info[0],'minor':sys.version_info[1],'patch':sys.version_info[2]}))";

/// The program that makes an interpreter print its executable and version as
/// JSON.
pub const PROBE_PROGRAM: &'static str =
    "import json,sys; print(json.dumps({'executable':sys.executable,'major':sys.version_info[0],'minor':sys.version_info[1],'patch':sys.version_info[2]}))";

/// What precedes the list of modules in the import check's program.
pub const IMPORT_CHECK_HEAD: &'static str =
    "\nfrom importlib.util import find_spec\nimport json\nimport sys\n\nmodules = ";

/// What follows the list of modules in the import check's program.
pub const IMPORT_CHECK_TAIL: &'static str =
    "\nmissing = []\nfor name in modules:\n    try:\n        if find_spec(name) is None:\n            missing.append(name)\n    except Exception:\n        missing.append(name)\n\nprint(json.dumps(missing))\nsys.exit(0 if not missing else 1)\n";

/// The program that prints which of `modules` cannot be found, as a JSON list,
/// and fails if there is any. The modules are looked up, not loaded.
pub open spec fn import_check_program(modules: Seq<Seq<char>>) -> Seq<char> {
    IMPORT_CHECK_HEAD@ + (match json_text_of_strings(modules) {
        Some(list) => list,
        None => "[]"@,
    }) + IMPORT_CHECK_TAIL@
}

/// Writes the program that checks whether `modules` can be imported.
pub fn import_check_script(modules: &Vec<String>) -> (r: String)
    ensures
        r@ == import_check_program(strings_view(modules@)),
{
    let mut out: Vec<char> = Vec::new();
    append_str(&mut out, IMPORT_CHECK_HEAD);
    match print_strings(modules) {
        Some(list) => {
            append_str(&mut out, list.as_str());
        },
        None => {
            append_str(&mut out, "[]");
        },
    }
    append_str(&mut out, IMPORT_CHECK_TAIL);
    string_from_chars(&out)
}

/// What an import check came to: whether every module was found, and the
/// modules that were not. Without an interpreter, or when it could not be run,
/// every module counts as missing.
pub open spec fn import_check_result(
    exists: bool,
    run: Option<(bool, Seq<char>)>,
    modules: Seq<Seq<char>>,
) -> (bool, Seq<Seq<char>>) {
    if !exists {
        (false, modules)
    } else {
        match run {
            None => (false, modules),
            Some(ran) => (
                ran.0,
                match string_list(trim(ran.1)) {
                    Some(missing) => missing,
                    None => Seq::empty(),
                },
            ),
        }
    }
}

/// The view of a finished run: whether it succeeded, and what it printed.
pub open spec fn run_view(run: Option<(bool, &str)>) -> Option<(bool, Seq<char>)> {
    match run {
        Some(ran) => Some((ran.0, ran.1@)),
        None => None,
    }
}

/// Judges an import check. `exists` is whether the environment's interpreter
/// exists, and `run` what came of running the check's program with it: `None`
/// when it could not be started, else whether it succeeded and what it printed.
pub fn run_python_import_check(
    exists: bool,
    run: Option<(bool, &str)>,
    modules: &Vec<String>,
) -> (r: (bool, Vec<String>))
    ensures
        (r.0, strings_view(r.1@)) == import_check_result(
            exists,
            run_view(run),
            strings_view(modules@),
        ),
{
    if !exists {
        return (false, crate::json::copy_strings(modules));
    }
    match run {
        None => (false, crate::json::copy_strings(modules)),
        Some(ran) => {
            let chars = str_chars(ran.1);
            let trimmed = trim_chars(&chars);
            let text = string_from_chars(&trimmed);
            match read_string_list(text.as_str()) {
                Some(missing) => (ran.0, missing),
                None => {
                    let none: Vec<String> = Vec::new();
                    (ran.0, none)
                },
            }
        },
    }
}

/// Whether an import check found every module.
pub open spec fn import_passed(result: (bool, Seq<Seq<char>>)) -> bool {
    result.0 && result.1.len() == 0
}

/// The views of a list of import check results.
pub open spec fn result_views(results: Seq<(bool, Vec<String>)>) -> Seq<(bool, Seq<Seq<char>>)> {
    Seq::new(results.len(), |i: int| (results[i].0, strings_view(results[i].1@)))
}

/// Whether at least one of several import checks, one for each alternate
/// module name, found its module.
pub fn run_python_any_import_check(results: &Vec<(bool, Vec<String>)>) -> (r: bool)
    ensures
        r == exists|i: int|
            0 <= i < results@.len() && import_passed(#[trigger] result_views(results@)[i]),
{
    let mut i: usize = 0;
    while i < results.len()
        invariant
            i <= results.len(),
            forall|k: int| 0 <= k < i ==> !import_passed(#[trigger] result_views(results@)[k]),
        decreases results.len() - i,
    {
        if results[i].0 && results[i].1.len() == 0 {
            assert(import_passed(result_views(results@)[i as int]));
            return true;
        }
        i += 1;
    }
    false
}

/// The alternate names under which the phonemizer may be importable.
pub fn phonemizer_module_names() -> (r: &'static [&'static str])
    ensures
        r@.len() == 2,
        r@[0]@ == "core.phonemizer"@,
        r@[1]@ == "quranic_phonemizer"@,
{
    &["core.phonemizer", "quranic_phonemizer"]
}

} // verus!
