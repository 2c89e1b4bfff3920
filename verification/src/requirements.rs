//! The requirements lists of the local engines, as text: what is patched and
//! what is left out before the package manager sees them.

use vstd::prelude::*;
use crate::error::{SegmentationError, SegmentationErrorView};
use crate::process::{sanitize_cmd_error, sanitized};
use crate::text::{
    append_str, chars_contain, chars_start_with, chars_to_ascii_lower, contains, copy_str, join,
    join_chars, lines, split_lines, starts_with, str_chars, string_from_chars, texts_of,
    to_ascii_lower, trim, trim_chars,
};
use crate::types::LocalSegmentationEngine;

verus! {

/// How the multi-aligner's requirements name the phonemizer: by a revision of
/// its repository.
pub const PHONEMIZER_GIT_PREFIX: &'static str =
    "git+https://github.com/Hetchy/Quranic-Phonemizer.git@";

/// The archive of the phonemizer revision that is installed.
pub const PHONEMIZER_ARCHIVE_URL: &'static str =
    "https://github.com/Hetchy/Quranic-Phonemizer/archive/1b6a8cc.zip";

/// The file that the patched requirements are written to, in the temporary
/// directory.
pub const PATCHED_REQUIREMENTS_FILE: &'static str = "qurancaption_multi_requirements_patched.txt";

/// The directory that the patched phonemizer source is unpacked to, in the
/// temporary directory.
pub const PHONEMIZER_SOURCE_DIR: &'static str = "qurancaption_quranic_phonemizer_1b6a8cc";

/// The program that unpacks the phonemizer's archive into the directory named
/// by `QC_QP_TARGET`, writing `-to-` wherever a file name holds `->`.
pub const PHONEMIZER_PATCH_PROGRAM: &'static str =
    "\nimport io\nimport os\nimport pathlib\nimport shutil\nimport urllib.request\nimport zipfile\n\ntarget = pathlib.Path(os.environ[\"QC_QP_TARGET\"])\ntarget.mkdir(parents=True, exist_ok=True)\n\nurl = \"https://github.com/Hetchy/Quranic-Phonemizer/archive/1b6a8cc.zip\"\nraw = urllib.request.urlopen(url, timeout=120).read()\n\nwith zipfile.ZipFile(io.BytesIO(raw)) as zf:\n    root_prefix = None\n    for info in zf.infolist():\n        name = info.filename\n        if name.endswith(\"/\"):\n            continue\n        if root_prefix is None:\n            root_prefix = name.split(\"/\", 1)[0] + \"/\"\n        rel = name[len(root_prefix):] if name.startswith(root_prefix) else name\n        rel = rel.replace(\"->\", \"-to-\")\n        out = target / rel\n        out.parent.mkdir(parents=True, exist_ok=True)\n        with zf.open(info) as src, open(out, \"wb\") as dst:\n            shutil.copyfileobj(src, dst)\n";

/// The variable that tells the unpacking script where to write.
pub const PHONEMIZER_TARGET_VARIABLE: &'static str = "QC_QP_TARGET";

/// A requirements line as it is handed to the package manager: a line that
/// names the phonemizer by its repository becomes the archive's address.
pub open spec fn patched_line(line: Seq<char>) -> Seq<char> {
    if starts_with(trim(line), PHONEMIZER_GIT_PREFIX@) {
        PHONEMIZER_ARCHIVE_URL@
    } else {
        line
    }
}

/// The lines of `ls`, each patched.
pub open spec fn patched_lines(ls: Seq<Seq<char>>) -> Seq<Seq<char>> {
    Seq::new(ls.len(), |i: int| patched_line(ls[i]))
}

/// The multi-aligner's requirements without the dependency on a repository.
pub open spec fn patched_requirements(content: Seq<char>) -> Seq<char> {
    join(patched_lines(lines(content)), "\n"@)
}

/// Patches the multi-aligner's requirements so that nothing is fetched from a
/// repository.
pub fn prepare_multi_requirements_file(content: &str) -> (r: String)
    ensures
        r@ == patched_requirements(content@),
{
    let chars = str_chars(content);
    let ls = split_lines(&chars);
    let prefix = str_chars(PHONEMIZER_GIT_PREFIX);
    let ghost all = lines(content@);
    let mut out: Vec<Vec<char>> = Vec::new();
    let mut i: usize = 0;
    while i < ls.len()
        invariant
            i <= ls.len(),
            prefix@ == PHONEMIZER_GIT_PREFIX@,
            all == lines(content@),
            ls@.len() == all.len(),
            forall|k: int| 0 <= k < ls@.len() ==> ls@[k]@ == all[k],
            texts_of(out@) == patched_lines(all.subrange(0, i as int)),
        decreases ls.len() - i,
    {
        let trimmed = trim_chars(&ls[i]);
        let ghost before = texts_of(out@);
        if chars_start_with(&trimmed, &prefix) {
            out.push(str_chars(PHONEMIZER_ARCHIVE_URL));
        } else {
            out.push(crate::text::slice_chars(&ls[i], 0, ls[i].len()));
            assert(ls@[i as int]@.subrange(0, ls@[i as int]@.len() as int) == ls@[i as int]@);
        }
        assert(texts_of(out@) == before.push(patched_line(all[i as int])));
        i += 1;
    }
    assert(all.subrange(0, all.len() as int) == all);
    let sep = str_chars("\n");
    let joined = join_chars(&out, &sep);
    string_from_chars(&joined)
}

/// Whether a requirements line is handed to the package manager. Blank lines
/// and comments are not; neither is the numerical backend in any of its
/// packages, which is installed before, nor the phonemizer, which is installed
/// after. Case does not matter.
pub open spec fn keeps_requirement(line: Seq<char>) -> bool {
    let t = to_ascii_lower(trim(line));
    t.len() > 0 && !starts_with(t, "#"@) && !starts_with(t, "torch"@) && !contains(
        t,
        "quranic-phonemizer"@,
    )
}

/// The lines of `ls` that are handed to the package manager, in order.
pub open spec fn kept_lines(ls: Seq<Seq<char>>) -> Seq<Seq<char>>
    decreases ls.len(),
{
    if ls.len() == 0 {
        Seq::empty()
    } else if keeps_requirement(ls.last()) {
        kept_lines(ls.drop_last()).push(ls.last())
    } else {
        kept_lines(ls.drop_last())
    }
}

/// The requirements that are installed in one batch.
pub open spec fn filtered_requirements(content: Seq<char>) -> Seq<char> {
    join(kept_lines(lines(content)), "\n"@)
}

/// No line that survives the filter names the numerical backend or the
/// phonemizer.
pub proof fn lemma_filter_drops_separate_packages(ls: Seq<Seq<char>>)
    ensures
        forall|i: int|
            0 <= i < kept_lines(ls).len() ==> keeps_requirement(#[trigger] kept_lines(ls)[i]),
    decreases ls.len(),
{
    if ls.len() > 0 {
        let rest = kept_lines(ls.drop_last());
        lemma_filter_drops_separate_packages(ls.drop_last());
        assert forall|i: int| 0 <= i < kept_lines(ls).len() implies keeps_requirement(
            #[trigger] kept_lines(ls)[i],
        ) by {
            if i < rest.len() {
                assert(kept_lines(ls)[i] == rest[i]);
            }
        }
    }
}

/// Whether a requirements line is handed to the package manager.
pub fn requirement_is_kept(line: &Vec<char>) -> (r: bool)
    ensures
        r == keeps_requirement(line@),
{
    let trimmed = trim_chars(line);
    let t = chars_to_ascii_lower(&trimmed);
    if t.len() == 0 {
        return false;
    }
    let hash = str_chars("#");
    let torch = str_chars("torch");
    let phonemizer = str_chars("quranic-phonemizer");
    !chars_start_with(&t, &hash) && !chars_start_with(&t, &torch) && !chars_contain(
        &t,
        &phonemizer,
    )
}

/// Leaves out of a requirements list what is installed separately.
pub fn filter_requirements(content: &str) -> (r: String)
    ensures
        r@ == filtered_requirements(content@),
{
    let chars = str_chars(content);
    let ls = split_lines(&chars);
    let ghost all = lines(content@);
    let mut out: Vec<Vec<char>> = Vec::new();
    let mut i: usize = 0;
    while i < ls.len()
        invariant
            i <= ls.len(),
            all == lines(content@),
            ls@.len() == all.len(),
            forall|k: int| 0 <= k < ls@.len() ==> ls@[k]@ == all[k],
            texts_of(out@) == kept_lines(all.subrange(0, i as int)),
        decreases ls.len() - i,
    {
        proof {
            assert(all.subrange(0, i + 1).drop_last() == all.subrange(0, i as int));
        }
        if requirement_is_kept(&ls[i]) {
            out.push(crate::text::slice_chars(&ls[i], 0, ls[i].len()));
            assert(ls@[i as int]@.subrange(0, ls@[i as int]@.len() as int) == ls@[i as int]@);
        }
        i += 1;
    }
    assert(all.subrange(0, all.len() as int) == all);
    let sep = str_chars("\n");
    let joined = join_chars(&out, &sep);
    string_from_chars(&joined)
}

/// The name of the file that an engine's filtered requirements are written to,
/// in the temporary directory.
pub fn filtered_requirements_file(engine: LocalSegmentationEngine) -> (r: String)
    ensures
        r@ == "qurancaption_requirements_"@ + engine.key() + ".txt"@,
{
    let mut out: Vec<char> = Vec::new();
    append_str(&mut out, "qurancaption_requirements_");
    append_str(&mut out, engine.as_key());
    append_str(&mut out, ".txt");
    string_from_chars(&out)
}

/// The context of every failure to stage the phonemizer's source.
pub open spec fn patch_context() -> Seq<char> {
    "Failed to patch Quranic-Phonemizer source on Windows"@
}

/// What the staging of the phonemizer's source came to, given whether the
/// unpacking script succeeded, what it wrote, and whether the unpacked source
/// holds its setup file.
pub open spec fn staging_result(
    success: bool,
    stderr: Seq<char>,
    stdout: Seq<char>,
    setup_exists: bool,
) -> Option<SegmentationErrorView> {
    if !success {
        Some(
            SegmentationErrorView::DependencyInstallFailed {
                context: patch_context(),
                detail: sanitized(stderr, stdout),
            },
        )
    } else if !setup_exists {
        Some(
            SegmentationErrorView::DependencyInstallFailed {
                context: patch_context(),
                detail: "patched source is incomplete (missing setup.py)"@,
            },
        )
    } else {
        None
    }
}

/// Judges the staging of the phonemizer's source, which takes the place of a
/// plain install where the archive holds file names that the system refuses.
pub fn prepare_windows_safe_quranic_phonemizer_source(
    success: bool,
    stderr: &str,
    stdout: &str,
    setup_exists: bool,
) -> (r: Result<(), SegmentationError>)
    ensures
        match r {
            Ok(_) => staging_result(success, stderr@, stdout@, setup_exists) is None,
            Err(e) => staging_result(success, stderr@, stdout@, setup_exists) == Some(e@),
        },
{
    if !success {
        return Err(
            SegmentationError::DependencyInstallFailed {
                context: copy_str("Failed to patch Quranic-Phonemizer source on Windows"),
                detail: sanitize_cmd_error(stderr, stdout),
            },
        );
    }
    if !setup_exists {
        return Err(
            SegmentationError::DependencyInstallFailed {
                context: copy_str("Failed to patch Quranic-Phonemizer source on Windows"),
                detail: copy_str("patched source is incomplete (missing setup.py)"),
            },
        );
    }
    Ok(())
}

} // verus!
