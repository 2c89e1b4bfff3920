//! The model data files of the multi-aligner engine and their validation.
//!
//! A data file is judged from its name and its bytes alone, so judging it twice
//! without fetching it again gives the same verdict.

use vstd::prelude::*;
use vstd::slice::slice_subrange;
use vstd::string::StringSliceAdditionalSpecFns;
use crate::error::{DataFileFault, DataFileFaultView, SegmentationError, SegmentationErrorView};
use crate::json::{json_bytes_error, parse_bytes_error};
use crate::text::{chars_eq, chars_to_ascii_lower, copy_str, slice_chars, str_chars, to_ascii_lower};

verus! {

/// The first line of a Git LFS pointer file.
pub const LFS_POINTER_TEXT: &'static str = "version https://git-lfs.github.com/spec/v1";

/// How many leading bytes of a JSON file are searched for its first character
/// when the file is validated.
pub const JSON_HEAD_LEN: usize = 256;

/// Where the data files are fetched from.
pub const DATA_FILES_BASE_URL: &'static str =
    "https://huggingface.co/spaces/hetchyy/Quran-multi-aligner/resolve/main/data/";

/// The names of the data files that the multi-aligner cannot run without.
pub open spec fn required_file_names() -> Seq<Seq<char>> {
    seq![
        "phoneme_cache.pkl"@,
        "phoneme_ngram_index_5.pkl"@,
        "qpc_hafs.json"@,
        "surah_info.json"@,
        "digital_khatt_v2_script.json"@,
        "phoneme_sub_costs.json"@,
    ]
}

/// The names of the data files that the multi-aligner cannot run without.
pub fn required_multi_aligner_data_files() -> (r: &'static [&'static str])
    ensures
        r@.len() == required_file_names().len(),
        forall|i: int| 0 <= i < r@.len() ==> r@[i]@ == required_file_names()[i],
{
    &[
        "phoneme_cache.pkl",
        "phoneme_ngram_index_5.pkl",
        "qpc_hafs.json",
        "surah_info.json",
        "digital_khatt_v2_script.json",
        "phoneme_sub_costs.json",
    ]
}

/// The address that the data file `name` is fetched from.
pub open spec fn data_file_url_spec(name: Seq<char>) -> Seq<char> {
    DATA_FILES_BASE_URL@ + name + "?download=true"@
}

/// The address that the data file `name` is fetched from.
pub fn data_file_url(name: &str) -> (r: String)
    ensures
        r@ == data_file_url_spec(name@),
{
    let mut out: Vec<char> = Vec::new();
    crate::text::append_str(&mut out, DATA_FILES_BASE_URL);
    crate::text::append_str(&mut out, name);
    crate::text::append_str(&mut out, "?download=true");
    crate::text::string_from_chars(&out)
}

/// Whether `bytes` begins with `prefix`.
pub open spec fn bytes_start_with(bytes: Seq<u8>, prefix: Seq<u8>) -> bool {
    prefix.len() <= bytes.len() && bytes.subrange(0, prefix.len() as int) == prefix
}

/// The bytes that a Git LFS pointer file begins with.
pub open spec fn lfs_pointer_prefix() -> Seq<u8> {
    LFS_POINTER_TEXT.spec_bytes()
}

/// Whether the bytes are a Git LFS pointer in place of the real content.
pub open spec fn is_lfs_pointer_spec(bytes: Seq<u8>) -> bool {
    bytes_start_with(bytes, lfs_pointer_prefix())
}

/// Whether the bytes begin like a pickle of protocol 2 or later.
pub open spec fn has_pickle_header_spec(bytes: Seq<u8>) -> bool {
    bytes.len() > 0 && bytes[0] == 0x80u8
}

/// The white space that may precede a JSON document.
pub open spec fn is_json_space(b: u8) -> bool {
    b == 0x20u8 || b == 0x0Au8 || b == 0x0Du8 || b == 0x09u8
}

/// Whether the first byte of `bytes` that is not white space opens a JSON
/// object or array.
pub open spec fn has_json_header_spec(bytes: Seq<u8>) -> bool
    decreases bytes.len(),
{
    if bytes.len() == 0 {
        false
    } else if is_json_space(bytes[0]) {
        has_json_header_spec(bytes.drop_first())
    } else {
        bytes[0] == 0x7Bu8 || bytes[0] == 0x5Bu8
    }
}

/// The first `n` bytes of `bytes`, or all of them when there are fewer.
pub open spec fn head(bytes: Seq<u8>, n: int) -> Seq<u8> {
    if bytes.len() > n {
        bytes.subrange(0, n)
    } else {
        bytes
    }
}

/// Whether the bytes are a Git LFS pointer in place of the real content.
pub fn is_lfs_pointer(bytes: &[u8]) -> (r: bool)
    ensures
        r == is_lfs_pointer_spec(bytes@),
{
    let prefix = LFS_POINTER_TEXT.as_bytes();
    if prefix.len() > bytes.len() {
        return false;
    }
    let mut i: usize = 0;
    while i < prefix.len()
        invariant
            i <= prefix.len() <= bytes.len(),
            prefix@ == lfs_pointer_prefix(),
            bytes@.subrange(0, i as int) == prefix@.subrange(0, i as int),
        decreases prefix.len() - i,
    {
        if bytes[i] != prefix[i] {
            return false;
        }
        i += 1;
    }
    assert(prefix@.subrange(0, prefix.len() as int) == prefix@);
    true
}

/// Whether the bytes begin like a pickle.
pub fn has_pickle_header(bytes: &[u8]) -> (r: bool)
    ensures
        r == has_pickle_header_spec(bytes@),
{
    bytes.len() > 0 && bytes[0] == 0x80u8
}

/// Whether the first byte that is not white space opens a JSON object or
/// array.
pub fn has_json_header(bytes: &[u8]) -> (r: bool)
    ensures
        r == has_json_header_spec(bytes@),
{
    let mut idx: usize = 0;
    assert(bytes@.subrange(0, bytes@.len() as int) == bytes@);
    while idx < bytes.len()
        invariant
            idx <= bytes.len(),
            has_json_header_spec(bytes@) == has_json_header_spec(
                bytes@.subrange(idx as int, bytes@.len() as int),
            ),
        decreases bytes.len() - idx,
    {
        let b: u8 = bytes[idx];
        let ghost rest = bytes@.subrange(idx as int, bytes@.len() as int);
        assert(rest[0] == b);
        if b == 0x20u8 || b == 0x0Au8 || b == 0x0Du8 || b == 0x09u8 {
            assert(rest.drop_first() == bytes@.subrange(idx + 1, bytes@.len() as int));
            idx += 1;
        } else {
            return b == 0x7Bu8 || b == 0x5Bu8;
        }
    }
    false
}

/// The first `JSON_HEAD_LEN` bytes of a file, or all of them when there are
/// fewer.
pub fn json_head(bytes: &[u8]) -> (r: &[u8])
    ensures
        r@ == head(bytes@, JSON_HEAD_LEN as int),
{
    if bytes.len() > JSON_HEAD_LEN {
        slice_subrange(bytes, 0, JSON_HEAD_LEN)
    } else {
        bytes
    }
}

/// The kind of a data file, told by its name.
#[derive(Debug, Clone, Copy, PartialEq, Eq, Structural)]
pub enum DataFileKind {
    Pickle,
    Json,
}

/// The index of the last full stop in `name`, or -1 when there is none.
pub open spec fn last_dot(name: Seq<char>) -> int
    decreases name.len(),
{
    if name.len() == 0 {
        -1
    } else if name.last() == '.' {
        name.len() - 1
    } else {
        last_dot(name.drop_last())
    }
}

/// The extension of a file name: what follows its last full stop, unless that
/// is the name's first character. Empty when there is none.
pub open spec fn extension(name: Seq<char>) -> Seq<char> {
    let dot = last_dot(name);
    if 0 < dot < name.len() {
        name.subrange(dot + 1, name.len() as int)
    } else {
        Seq::empty()
    }
}

/// The kind of the data file `name`, by its extension without regard to case.
pub open spec fn kind_of(name: Seq<char>) -> Option<DataFileKind> {
    let ext = to_ascii_lower(extension(name));
    if ext == "pkl"@ {
        Some(DataFileKind::Pickle)
    } else if ext == "json"@ {
        Some(DataFileKind::Json)
    } else {
        None
    }
}

/// The kind of the data file `name`.
pub fn data_file_kind(name: &str) -> (r: Option<DataFileKind>)
    ensures
        r == kind_of(name@),
{
    let chars = str_chars(name);
    let mut at: usize = chars.len();
    assert(chars@.subrange(0, chars.len() as int) == chars@);
    while at > 0 && chars[at - 1] != '.'
        invariant
            at <= chars.len(),
            last_dot(chars@) == last_dot(chars@.subrange(0, at as int)),
        decreases at,
    {
        assert(chars@.subrange(0, at as int).drop_last() == chars@.subrange(0, at - 1));
        at -= 1;
    }
    let ext = if at > 1 {
        slice_chars(&chars, at, chars.len())
    } else {
        Vec::new()
    };
    let lower = chars_to_ascii_lower(&ext);
    let pkl = str_chars("pkl");
    let json = str_chars("json");
    if chars_eq(&lower, &pkl) {
        Some(DataFileKind::Pickle)
    } else if chars_eq(&lower, &json) {
        Some(DataFileKind::Json)
    } else {
        None
    }
}

/// The verdict on a pickle file: `None` when nothing is wrong with it.
pub open spec fn pickle_fault(content: Option<Seq<u8>>) -> Option<DataFileFaultView> {
    match content {
        None => Some(DataFileFaultView::Missing),
        Some(bytes) => if is_lfs_pointer_spec(bytes) {
            Some(DataFileFaultView::LfsPointer)
        } else if !has_pickle_header_spec(bytes) {
            Some(DataFileFaultView::NotPickle)
        } else {
            None
        },
    }
}

/// The verdict on a JSON file: `None` when nothing is wrong with it. The file
/// must begin like an object or array within its first `JSON_HEAD_LEN` bytes
/// and parse from end to end.
pub open spec fn json_fault(content: Option<Seq<u8>>) -> Option<DataFileFaultView> {
    match content {
        None => Some(DataFileFaultView::Missing),
        Some(bytes) => if is_lfs_pointer_spec(bytes) {
            Some(DataFileFaultView::LfsPointer)
        } else if !has_json_header_spec(head(bytes, JSON_HEAD_LEN as int)) {
            Some(DataFileFaultView::NotJson)
        } else {
            match json_bytes_error(bytes) {
                Some(e) => Some(DataFileFaultView::InvalidJson { parse_error: e }),
                None => None,
            }
        },
    }
}

/// The verdict on the data file `name` with the given content, `None` standing
/// for a file that does not exist.
pub open spec fn data_file_fault(name: Seq<char>, content: Option<Seq<u8>>) -> Option<
    DataFileFaultView,
> {
    match kind_of(name) {
        Some(DataFileKind::Pickle) => pickle_fault(content),
        Some(DataFileKind::Json) => json_fault(content),
        None => Some(DataFileFaultView::UnsupportedType),
    }
}

/// The view of a file's content.
pub open spec fn content_view(content: Option<&[u8]>) -> Option<Seq<u8>> {
    match content {
        Some(bytes) => Some(bytes@),
        None => None,
    }
}

/// The view of a verdict.
pub open spec fn fault_view(r: Result<(), DataFileFault>) -> Option<DataFileFaultView> {
    match r {
        Ok(_) => None,
        Err(fault) => Some(fault@),
    }
}

/// A data file of a known kind that is a Git LFS pointer is rejected as such,
/// whatever else it holds.
pub proof fn lemma_pointer_is_rejected(name: Seq<char>, bytes: Seq<u8>)
    requires
        kind_of(name) is Some,
        is_lfs_pointer_spec(bytes),
    ensures
        data_file_fault(name, Some(bytes)) == Some(DataFileFaultView::LfsPointer),
{
}

/// An empty JSON file is rejected for how it begins; one that begins like JSON
/// but does not parse is rejected for that, with the parser's message; and a
/// file with neither fault is accepted.
pub proof fn lemma_json_verdicts_are_distinct(name: Seq<char>, bytes: Seq<u8>)
    requires
        kind_of(name) == Some(DataFileKind::Json),
        !is_lfs_pointer_spec(bytes),
    ensures
        bytes.len() == 0 ==> data_file_fault(name, Some(bytes)) == Some(DataFileFaultView::NotJson),
        has_json_header_spec(head(bytes, JSON_HEAD_LEN as int)) ==> (data_file_fault(
            name,
            Some(bytes),
        ) is None <==> json_bytes_error(bytes) is None),
        has_json_header_spec(head(bytes, JSON_HEAD_LEN as int)) && json_bytes_error(bytes)
            is Some ==> data_file_fault(name, Some(bytes)) == Some(
            DataFileFaultView::InvalidJson { parse_error: json_bytes_error(bytes)->0 },
        ),
{
}

/// Judges a pickle file from its content.
pub fn validate_pickle_data_file(content: Option<&[u8]>) -> (r: Result<(), DataFileFault>)
    ensures
        fault_view(r) == pickle_fault(content_view(content)),
{
    match content {
        None => Err(DataFileFault::Missing),
        Some(bytes) => {
            if is_lfs_pointer(bytes) {
                Err(DataFileFault::LfsPointer)
            } else if !has_pickle_header(bytes) {
                Err(DataFileFault::NotPickle)
            } else {
                Ok(())
            }
        },
    }
}

/// Judges a JSON file from its content.
pub fn validate_json_data_file(content: Option<&[u8]>) -> (r: Result<(), DataFileFault>)
    ensures
        fault_view(r) == json_fault(content_view(content)),
{
    match content {
        None => Err(DataFileFault::Missing),
        Some(bytes) => {
            if is_lfs_pointer(bytes) {
                Err(DataFileFault::LfsPointer)
            } else if !has_json_header(json_head(bytes)) {
                Err(DataFileFault::NotJson)
            } else {
                match parse_bytes_error(bytes) {
                    Some(parse_error) => Err(DataFileFault::InvalidJson { parse_error }),
                    None => Ok(()),
                }
            }
        },
    }
}

/// Judges the data file `name` from its content; `None` stands for a file that
/// does not exist.
pub fn validate_multi_aligner_data_file(name: &str, content: Option<&[u8]>) -> (r: Result<
    (),
    DataFileFault,
>)
    ensures
        fault_view(r) == data_file_fault(name@, content_view(content)),
{
    match data_file_kind(name) {
        Some(DataFileKind::Pickle) => validate_pickle_data_file(content),
        Some(DataFileKind::Json) => validate_json_data_file(content),
        None => Err(DataFileFault::UnsupportedType),
    }
}

/// Judges a download: it must be answered with a status in 200..=299 and bring
/// at least one byte.
pub fn check_download(status: u16, len: usize) -> (r: Result<(), DataFileFault>)
    ensures
        fault_view(r) == if !(200 <= status <= 299) {
            Some(DataFileFaultView::DownloadRejected { status })
        } else if len == 0 {
            Some(DataFileFaultView::DownloadEmpty)
        } else {
            None
        },
{
    if status < 200 || status > 299 {
        Err(DataFileFault::DownloadRejected { status })
    } else if len == 0 {
        Err(DataFileFault::DownloadEmpty)
    } else {
        Ok(())
    }
}

/// The content of file number `i`, where a file that is not listed counts as
/// one that does not exist.
pub open spec fn content_at(contents: Seq<Option<Seq<u8>>>, i: int) -> Option<Seq<u8>> {
    if 0 <= i < contents.len() {
        contents[i]
    } else {
        None
    }
}

/// The first of the required files from number `i` on that is not valid, with
/// its fault.
pub open spec fn first_fault_from(contents: Seq<Option<Seq<u8>>>, i: int) -> Option<
    (Seq<char>, DataFileFaultView),
>
    decreases required_file_names().len() - i,
{
    if i < 0 || i >= required_file_names().len() {
        None
    } else {
        match data_file_fault(required_file_names()[i], content_at(contents, i)) {
            Some(fault) => Some((required_file_names()[i], fault)),
            None => first_fault_from(contents, i + 1),
        }
    }
}

/// The views of a list of file contents.
pub open spec fn content_views(contents: Seq<Option<Vec<u8>>>) -> Seq<Option<Seq<u8>>> {
    Seq::new(
        contents.len(),
        |i: int|
            match contents[i] {
                Some(bytes) => Some(bytes@),
                None => None,
            },
    )
}

/// Finds the first required data file that is not valid. `contents` holds the
/// content of each required file, in the order of
/// [`required_multi_aligner_data_files`], with `None` for a file that does not
/// exist.
pub fn first_invalid_data_file(contents: &Vec<Option<Vec<u8>>>) -> (r: Option<SegmentationError>)
    ensures
        match r {
            Some(e) => first_fault_from(content_views(contents@), 0) matches Some(found) && e@
                == (SegmentationErrorView::DataFileInvalid { file: found.0, fault: found.1 }),
            None => first_fault_from(content_views(contents@), 0) is None,
        },
{
    let names = required_multi_aligner_data_files();
    let ghost views = content_views(contents@);
    let mut i: usize = 0;
    while i < names.len()
        invariant
            i <= names.len(),
            names@.len() == required_file_names().len(),
            forall|k: int| 0 <= k < names@.len() ==> names@[k]@ == required_file_names()[k],
            views == content_views(contents@),
            first_fault_from(views, 0) == first_fault_from(views, i as int),
        decreases names.len() - i,
    {
        let verdict = if i < contents.len() {
            match &contents[i] {
                Some(bytes) => validate_multi_aligner_data_file(names[i], Some(bytes.as_slice())),
                None => validate_multi_aligner_data_file(names[i], None),
            }
        } else {
            validate_multi_aligner_data_file(names[i], None)
        };
        match verdict {
            Ok(_) => {},
            Err(fault) => {
                return Some(
                    SegmentationError::DataFileInvalid { file: copy_str(names[i]), fault },
                );
            },
        }
        i += 1;
    }
    None
}

} // verus!
