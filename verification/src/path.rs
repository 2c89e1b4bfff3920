//! Paths as they come from a user interface: trimmed, without a `file://`
//! scheme, and with their percent escapes decoded.

use vstd::prelude::*;
use vstd::string::StringSliceAdditionalSpecFns;
use vstd::utf8::{decode_utf8, encode_utf8, valid_utf8};
use crate::text::{
    chars_strip_prefix, decode_text, lossy_text, str_chars, string_from_chars, strip_prefix, trim,
    trim_chars,
};
use crate::types::Platform;

verus! {

/// The value of a hexadecimal digit.
pub open spec fn hex_value(b: u8) -> Option<u8> {
    if 0x30 <= b <= 0x39 {
        Some((b - 0x30) as u8)
    } else if 0x61 <= b <= 0x66 {
        Some((b - 0x61 + 10) as u8)
    } else if 0x41 <= b <= 0x46 {
        Some((b - 0x41 + 10) as u8)
    } else {
        None
    }
}

/// The value of a hexadecimal digit.
pub fn from_hex(b: u8) -> (r: Option<u8>)
    ensures
        r == hex_value(b),
{
    if 0x30 <= b && b <= 0x39 {
        Some(b - 0x30)
    } else if 0x61 <= b && b <= 0x66 {
        Some(b - 0x61 + 10)
    } else if 0x41 <= b && b <= 0x46 {
        Some(b - 0x41 + 10)
    } else {
        None
    }
}

/// Whether `s` begins with a percent sign and two hexadecimal digits.
pub open spec fn starts_with_escape(s: Seq<u8>) -> bool {
    s.len() > 2 && s[0] == 0x25u8 && hex_value(s[1]) is Some && hex_value(s[2]) is Some
}

/// The bytes of `s` with each `%xx` escape replaced by the byte it names. A
/// percent sign that is not followed by two hexadecimal digits stays as it is.
pub open spec fn percent_decoded(s: Seq<u8>) -> Seq<u8>
    decreases s.len(),
{
    if s.len() == 0 {
        Seq::empty()
    } else if starts_with_escape(s) {
        seq![(hex_value(s[1])->0 * 16 + hex_value(s[2])->0) as u8] + percent_decoded(
            s.subrange(3, s.len() as int),
        )
    } else {
        seq![s[0]] + percent_decoded(s.drop_first())
    }
}

/// Decodes the `%xx` escapes in `bytes`.
pub(crate) fn percent_decode_bytes(bytes: &[u8], from: usize) -> (r: Vec<u8>)
    requires
        from <= bytes.len(),
    ensures
        r@ == percent_decoded(bytes@.subrange(from as int, bytes.len() as int)),
{
    let mut out: Vec<u8> = Vec::new();
    let mut i: usize = from;
    let ghost whole = bytes@.subrange(from as int, bytes.len() as int);
    while i < bytes.len()
        invariant
            from <= i <= bytes.len(),
            whole == bytes@.subrange(from as int, bytes.len() as int),
            percent_decoded(whole) == out@ + percent_decoded(
                bytes@.subrange(i as int, bytes.len() as int),
            ),
        decreases bytes.len() - i,
    {
        let ghost rest = bytes@.subrange(i as int, bytes.len() as int);
        let mut decoded: Option<u8> = None;
        if bytes[i] == 0x25u8 && bytes.len() - i > 2 {
            match (from_hex(bytes[i + 1]), from_hex(bytes[i + 2])) {
                (Some(h1), Some(h2)) => {
                    decoded = Some(h1 * 16 + h2);
                },
                _ => {},
            }
        }
        match decoded {
            Some(b) => {
                assert(rest.subrange(3, rest.len() as int) == bytes@.subrange(
                    i + 3,
                    bytes.len() as int,
                ));
                out.push(b);
                i += 3;
            },
            None => {
                assert(rest.drop_first() == bytes@.subrange(i + 1, bytes.len() as int));
                out.push(bytes[i]);
                i += 1;
            },
        }
    }
    out
}

/// Decodes the `%xx` escapes of a path. Bytes that do not form valid UTF-8
/// afterwards are replaced as `String::from_utf8_lossy` replaces them.
pub fn percent_decode(input: &str) -> (r: String)
    ensures
        r@ == lossy_text(percent_decoded(input.spec_bytes())),
        valid_utf8(percent_decoded(input.spec_bytes())) ==> r@ == decode_utf8(
            percent_decoded(input.spec_bytes()),
        ),
{
    let bytes = input.as_bytes();
    assert(bytes@.subrange(0, bytes.len() as int) == bytes@);
    let out = percent_decode_bytes(bytes, 0);
    decode_text(out.as_slice())
}

/// `s` without the prefix `p`, or `s` itself when it does not begin with `p`.
pub open spec fn without_prefix(s: Seq<char>, p: Seq<char>) -> Seq<char> {
    match strip_prefix(s, p) {
        Some(rest) => rest,
        None => s,
    }
}

/// A raw path without surrounding white space, `file://` scheme and
/// `localhost/` host.
pub open spec fn bare_path(raw: Seq<char>) -> Seq<char> {
    without_prefix(without_prefix(trim(raw), "file://"@), "localhost/"@)
}

/// Whether the bytes of a path begin with a slash before a drive letter, as
/// in `/C:/Users`.
pub open spec fn has_drive_slash(bytes: Seq<u8>) -> bool {
    bytes.len() > 2 && bytes[0] == 0x2Fu8 && bytes[2] == 0x3Au8
}

/// The bytes of a normalized path: the bare path, on Windows without the slash
/// before a drive letter, with its percent escapes decoded.
pub open spec fn normalized_bytes(raw: Seq<char>, platform: Platform) -> Seq<u8> {
    let bytes = encode_utf8(bare_path(raw));
    if platform == Platform::Windows && has_drive_slash(bytes) {
        percent_decoded(bytes.subrange(1, bytes.len() as int))
    } else {
        percent_decoded(bytes)
    }
}

/// Normalizes a raw path from a user interface or a `file://` address.
pub fn normalize_input_path(raw: &str, platform: Platform) -> (r: String)
    ensures
        r@ == lossy_text(normalized_bytes(raw@, platform)),
        valid_utf8(normalized_bytes(raw@, platform)) ==> r@ == decode_utf8(
            normalized_bytes(raw@, platform),
        ),
{
    let chars = str_chars(raw);
    let mut path = trim_chars(&chars);
    let scheme = str_chars("file://");
    match chars_strip_prefix(&path, &scheme) {
        Some(rest) => {
            path = rest;
        },
        None => {},
    }
    let host = str_chars("localhost/");
    match chars_strip_prefix(&path, &host) {
        Some(rest) => {
            path = rest;
        },
        None => {},
    }
    let text = string_from_chars(&path);
    let bytes = text.as_str().as_bytes();
    let mut from: usize = 0;
    if matches!(platform, Platform::Windows) && bytes.len() > 2 && bytes[0] == 0x2Fu8 && bytes[2]
        == 0x3Au8 {
        from = 1;
    }
    assert(bytes@.subrange(0, bytes.len() as int) == bytes@);
    let out = percent_decode_bytes(bytes, from);
    decode_text(out.as_slice())
}

/// `path` with a backslash before each apostrophe.
pub open spec fn escaped(path: Seq<char>) -> Seq<char>
    decreases path.len(),
{
    if path.len() == 0 {
        Seq::empty()
    } else if path.last() == '\'' {
        escaped(path.drop_last()).push('\\').push('\'')
    } else {
        escaped(path.drop_last()).push(path.last())
    }
}

/// Escapes a path for a line of a concat list.
pub fn escape_ffconcat_path(path: &str) -> (r: String)
    ensures
        r@ == escaped(path@),
{
    let chars = str_chars(path);
    let mut out: Vec<char> = Vec::new();
    let mut i: usize = 0;
    while i < chars.len()
        invariant
            i <= chars.len(),
            out@ == escaped(chars@.subrange(0, i as int)),
        decreases chars.len() - i,
    {
        assert(chars@.subrange(0, i + 1).drop_last() == chars@.subrange(0, i as int));
        if chars[i] == '\'' {
            out.push('\\');
            out.push('\'');
        } else {
            out.push(chars[i]);
        }
        i += 1;
    }
    assert(chars@.subrange(0, chars.len() as int) == chars@);
    string_from_chars(&out)
}

} // verus!
