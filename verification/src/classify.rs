//! Specifier classification: which specifiers are remote, which local
//! files need TypeScript transpilation, how package-alias specifiers are
//! rewritten to a CDN URL, and how a bare directory import is resolved to
//! an index file.

use vstd::prelude::*;
use vstd::string::StrSliceExecFns;
use vstd::string::StringExecFns;

use crate::strutil::eq_ignore_ascii_case_seq;
use crate::strutil::find_last_pos;
use crate::strutil::last_pos_of;
use crate::strutil::lemma_last_pos_of;
use crate::strutil::str_eq_ignore_ascii_case;
use crate::strutil::str_ends_with;
use crate::strutil::str_starts_with;
use crate::strutil::str_suffix_from;

verus! {

/// True when the specifier names a remote module: one fetched over the
/// network rather than read from the local filesystem.
pub open spec fn is_remote_specifier(s: Seq<char>) -> bool {
    ||| "http://"@.is_prefix_of(s)
    ||| "https://"@.is_prefix_of(s)
    ||| "npm:"@.is_prefix_of(s)
}

/// True when the specifier carries one of the recognized TypeScript-family
/// extensions: `.ts`, `.cts`, `.mts`, `.tsx`, `.jsx`, `.ctsx`, `.mtsx`.
pub open spec fn has_ts_extension(s: Seq<char>) -> bool {
    ||| ".ts"@.is_suffix_of(s)
    ||| ".cts"@.is_suffix_of(s)
    ||| ".mts"@.is_suffix_of(s)
    ||| ".tsx"@.is_suffix_of(s)
    ||| ".jsx"@.is_suffix_of(s)
    ||| ".ctsx"@.is_suffix_of(s)
    ||| ".mtsx"@.is_suffix_of(s)
}

/// The smaller TypeScript-family extension set that the workspace loader
/// recognizes: `.ts`, `.cts`, `.mts`, `.tsx`.
pub open spec fn has_workspace_ts_extension(s: Seq<char>) -> bool {
    ||| ".ts"@.is_suffix_of(s)
    ||| ".cts"@.is_suffix_of(s)
    ||| ".mts"@.is_suffix_of(s)
    ||| ".tsx"@.is_suffix_of(s)
}

/// True when a declared content type names TypeScript; the match is exact
/// up to ASCII case.
pub open spec fn is_typescript_media_type(ct: Seq<char>) -> bool {
    eq_ignore_ascii_case_seq(ct, "application/typescript"@)
}

/// The URL a remote specifier is fetched from: a package alias
/// (`npm:<spec>`) is rewritten to `<cdn-base>/<spec>/+esm`; any other
/// specifier is fetched as it stands.
pub open spec fn remote_fetch_url(s: Seq<char>) -> Seq<char> {
    if "npm:"@.is_prefix_of(s) {
        "https://cdn.jsdelivr.net/npm/"@ + s.skip(4) + "/+esm"@
    } else {
        s
    }
}

/// Where a URL's path ends: at the first `?` or `#`, where the query or
/// fragment begins, or at the end when neither occurs.
pub open spec fn path_end(s: Seq<char>) -> int
    decreases s.len(),
{
    if s.len() == 0 {
        0
    } else if s[0] == '?' || s[0] == '#' {
        0
    } else {
        1 + path_end(s.skip(1))
    }
}

/// The path part of a specifier: everything before the first `?` or `#`.
pub open spec fn url_path_part(s: Seq<char>) -> Seq<char> {
    s.take(path_end(s))
}

/// `path_end` is the position of the first `?` or `#`, or the length
/// when neither occurs.
pub proof fn lemma_path_end(s: Seq<char>)
    ensures
        0 <= path_end(s) <= s.len(),
        forall|j: int| 0 <= j < path_end(s) ==> s[j] != '?' && s[j] != '#',
        path_end(s) < s.len() ==> (s[path_end(s)] == '?' || s[path_end(s)] == '#'),
    decreases s.len(),
{
    if s.len() > 0 && s[0] != '?' && s[0] != '#' {
        let tail = s.skip(1);
        lemma_path_end(tail);
        assert(forall|j: int| 0 <= j < tail.len() ==> tail[j] == s[j + 1]);
        assert forall|j: int| 0 <= j < path_end(s) implies s[j] != '?' && s[j] != '#' by {
            if j > 0 {
                assert(tail[j - 1] == s[j]);
            }
        }
    }
}

/// The path part of a specifier, cut before any query or fragment.
pub fn path_part_of(s: &str) -> (r: String)
    ensures
        r@ == url_path_part(s@),
{
    let len = s.unicode_len();
    let mut i: usize = 0;
    while i < len
        invariant
            0 <= i <= len,
            len == s@.len(),
            forall|j: int| 0 <= j < i ==> s@[j] != '?' && s@[j] != '#',
        decreases len - i,
    {
        let c = s.get_char(i);
        if c == '?' || c == '#' {
            proof {
                lemma_path_end(s@);
                if path_end(s@) < i as int {
                    assert(s@[path_end(s@)] != '?' && s@[path_end(s@)] != '#');
                } else if (i as int) < path_end(s@) {
                    assert(s@[i as int] != '?' && s@[i as int] != '#');
                }
            }
            let part = s.substring_char(0, i);
            let r = part.to_owned();
            assert(r@ =~= url_path_part(s@));
            return r;
        }
        i += 1;
    }
    proof {
        lemma_path_end(s@);
        if path_end(s@) < len as int {
            assert(s@[path_end(s@)] != '?' && s@[path_end(s@)] != '#');
        }
    }
    let r = s.to_owned();
    assert(r@ =~= url_path_part(s@));
    r
}

/// The value of a hexadecimal digit, or nothing for any other character.
pub open spec fn hex_digit_value(c: char) -> Option<int> {
    if '0' <= c && c <= '9' {
        Some((c as u8) - ('0' as u8))
    } else if 'a' <= c && c <= 'f' {
        Some((c as u8) - ('a' as u8) + 10)
    } else if 'A' <= c && c <= 'F' {
        Some((c as u8) - ('A' as u8) + 10)
    } else {
        None
    }
}

/// The value of a hexadecimal digit.
pub fn hex_digit_value_of(c: char) -> (r: Option<u8>)
    ensures
        match r {
            Some(v) => hex_digit_value(c) == Some(v as int) && v < 16,
            None => hex_digit_value(c) is None,
        },
{
    if '0' <= c && c <= '9' {
        Some((c as u8) - ('0' as u8))
    } else if 'a' <= c && c <= 'f' {
        Some((c as u8) - ('a' as u8) + 10)
    } else if 'A' <= c && c <= 'F' {
        Some((c as u8) - ('A' as u8) + 10)
    } else {
        None
    }
}

/// Whether two characters form a percent escape of an ASCII character:
/// two hexadecimal digits whose value stays below 0x80.
pub open spec fn is_ascii_escape(h: char, l: char) -> bool {
    &&& hex_digit_value(h) is Some
    &&& hex_digit_value(l) is Some
    &&& hex_digit_value(h)->Some_0 < 8
}

/// The character a percent escape stands for.
pub open spec fn escaped_char(h: char, l: char) -> char {
    (((hex_digit_value(h)->Some_0) * 16 + (hex_digit_value(l)->Some_0)) as u8) as char
}

/// A percent-escaped path with its ASCII escapes decoded: `%XX` with a
/// value below 0x80 becomes that character; everything else, a multi-byte
/// escape included, is kept as written.
pub open spec fn percent_decoded_ascii(s: Seq<char>) -> Seq<char>
    decreases s.len(),
{
    if s.len() == 0 {
        Seq::empty()
    } else if s[0] == '%' && s.len() >= 3 && is_ascii_escape(s[1], s[2]) {
        seq![escaped_char(s[1], s[2])] + percent_decoded_ascii(s.skip(3))
    } else {
        seq![s[0]] + percent_decoded_ascii(s.skip(1))
    }
}

/// Decode the ASCII percent escapes of a path.
pub fn decode_percent_path(s: &str) -> (r: String)
    ensures
        r@ == percent_decoded_ascii(s@),
{
    let len = s.unicode_len();
    let mut out = String::new();
    let mut i: usize = 0;
    assert(s@.skip(0) =~= s@);
    while i < len
        invariant
            0 <= i <= len,
            len == s@.len(),
            percent_decoded_ascii(s@) == out@ + percent_decoded_ascii(s@.skip(i as int)),
        decreases len - i,
    {
        let ghost rest = s@.skip(i as int);
        assert(rest[0] == s@[i as int]);
        let c = s.get_char(i);
        if c == '%' && len - i >= 3 {
            assert(rest.len() >= 3);
            assert(rest[1] == s@[i + 1] && rest[2] == s@[i + 2]);
            let h = s.get_char(i + 1);
            let l = s.get_char(i + 2);
            let hv = hex_digit_value_of(h);
            let lv = hex_digit_value_of(l);
            match (hv, lv) {
                (Some(hv), Some(lv)) if hv < 8 => {
                    let b: u8 = hv * 16 + lv;
                    crate::strutil::string_push(&mut out, b as char);
                    assert(s@.skip(i as int).skip(3) =~= s@.skip(i + 3));
                    assert(out@ + percent_decoded_ascii(s@.skip(i + 3))
                        =~= percent_decoded_ascii(s@));
                    i += 3;
                },
                _ => {
                    crate::strutil::string_push(&mut out, c);
                    assert(s@.skip(i as int).skip(1) =~= s@.skip(i + 1));
                    assert(out@ + percent_decoded_ascii(s@.skip(i + 1))
                        =~= percent_decoded_ascii(s@));
                    i += 1;
                },
            }
        } else {
            crate::strutil::string_push(&mut out, c);
            assert(s@.skip(i as int).skip(1) =~= s@.skip(i + 1));
            assert(out@ + percent_decoded_ascii(s@.skip(i + 1)) =~= percent_decoded_ascii(s@));
            i += 1;
        }
    }
    assert(s@.skip(len as int) =~= Seq::<char>::empty());
    assert(out@ =~= percent_decoded_ascii(s@));
    out
}

/// The local filesystem path behind a `file://` specifier, if it is one:
/// the URL's path part, with its ASCII percent escapes decoded.
pub open spec fn local_path_spec(s: Seq<char>) -> Option<Seq<char>> {
    if "file://"@.is_prefix_of(s) {
        Some(percent_decoded_ascii(url_path_part(s.skip(7))))
    } else {
        None
    }
}

/// The extension of the file a path names: the characters after the last
/// `.` of the last path component, absent when that component holds no
/// `.` or starts with its only one.
pub open spec fn extension_spec(path: Seq<char>) -> Option<Seq<char>> {
    let start = match last_pos_of(path, '/') {
        Some(i) => i + 1,
        None => 0,
    };
    let name = path.skip(start);
    match last_pos_of(name, '.') {
        Some(d) => if d > 0 {
            Some(name.skip(d + 1))
        } else {
            None
        },
        None => None,
    }
}

/// Whether a specifier is remote.
pub fn specifier_is_remote(s: &str) -> (r: bool)
    ensures
        r == is_remote_specifier(s@),
{
    str_starts_with(s, "http://") || str_starts_with(s, "https://") || str_starts_with(s, "npm:")
}

/// Whether a specifier carries a recognized TypeScript-family extension.
pub fn specifier_has_ts_extension(s: &str) -> (r: bool)
    ensures
        r == has_ts_extension(s@),
{
    str_ends_with(s, ".ts") || str_ends_with(s, ".cts") || str_ends_with(s, ".mts")
        || str_ends_with(s, ".tsx") || str_ends_with(s, ".jsx") || str_ends_with(s, ".ctsx")
        || str_ends_with(s, ".mtsx")
}

/// Whether a specifier carries one of the workspace loader's TypeScript
/// extensions.
pub fn specifier_has_workspace_ts_extension(s: &str) -> (r: bool)
    ensures
        r == has_workspace_ts_extension(s@),
{
    str_ends_with(s, ".ts") || str_ends_with(s, ".cts") || str_ends_with(s, ".mts")
        || str_ends_with(s, ".tsx")
}

/// Whether a content type names TypeScript.
pub fn content_type_is_typescript(ct: &str) -> (r: bool)
    ensures
        r == is_typescript_media_type(ct@),
{
    str_eq_ignore_ascii_case(ct, "application/typescript")
}

/// The URL a remote specifier is fetched from, with the package-alias
/// rewrite applied.
pub fn remote_url_for(s: &str) -> (r: String)
    ensures
        r@ == remote_fetch_url(s@),
{
    if str_starts_with(s, "npm:") {
        proof {
            reveal_strlit("npm:");
        }
        let tail = str_suffix_from(s, 4);
        let mut url = String::from_str("https://cdn.jsdelivr.net/npm/");
        url.append(tail.as_str());
        url.append("/+esm");
        url
    } else {
        s.to_owned()
    }
}

/// The filesystem path behind a `file://` specifier.
pub fn local_path_of(s: &str) -> (r: Option<String>)
    ensures
        match r {
            Some(p) => local_path_spec(s@) == Some(p@),
            None => local_path_spec(s@) is None,
        },
{
    if str_starts_with(s, "file://") {
        proof {
            reveal_strlit("file://");
        }
        let tail = str_suffix_from(s, 7);
        let part = path_part_of(tail.as_str());
        Some(decode_percent_path(part.as_str()))
    } else {
        None
    }
}

/// The extension of the file a path names.
pub fn extension_of(path: &str) -> (r: Option<String>)
    ensures
        match r {
            Some(e) => extension_spec(path@) == Some(e@),
            None => extension_spec(path@) is None,
        },
{
    // the character counts bound the positions below, so the `+ 1` on a
    // found position cannot overflow
    let _path_len = path.unicode_len();
    proof {
        lemma_last_pos_of(path@, '/');
    }
    let start: usize = match find_last_pos(path, '/') {
        Some(i) => i + 1,
        None => 0,
    };
    let name = str_suffix_from(path, start);
    let _name_len = name.as_str().unicode_len();
    proof {
        lemma_last_pos_of(name@, '.');
    }
    match find_last_pos(name.as_str(), '.') {
        Some(d) => if d > 0 {
            Some(str_suffix_from(name.as_str(), d + 1))
        } else {
            None
        },
        None => None,
    }
}

/// The fixed, ordered list of index filenames probed when a bare
/// directory path is imported.
pub fn index_candidates() -> (r: Vec<&'static str>)
    ensures
        r@.len() == 8,
        r@[0]@ == "index.js"@,
        r@[1]@ == "index.cjs"@,
        r@[2]@ == "index.mjs"@,
        r@[3]@ == "index.jsx"@,
        r@[4]@ == "index.ts"@,
        r@[5]@ == "index.cts"@,
        r@[6]@ == "index.mts"@,
        r@[7]@ == "index.tsx"@,
{
    let v: Vec<&'static str> = vec![
        "index.js",
        "index.cjs",
        "index.mjs",
        "index.jsx",
        "index.ts",
        "index.cts",
        "index.mts",
        "index.tsx",
    ];
    v
}

/// Whether the index candidate at this position in the probe order is a
/// TypeScript file that must be transpiled.
pub open spec fn candidate_is_typescript(i: int) -> bool {
    4 <= i < 8
}

/// Whether the index candidate at this position is a TypeScript file.
pub fn index_candidate_is_typescript(i: usize) -> (r: bool)
    ensures
        r == candidate_is_typescript(i as int),
{
    4 <= i && i < 8
}

/// The winning candidate of a directory probe: the position of the first
/// `true` in the existence sequence, if any.
pub open spec fn probe_winner(exists: Seq<bool>) -> Option<int>
    decreases exists.len(),
{
    if exists.len() == 0 {
        None
    } else if exists[0] {
        Some(0)
    } else {
        match probe_winner(exists.skip(1)) {
            Some(i) => Some(i + 1),
            None => None,
        }
    }
}

/// `probe_winner` names the least existing candidate; `None` means none
/// exists.
pub proof fn lemma_probe_winner(exists: Seq<bool>)
    ensures
        match probe_winner(exists) {
            Some(p) => 0 <= p < exists.len() && exists[p] && (forall|j: int|
                0 <= j < p ==> !exists[j]),
            None => forall|j: int| 0 <= j < exists.len() ==> !exists[j],
        },
    decreases exists.len(),
{
    if exists.len() > 0 && !exists[0] {
        let tail = exists.skip(1);
        lemma_probe_winner(tail);
        assert(forall|j: int| 0 <= j < tail.len() ==> tail[j] == exists[j + 1]);
        match probe_winner(tail) {
            Some(i) => {
                assert(probe_winner(exists) == Some(i + 1));
                assert(exists[i + 1] == tail[i]);
                assert forall|j: int| 0 <= j < i + 1 implies !exists[j] by {
                    if j > 0 {
                        assert(tail[j - 1] == exists[j]);
                        assert(!tail[j - 1]);
                    }
                }
            },
            None => {
                assert forall|j: int| 0 <= j < exists.len() implies !exists[j] by {
                    if j > 0 {
                        assert(tail[j - 1] == exists[j]);
                        assert(!tail[j - 1]);
                    }
                }
            },
        }
    }
}

/// Resolve a directory import: given, for each index candidate in probe
/// order, whether that file exists in the directory, the first existing
/// candidate wins; `None` means no candidate exists and the module is not
/// found.
pub fn resolve_directory_index(exists: &Vec<bool>) -> (r: Option<usize>)
    ensures
        match r {
            Some(p) => probe_winner(exists@) == Some(p as int) && p < exists@.len()
                && exists@[p as int] && (forall|j: int| 0 <= j < p ==> !exists@[j]),
            None => probe_winner(exists@) is None && (forall|j: int|
                0 <= j < exists@.len() ==> !exists@[j]),
        },
{
    let n = exists.len();
    let mut i: usize = 0;
    while i < n
        invariant
            0 <= i <= n,
            n == exists@.len(),
            forall|j: int| 0 <= j < i ==> !exists@[j],
        decreases n - i,
    {
        if exists[i] {
            proof {
                lemma_probe_winner(exists@);
                match probe_winner(exists@) {
                    Some(w) => {
                        if w < i as int {
                            assert(!exists@[w]);
                        } else if (i as int) < w {
                            assert(!exists@[i as int]);
                        }
                    },
                    None => {
                        assert(!exists@[i as int]);
                    },
                }
            }
            return Some(i);
        }
        i += 1;
    }
    proof {
        lemma_probe_winner(exists@);
        match probe_winner(exists@) {
            Some(w) => {
                assert(!exists@[w]);
            },
            None => {},
        }
    }
    None
}

} // verus!
