//! What the launcher decides before it talks to mpv: which files it
//! refuses, and how text is handed to the Windows API.
use vstd::prelude::*;

use crate::command_line::LoadfileFlags;
use crate::registry::Unregistered;
use crate::text::{decimal, decimal_text, to_chars};

verus! {

/// The UTF-16 code units of one character.
pub open spec fn utf16_of_char(c: char) -> Seq<u16> {
    let v = c as int;
    if v < 0x10000 {
        seq![v as u16]
    } else {
        let w = v - 0x10000;
        seq![(0xD800 + w / 0x400) as u16, (0xDC00 + w % 0x400) as u16]
    }
}

/// The UTF-16 encoding of a character sequence.
pub open spec fn utf16_of(s: Seq<char>) -> Seq<u16>
    decreases s.len(),
{
    if s.len() == 0 {
        Seq::empty()
    } else {
        utf16_of(s.drop_last()) + utf16_of_char(s.last())
    }
}

/// Appends the UTF-16 code units of `c` to `wide`.
fn push_utf16(wide: &mut Vec<u16>, c: char)
    ensures
        final(wide)@ == old(wide)@ + utf16_of_char(c),
{
    let v = c as u32;
    assert(v as int == c as int);
    if v < 0x10000 {
        wide.push(v as u16);
    } else {
        let w = v - 0x10000;
        assert(w < 0x100000);
        wide.push((0xD800 + w / 0x400) as u16);
        wide.push((0xDC00 + w % 0x400) as u16);
    }
    assert(wide@ =~= old(wide)@ + utf16_of_char(c));
}

/// The UTF-16 encoding of `string` followed by a terminating zero, as the
/// wide-character Windows API takes text.
pub fn encode_wide(string: &str) -> (wide: Vec<u16>)
    ensures
        wide@ == utf16_of(string@).push(0),
{
    let mut wide: Vec<u16> = Vec::new();
    for c in it: string.chars()
        invariant
            it.seq() == string@,
            wide@ == utf16_of(string@.take(it.index() as int)),
    {
        proof {
            let i = it.index() as int;
            assert(string@.take(i + 1).drop_last() =~= string@.take(i));
            assert(string@.take(i + 1).last() == c);
        }
        push_utf16(&mut wide, c);
    }
    assert(string@.take(string@.len() as int) =~= string@);
    wide.push(0);
    wide
}

/// A character that is not NUL encodes to code units that are not zero.
pub proof fn lemma_utf16_of_char_has_no_zero(c: char)
    requires
        c != '\0',
    ensures
        forall|j: int| 0 <= j < utf16_of_char(c).len() ==> utf16_of_char(c)[j] != 0,
{
    let v = c as int;
    if v < 0x10000 {
        assert((v as u16) as int == v);
    } else {
        let w = v - 0x10000;
        assert(w < 0x100000);
        assert(w / 0x400 < 0x400);
        assert(((0xD800 + w / 0x400) as u16) as int == 0xD800 + w / 0x400);
        assert(utf16_of_char(c)[0] != 0);
        assert(utf16_of_char(c)[1] != 0);
    }
}

/// Characters that are not NUL encode to code units that are not zero.
pub proof fn lemma_utf16_has_no_zero(s: Seq<char>)
    requires
        forall|i: int| 0 <= i < s.len() ==> s[i] != '\0',
    ensures
        forall|j: int| 0 <= j < utf16_of(s).len() ==> utf16_of(s)[j] != 0,
    decreases s.len(),
{
    if s.len() > 0 {
        lemma_utf16_has_no_zero(s.drop_last());
        let c = s.last();
        assert(c != '\0');
        assert((c as int) != 0);
        let p = utf16_of(s.drop_last());
        let q = utf16_of_char(c);
        assert(utf16_of(s) == p + q);
        lemma_utf16_of_char_has_no_zero(c);
        assert forall|j: int| 0 <= j < utf16_of(s).len() implies utf16_of(s)[j] != 0 by {
            if j < p.len() {
                assert(utf16_of(s)[j] == p[j]);
            } else {
                assert(utf16_of(s)[j] == q[j - p.len()]);
            }
        }
    }
}

/// Text without NUL characters reaches the Windows API whole: the only zero
/// in its wide encoding is the terminating one.
pub proof fn lemma_wide_text_terminates_once(s: Seq<char>)
    requires
        forall|i: int| 0 <= i < s.len() ==> s[i] != '\0',
    ensures
        utf16_of(s).push(0).last() == 0,
        forall|j: int| 0 <= j < utf16_of(s).len() ==> utf16_of(s).push(0)[j] != 0,
{
    lemma_utf16_has_no_zero(s);
}

/// `c` is an ASCII letter.
pub open spec fn is_ascii_alphabetic(c: char) -> bool {
    ('a' <= c && c <= 'z') || ('A' <= c && c <= 'Z')
}

/// `c` is an ASCII letter or digit.
pub open spec fn is_ascii_alphanumeric(c: char) -> bool {
    is_ascii_alphabetic(c) || ('0' <= c && c <= '9')
}

/// `c` may stand in a URL scheme.
pub open spec fn is_scheme_char(c: char) -> bool {
    is_ascii_alphanumeric(c) || c == '+' || c == '-' || c == '.'
}

/// `://` starts at position `i` of `s`.
pub open spec fn scheme_separator_at(s: Seq<char>, i: int) -> bool {
    0 <= i && i + 3 <= s.len() && s[i] == ':' && s[i + 1] == '/' && s[i + 2] == '/'
}

/// A URL scheme: a letter, then letters, digits, `+`, `-` or `.`.
pub open spec fn is_url_scheme(scheme: Seq<char>) -> bool {
    &&& scheme.len() > 0
    &&& is_ascii_alphabetic(scheme[0])
    &&& forall|k: int| 0 <= k < scheme.len() ==> is_scheme_char(scheme[k])
}

/// The text before the first `://` of `s` is a URL scheme.
pub open spec fn has_url_scheme_spec(s: Seq<char>) -> bool {
    exists|i: int|
        #![trigger scheme_separator_at(s, i)]
        scheme_separator_at(s, i) && (forall|j: int| 0 <= j < i ==> !scheme_separator_at(s, j))
            && is_url_scheme(s.take(i))
}

/// Whether `argument` starts with a URL scheme followed by `://`.
pub fn has_url_scheme(argument: &str) -> (b: bool)
    ensures
        b == has_url_scheme_spec(argument@),
{
    let chars = to_chars(argument);
    let n = chars.len();
    let mut i: usize = 0;
    let mut found = false;
    while n >= 3 && i <= n - 3 && !found
        invariant
            n == chars@.len(),
            chars@ == argument@,
            forall|j: int| 0 <= j < i ==> !scheme_separator_at(chars@, j),
            found ==> scheme_separator_at(chars@, i as int),
        decreases n - i + (if found { 0int } else { 1int }),
    {
        if chars[i] == ':' && chars[i + 1] == '/' && chars[i + 2] == '/' {
            found = true;
        } else {
            i = i + 1;
        }
    }
    if !found {
        assert forall|j: int| !scheme_separator_at(chars@, j) by {
            if 0 <= j < i {
            } else if scheme_separator_at(chars@, j) {
                assert(j + 3 <= n);
            }
        }
        return false;
    }
    // The separator found is the first one: no other can be.
    assert forall|k: int|
        #![trigger scheme_separator_at(argument@, k)]
        scheme_separator_at(argument@, k) && (forall|j: int| 0 <= j < k ==> !scheme_separator_at(argument@, j))
        implies k == i by {
        if k > i {
            assert(!scheme_separator_at(argument@, i as int));
        }
    }
    if i == 0 || !(('a' <= chars[0] && chars[0] <= 'z') || ('A' <= chars[0] && chars[0] <= 'Z')) {
        assert(!is_url_scheme(chars@.take(i as int)));
        return false;
    }
    let mut k: usize = 0;
    let mut all_scheme_chars = true;
    while k < i && all_scheme_chars
        invariant
            i < n,
            n == chars@.len(),
            k <= i,
            all_scheme_chars ==> forall|m: int| 0 <= m < k ==> is_scheme_char(chars@[m]),
            !all_scheme_chars ==> k < i && !is_scheme_char(chars@[k as int]),
        decreases i - k + (if all_scheme_chars { 1int } else { 0int }),
    {
        let c = chars[k];
        if ('a' <= c && c <= 'z') || ('A' <= c && c <= 'Z') || ('0' <= c && c <= '9') || c == '+'
            || c == '-' || c == '.' {
            k = k + 1;
        } else {
            all_scheme_chars = false;
        }
    }
    if !all_scheme_chars {
        assert(!is_scheme_char(chars@.take(i as int)[k as int]));
        return false;
    }
    assert(is_url_scheme(chars@.take(i as int)));
    assert(scheme_separator_at(argument@, i as int));
    true
}

/// What opening a file from the command line comes to before mpv is asked.
#[derive(Debug)]
pub enum OpenRequest {
    /// No file was given.
    NothingToOpen,
    /// The argument is a URL; only local files can be opened.
    UrlRefused,
    /// A local file, to be made absolute and opened.
    LocalFile(String),
}

/// Decides what to do with the file given on the command line.
pub fn open(file: Option<&str>) -> (request: OpenRequest)
    ensures
        match file {
            None => request is NothingToOpen,
            Some(f) => if has_url_scheme_spec(f@) {
                request is UrlRefused
            } else {
                request matches OpenRequest::LocalFile(g) && g@ == f@
            },
        },
{
    match file {
        None => OpenRequest::NothingToOpen,
        Some(f) => {
            if has_url_scheme(f) {
                OpenRequest::UrlRefused
            } else {
                OpenRequest::LocalFile(String::from_str(f))
            }
        },
    }
}

/// The message shown when a URL is given.
pub fn url_refused_message() -> (m: String)
    ensures
        m@ == "URLs are not supported.\nOnly local files can be opened."@,
{
    String::from_str("URLs are not supported.\nOnly local files can be opened.")
}

/// The message shown after registering.
pub open spec fn registered_message_text(extension_count: usize, loadfile_flags: LoadfileFlags) -> Seq<char> {
    "Registered for "@ + decimal_text(extension_count as nat) + " file extension(s).\nloadfile: "@
        + loadfile_flags.text()
}

/// The message shown after registering.
pub fn registered_message(extension_count: usize, loadfile_flags: LoadfileFlags) -> (m: String)
    ensures
        m@ == registered_message_text(extension_count, loadfile_flags),
{
    let m = String::from_str("Registered for ")
        .concat(decimal(extension_count as u64).as_str())
        .concat(" file extension(s).\nloadfile: ")
        .concat(loadfile_flags.as_str());
    m
}

/// The message shown after unregistering.
pub open spec fn unregistered_message_text(unregistered: Unregistered) -> Seq<char> {
    match unregistered {
        Unregistered::Nothing => "Nothing to unregister."@,
        Unregistered::ProgIdOnly => "Removed the umpv ProgID.\nNo file extensions were pointing at umpv."@,
        Unregistered::ExtensionsRestored(n) => "Unregistered for "@ + decimal_text(n as nat)
            + " file extension(s)."@,
    }
}

/// The message shown after unregistering.
pub fn unregistered_message(unregistered: Unregistered) -> (m: String)
    ensures
        m@ == unregistered_message_text(unregistered),
{
    match unregistered {
        Unregistered::Nothing => String::from_str("Nothing to unregister."),
        Unregistered::ProgIdOnly => String::from_str(
            "Removed the umpv ProgID.\nNo file extensions were pointing at umpv.",
        ),
        Unregistered::ExtensionsRestored(n) => String::from_str("Unregistered for ")
            .concat(decimal(n as u64).as_str())
            .concat(" file extension(s)."),
    }
}

} // verus!
