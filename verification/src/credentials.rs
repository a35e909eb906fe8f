//! API and application keys, and the rule that decides whether a key is usable.

use vstd::prelude::*;
use vstd::string::*;

verus! {

/// Whether `c` may occur in a key: an ASCII letter or an ASCII digit.
pub open spec fn is_key_char(c: char) -> bool {
    ('a' <= c && c <= 'z') || ('A' <= c && c <= 'Z') || ('0' <= c && c <= '9')
}

/// A key is usable when it is not empty and holds nothing but ASCII letters and
/// ASCII digits.
pub open spec fn is_valid_key(key: Seq<char>) -> bool {
    key.len() > 0 && forall|i: int| 0 <= i < key.len() ==> is_key_char(#[trigger] key[i])
}

/// Whether the byte is the code of an ASCII letter or an ASCII digit.
fn is_key_byte(b: u8) -> (r: bool)
    ensures
        r == is_key_char(b as char),
{
    (0x61 <= b && b <= 0x7a) || (0x41 <= b && b <= 0x5a) || (0x30 <= b && b <= 0x39)
}

/// Decides whether `key` is usable as an API or application key.
pub fn valid(key: &str) -> (r: bool)
    ensures
        r == is_valid_key(key@),
{
    if !key.is_ascii() {
        return false;
    }
    let bytes = key.as_bytes();
    proof {
        is_ascii_spec_bytes(key);
    }
    let n = bytes.len();
    if n == 0 {
        return false;
    }
    let mut i: usize = 0;
    while i < n
        invariant
            n == bytes@.len(),
            n == key@.len(),
            i <= n,
            is_ascii(key),
            forall|j: int| 0 <= j < n ==> bytes@[j] == key@[j] as u8,
            forall|j: int| 0 <= j < i ==> is_key_char(#[trigger] key@[j]),
        decreases n - i,
    {
        if !is_key_byte(bytes[i]) {
            assert(!is_key_char(key@[i as int]));
            return false;
        }
        assert(is_key_char(key@[i as int]));
        i = i + 1;
    }
    true
}

/// Decides whether both keys are usable: each on its own must be.
pub fn validate_keys(api_key: &str, app_key: &str) -> (r: bool)
    ensures
        r == (is_valid_key(api_key@) && is_valid_key(app_key@)),
{
    valid(api_key) && valid(app_key)
}

/// The two keys that the vendor asks for.
#[derive(Debug, PartialEq, Eq)]
pub struct Credentials {
    pub api_key: String,
    pub app_key: String,
}

/// What a [`Credentials`] holds, as mathematical strings.
pub struct CredentialsModel {
    pub api_key: Seq<char>,
    pub app_key: Seq<char>,
}

impl View for Credentials {
    type V = CredentialsModel;

    open spec fn view(&self) -> CredentialsModel {
        CredentialsModel { api_key: self.api_key@, app_key: self.app_key@ }
    }
}

impl CredentialsModel {
    /// Both keys are usable.
    pub open spec fn is_valid(self) -> bool {
        is_valid_key(self.api_key) && is_valid_key(self.app_key)
    }
}

/// Whether `c` is white space: a character with the Unicode property
/// `White_Space`.
pub open spec fn is_space(c: char) -> bool {
    ('\u{9}' <= c && c <= '\u{d}') || c == ' ' || c == '\u{85}' || c == '\u{a0}' || c
        == '\u{1680}' || ('\u{2000}' <= c && c <= '\u{200a}') || c == '\u{2028}' || c
        == '\u{2029}' || c == '\u{202f}' || c == '\u{205f}' || c == '\u{3000}'
}

/// `line` without the white space at its end.
pub open spec fn trim_end(line: Seq<char>) -> Seq<char>
    decreases line.len(),
{
    if line.len() > 0 && is_space(line.last()) {
        trim_end(line.drop_last())
    } else {
        line
    }
}

/// What trimming does, said without going through the line: the result is the
/// front of the line, it does not end in white space, and all that was taken off
/// is white space.
pub proof fn lemma_trim_end(line: Seq<char>)
    ensures
        trim_end(line).len() <= line.len(),
        trim_end(line) == line.take(trim_end(line).len() as int),
        trim_end(line).len() > 0 ==> !is_space(trim_end(line).last()),
        forall|i: int| trim_end(line).len() <= i < line.len() ==> is_space(#[trigger] line[i]),
    decreases line.len(),
{
    if line.len() > 0 && is_space(line.last()) {
        let shorter = line.drop_last();
        lemma_trim_end(shorter);
        let kept = trim_end(shorter).len() as int;
        assert(shorter.take(kept) =~= line.take(kept));
        assert forall|i: int| kept <= i < line.len() implies is_space(#[trigger] line[i]) by {
            if i < shorter.len() {
                assert(shorter[i] == line[i]);
            }
        }
    } else {
        assert(line.take(line.len() as int) =~= line);
    }
}

fn space(c: char) -> (r: bool)
    ensures
        r == is_space(c),
{
    ('\u{9}' <= c && c <= '\u{d}') || c == ' ' || c == '\u{85}' || c == '\u{a0}' || c
        == '\u{1680}' || ('\u{2000}' <= c && c <= '\u{200a}') || c == '\u{2028}' || c
        == '\u{2029}' || c == '\u{202f}' || c == '\u{205f}' || c == '\u{3000}'
}

/// Takes the white space, line break included, off the end of a line that was
/// typed in. Nothing else is changed: white space in front stays.
pub fn trim_line(line: &str) -> (r: String)
    ensures
        r@ == trim_end(line@),
{
    let mut end = line.unicode_len();
    assert(line@.take(end as int) =~= line@);
    while end > 0 && space(line.get_char(end - 1))
        invariant
            end <= line@.len(),
            trim_end(line@) == trim_end(line@.take(end as int)),
        decreases end,
    {
        proof {
            let kept = line@.take(end as int);
            assert(kept.last() == line@[end - 1]);
            assert(kept.drop_last() =~= line@.take(end - 1));
        }
        end = end - 1;
    }
    proof {
        let kept = line@.take(end as int);
        if end > 0 {
            assert(kept.last() == line@[end - 1]);
        }
        assert(line@.subrange(0, end as int) =~= kept);
    }
    String::from_str(line.substring_char(0, end))
}

impl Credentials {
    /// The credentials that two typed lines give: each line without the white
    /// space at its end. They are taken as they are, usable or not.
    pub fn from_lines(api_line: &str, app_line: &str) -> (r: Credentials)
        ensures
            r@ == (CredentialsModel { api_key: trim_end(api_line@), app_key: trim_end(app_line@) }),
    {
        Credentials { api_key: trim_line(api_line), app_key: trim_line(app_line) }
    }
}

} // verus!
