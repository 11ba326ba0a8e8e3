//! Tags categorizing items.
//!
//! A tag is stored lower-case with its whitespace collapsed, shown in
//! title case, and linked as a URL-encoded slug.

use crate::util::string::adjusted;
use crate::util::string::adjust_whitespaces;
use crate::util::string::push_char;
use crate::util::string::str_chars;
use vstd::prelude::*;
use vstd::string::StringSliceAdditionalSpecFns;

verus! {

/// Longest tag accepted, in UTF-8 bytes.
pub const TAG_MAX_BYTES: usize = 48;

/// What `str::to_lowercase` returns: a function of the characters alone.
pub uninterp spec fn lower_of(s: Seq<char>) -> Seq<char>;

/// Relies on `str::to_lowercase`: the Unicode lower-case form, a function
/// of the characters alone; empty input stays empty.
#[verifier::external_body]
fn to_lowercase(s: &str) -> (r: String)
    ensures
        r@ == lower_of(s@),
        s@.len() == 0 ==> r@.len() == 0,
{
    s.to_lowercase()
}

/// What heck's `to_title_case` returns: a function of the characters
/// alone.
pub uninterp spec fn title_case_of(s: Seq<char>) -> Seq<char>;

/// Relies on heck's `to_title_case`: every word capitalized and words
/// joined by single spaces, a function of the characters alone; empty
/// input stays empty.
#[verifier::external_body]
fn to_title_case(s: &str) -> (r: String)
    ensures
        r@ == title_case_of(s@),
        s@.len() == 0 ==> r@.len() == 0,
{
    heck::ToTitleCase::to_title_case(s)
}

/// Value of `x` as an upper-case hexadecimal digit character.
pub open spec fn hex_digit_char(x: u8) -> char {
    if x < 10 {
        ((x + 48) as u32) as char
    } else {
        ((x + 55) as u32) as char
    }
}

/// Bytes the URL encoding keeps as they are: ASCII alphanumerics and
/// `-`, `.`, `_`, `~`.
pub open spec fn url_safe_byte(b: u8) -> bool {
    (48 <= b && b <= 57) || (65 <= b && b <= 90) || (97 <= b && b <= 122) || b == 45 || b == 46
        || b == 95 || b == 126
}

/// The percent-encoding of a byte string from position `i` on: safe bytes
/// stand for themselves, every other byte becomes `%` and two upper-case
/// hexadecimal digits.
pub open spec fn url_encoded_from(bytes: Seq<u8>, i: int) -> Seq<char>
    decreases bytes.len() - i,
{
    if i < 0 || i >= bytes.len() {
        Seq::empty()
    } else if url_safe_byte(bytes[i]) {
        seq![bytes[i] as char] + url_encoded_from(bytes, i + 1)
    } else {
        seq!['%', hex_digit_char(bytes[i] / 16), hex_digit_char(bytes[i] % 16)] + url_encoded_from(
            bytes,
            i + 1,
        )
    }
}

/// The percent-encoding of a byte string.
pub open spec fn url_encoded(bytes: Seq<u8>) -> Seq<char> {
    url_encoded_from(bytes, 0)
}

/// Relies on `urlencoding::encode`: percent-encodes every UTF-8 byte
/// except ASCII alphanumerics and `-`, `.`, `_`, `~`, with upper-case
/// hexadecimal digits.
#[verifier::external_body]
fn url_encode(s: &str) -> (r: String)
    ensures
        r@ == url_encoded(s.spec_bytes()),
{
    urlencoding::encode(s).into_owned()
}

/// The tag with every space turned into a hyphen.
pub open spec fn hyphenated(s: Seq<char>) -> Seq<char> {
    Seq::new(
        s.len(),
        |i: int|
            if s[i] == ' ' {
                '-'
            } else {
                s[i]
            },
    )
}

/// A character the tag validation rejects: every ASCII symbol except the
/// underscore.
pub open spec fn tag_invalid_char(c: char) -> bool {
    let u = c as u32;
    (33 <= u && u <= 47) || (58 <= u && u <= 64) || (91 <= u && u <= 94) || u == 96 || (123 <= u
        && u <= 126)
}

/// Some character of the sequence is rejected.
pub open spec fn has_tag_invalid_char(s: Seq<char>) -> bool {
    exists|i: int| 0 <= i < s.len() && tag_invalid_char(s[i])
}

fn tag_invalid_char_ex(c: char) -> (r: bool)
    ensures
        r == tag_invalid_char(c),
{
    let u = c as u32;
    (33 <= u && u <= 47) || (58 <= u && u <= 64) || (91 <= u && u <= 94) || u == 96 || (123 <= u
        && u <= 126)
}

/// A string categorizing items.  Stored lower-case; displayed in title
/// case.
#[derive(Debug, Clone, Eq, Hash)]
pub struct Tag {
    text: String,
}

/// Errors reported while building a tag; each carries the adjusted text
/// the tag would have had.
#[derive(Debug, Clone, PartialEq, Eq)]
pub enum TagCreationError {
    TagTooLong(String),
    TagEmpty(String),
    TagInvalidCharacters(String),
    TagExists(String),
}

/// Errors reported while looking a tag up.
#[derive(Debug, Clone, PartialEq, Eq)]
pub enum TagError {
    TagNotFound(Tag),
}

impl View for Tag {
    type V = Seq<char>;

    closed spec fn view(&self) -> Seq<char> {
        self.text@
    }
}

impl Tag {
    /// Accept a tag: whitespace is collapsed, the result must be
    /// non-empty, at most 48 UTF-8 bytes long and free of ASCII symbols
    /// other than the underscore; it is stored lower-case.
    pub fn new(tag: &str) -> (r: Result<Self, TagCreationError>)
        ensures
            ({
                let a = adjusted(tag@);
                match r {
                    Ok(t) => a.len() > 0 && vstd::utf8::encode_utf8(a).len() <= TAG_MAX_BYTES
                        && !has_tag_invalid_char(a) && t@ == lower_of(a),
                    Err(e) => match e {
                        TagCreationError::TagEmpty(x) => x@ == a && a.len() == 0,
                        TagCreationError::TagTooLong(x) => x@ == a && vstd::utf8::encode_utf8(
                            a,
                        ).len() > TAG_MAX_BYTES,
                        TagCreationError::TagInvalidCharacters(x) => x@ == a
                            && vstd::utf8::encode_utf8(a).len() <= TAG_MAX_BYTES
                            && has_tag_invalid_char(a),
                        TagCreationError::TagExists(_) => false,
                    },
                }
            }),
    {
        let t = adjust_whitespaces(tag);
        if t.as_str().is_empty() {
            return Err(TagCreationError::TagEmpty(t));
        }
        if t.as_str().as_bytes().len() > TAG_MAX_BYTES {
            return Err(TagCreationError::TagTooLong(t));
        }
        let chars = str_chars(t.as_str());
        let n = chars.len();
        let mut i: usize = 0;
        while i < n
            invariant
                i <= n,
                n == chars@.len(),
                chars@ == adjusted(tag@),
                t@ == adjusted(tag@),
                vstd::utf8::encode_utf8(adjusted(tag@)).len() <= TAG_MAX_BYTES,
                adjusted(tag@).len() > 0,
                forall|j: int| 0 <= j < i ==> !tag_invalid_char(chars@[j]),
            decreases n - i,
        {
            if tag_invalid_char_ex(chars[i]) {
                return Err(TagCreationError::TagInvalidCharacters(t));
            }
            i = i + 1;
        }
        Ok(Tag { text: to_lowercase(t.as_str()) })
    }

    /// The stored (lower-case) text of the tag.
    pub fn as_str(&self) -> (r: &str)
        ensures
            r@ == self@,
    {
        self.text.as_str()
    }

    /// The tag as a URL path piece: spaces become hyphens, then the text
    /// is percent-encoded.
    pub fn to_url(&self) -> (r: String)
        ensures
            r@ == url_encoded(vstd::utf8::encode_utf8(hyphenated(self@))),
    {
        let chars = str_chars(self.text.as_str());
        let n = chars.len();
        let mut slug = String::new();
        let mut i: usize = 0;
        while i < n
            invariant
                i <= n,
                n == chars@.len(),
                chars@ == self@,
                slug@ =~= hyphenated(self@).take(i as int),
            decreases n - i,
        {
            let c = chars[i];
            if c == ' ' {
                push_char(&mut slug, '-');
            } else {
                push_char(&mut slug, c);
            }
            i = i + 1;
            proof {
                assert(slug@ =~= hyphenated(self@).take(i as int));
            }
        }
        proof {
            assert(hyphenated(self@).take(n as int) =~= hyphenated(self@));
        }
        url_encode(slug.as_str())
    }

    /// Render the tag for display: its title-case form.
    pub fn to_display_string(&self) -> (r: String)
        ensures
            r@ == title_case_of(self@),
    {
        to_title_case(self.text.as_str())
    }
}

impl PartialEq for Tag {
    /// Tags are equal when their stored texts are equal.
    fn eq(&self, other: &Self) -> (r: bool) {
        self.text.eq(&other.text)
    }
}

impl vstd::std_specs::cmp::PartialEqSpecImpl for Tag {
    open spec fn obeys_eq_spec() -> bool {
        true
    }

    open spec fn eq_spec(&self, other: &Self) -> bool {
        self@ == other@
    }
}

} // verus!
