//! Whitespace-aware text helpers shared by the identifier and tag codecs.

use crate::codec::is_space_char;
use crate::codec::is_space_char_ex;
use vstd::prelude::*;

verus! {

// ---------------------------------------------------------------------------
// Spec model
// ---------------------------------------------------------------------------

/// The sequence with leading whitespace characters removed.
pub open spec fn trim_start_spec(s: Seq<char>) -> Seq<char>
    decreases s.len(),
{
    if s.len() > 0 && is_space_char(s[0]) {
        trim_start_spec(s.drop_first())
    } else {
        s
    }
}

/// The sequence with trailing whitespace characters removed.
pub open spec fn trim_end_spec(s: Seq<char>) -> Seq<char>
    decreases s.len(),
{
    if s.len() > 0 && is_space_char(s[s.len() - 1]) {
        trim_end_spec(s.drop_last())
    } else {
        s
    }
}

/// The sequence with surrounding whitespace removed.
pub open spec fn trim_spec(s: Seq<char>) -> Seq<char> {
    trim_end_spec(trim_start_spec(s))
}

/// Suffix of [`removed_spaces`] from position `i` on.
pub open spec fn removed_spaces_from(s: Seq<char>, i: int) -> Seq<char>
    decreases s.len() - i,
{
    if i < 0 || i >= s.len() {
        Seq::empty()
    } else if is_space_char(s[i]) {
        removed_spaces_from(s, i + 1)
    } else {
        seq![s[i]] + removed_spaces_from(s, i + 1)
    }
}

/// The sequence with every whitespace character removed.
pub open spec fn removed_spaces(s: Seq<char>) -> Seq<char> {
    removed_spaces_from(s, 0)
}

/// Suffix of [`adjusted`] from position `i` on.  `owe` records that a
/// separating space is due before the next word character; `emitted` records
/// that some word character has already been produced.
pub open spec fn adjusted_from(s: Seq<char>, i: int, owe: bool, emitted: bool) -> Seq<char>
    decreases s.len() - i,
{
    if i < 0 || i >= s.len() {
        Seq::empty()
    } else if is_space_char(s[i]) {
        adjusted_from(s, i + 1, emitted, emitted)
    } else if owe {
        seq![' ', s[i]] + adjusted_from(s, i + 1, false, true)
    } else {
        seq![s[i]] + adjusted_from(s, i + 1, false, true)
    }
}

/// The sequence with surrounding whitespace removed and every interior run
/// of whitespace replaced by a single space.
pub open spec fn adjusted(s: Seq<char>) -> Seq<char> {
    adjusted_from(s, 0, false, false)
}

/// A sequence without whitespace characters is unchanged by trimming.
pub proof fn lemma_trim_no_space(s: Seq<char>)
    requires
        forall|i: int| 0 <= i < s.len() ==> !is_space_char(s[i]),
    ensures
        trim_spec(s) == s,
{
    lemma_trim_start_at(s, 0);
    assert(s.skip(0) =~= s);
    lemma_trim_end_at(s, s.len() as int);
    assert(s.take(s.len() as int) =~= s);
}

/// If the first `lo` characters are whitespace and the one after them (if
/// any) is not, trimming the start drops exactly `lo` characters.
pub proof fn lemma_trim_start_at(s: Seq<char>, lo: int)
    requires
        0 <= lo <= s.len(),
        forall|j: int| 0 <= j < lo ==> is_space_char(s[j]),
        lo < s.len() ==> !is_space_char(s[lo]),
    ensures
        trim_start_spec(s) == s.skip(lo),
    decreases lo,
{
    if lo == 0 {
        assert(s.skip(0) =~= s);
    } else {
        let d = s.drop_first();
        assert forall|j: int| 0 <= j < lo - 1 implies is_space_char(d[j]) by {
            assert(d[j] == s[j + 1]);
        }
        lemma_trim_start_at(d, lo - 1);
        assert(d.skip(lo - 1) =~= s.skip(lo));
    }
}

/// If the characters from `hi` on are whitespace and the one before `hi`
/// (if any) is not, trimming the end keeps exactly `hi` characters.
pub proof fn lemma_trim_end_at(s: Seq<char>, hi: int)
    requires
        0 <= hi <= s.len(),
        forall|j: int| hi <= j < s.len() ==> is_space_char(s[j]),
        hi > 0 ==> !is_space_char(s[hi - 1]),
    ensures
        trim_end_spec(s) == s.take(hi),
    decreases s.len(),
{
    if hi < s.len() {
        lemma_trim_end_at(s.drop_last(), hi);
        assert(s.drop_last().take(hi) =~= s.take(hi));
    } else {
        assert(s.take(hi) =~= s);
    }
}

// ---------------------------------------------------------------------------
// Executable helpers
// ---------------------------------------------------------------------------

/// Relies on `String::push`: appends a single character at the end.
#[verifier::external_body]
pub(crate) fn push_char(s: &mut String, c: char)
    ensures
        final(s)@ == old(s)@.push(c),
{
    s.push(c);
}

/// Collect the characters of a string slice into a vector.
pub(crate) fn str_chars(s: &str) -> (r: Vec<char>)
    ensures
        r@ == s@,
{
    let n = s.unicode_len();
    let mut out: Vec<char> = Vec::new();
    let mut i: usize = 0;
    while i < n
        invariant
            n == s@.len(),
            i <= n,
            out@ == s@.take(i as int),
        decreases n - i,
    {
        out.push(s.get_char(i));
        i = i + 1;
        proof {
            assert(out@ =~= s@.take(i as int));
        }
    }
    proof {
        assert(s@.take(n as int) =~= s@);
    }
    out
}

/// Copy the characters with surrounding whitespace removed.
pub(crate) fn trim_chars(chars: &Vec<char>) -> (r: Vec<char>)
    ensures
        r@ == trim_spec(chars@),
{
    let n = chars.len();
    let mut lo: usize = 0;
    while lo < n && is_space_char_ex(chars[lo])
        invariant
            lo <= n,
            n == chars@.len(),
            forall|j: int| 0 <= j < lo ==> is_space_char(chars@[j]),
        decreases n - lo,
    {
        lo = lo + 1;
    }
    let mut hi: usize = n;
    while hi > lo && is_space_char_ex(chars[hi - 1])
        invariant
            lo <= hi <= n,
            n == chars@.len(),
            forall|j: int| 0 <= j < lo ==> is_space_char(chars@[j]),
            forall|j: int| hi <= j < n ==> is_space_char(chars@[j]),
        decreases hi,
    {
        hi = hi - 1;
    }
    proof {
        lemma_trim_start_at(chars@, lo as int);
        let d = chars@.skip(lo as int);
        assert forall|j: int| hi - lo <= j < d.len() implies is_space_char(d[j]) by {
            assert(d[j] == chars@[j + lo]);
        }
        if hi > lo {
            assert(d[hi - lo - 1] == chars@[hi - 1]);
        }
        lemma_trim_end_at(d, hi - lo);
    }
    let mut out: Vec<char> = Vec::new();
    let mut i: usize = lo;
    while i < hi
        invariant
            lo <= i <= hi <= n,
            n == chars@.len(),
            out@ == chars@.subrange(lo as int, i as int),
        decreases hi - i,
    {
        out.push(chars[i]);
        i = i + 1;
        proof {
            assert(out@ =~= chars@.subrange(lo as int, i as int));
        }
    }
    proof {
        assert(chars@.subrange(lo as int, hi as int) =~= chars@.skip(lo as int).take(
            hi as int - lo as int,
        ));
    }
    out
}

/// Replace every run of whitespace with a single space and remove
/// surrounding whitespace.
pub fn adjust_whitespaces(s: &str) -> (r: String)
    ensures
        r@ == adjusted(s@),
{
    let chars = str_chars(s);
    let n = chars.len();
    let mut out = String::new();
    let mut owe = false;
    let mut emitted = false;
    let mut i: usize = 0;
    while i < n
        invariant
            i <= n,
            n == chars@.len(),
            chars@ == s@,
            adjusted(s@) == out@ + adjusted_from(s@, i as int, owe, emitted),
        decreases n - i,
    {
        let c = chars[i];
        if is_space_char_ex(c) {
            owe = emitted;
        } else {
            if owe {
                push_char(&mut out, ' ');
            }
            push_char(&mut out, c);
            owe = false;
            emitted = true;
        }
        i = i + 1;
        proof {
            assert(adjusted(s@) =~= out@ + adjusted_from(s@, i as int, owe, emitted));
        }
    }
    proof {
        assert(adjusted(s@) =~= out@);
    }
    out
}

/// Remove every whitespace character from the string.
pub fn remove_whitespace(s: &str) -> (r: String)
    ensures
        r@ == removed_spaces(s@),
{
    let chars = str_chars(s);
    let n = chars.len();
    let mut out = String::new();
    let mut i: usize = 0;
    while i < n
        invariant
            i <= n,
            n == chars@.len(),
            chars@ == s@,
            removed_spaces(s@) == out@ + removed_spaces_from(s@, i as int),
        decreases n - i,
    {
        let c = chars[i];
        if !is_space_char_ex(c) {
            push_char(&mut out, c);
        }
        i = i + 1;
        proof {
            assert(removed_spaces(s@) =~= out@ + removed_spaces_from(s@, i as int));
        }
    }
    proof {
        assert(removed_spaces(s@) =~= out@);
    }
    out
}

} // verus!
