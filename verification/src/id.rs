//! Catalog identifier: a readable, case-folded id for items, markets and
//! stores, packed into a 16-byte buffer.
//!
//! Identifiers hold 3 to 21 characters drawn from lower-case letters,
//! digits and interior hyphens.  Input is trimmed and folded to lower case
//! before validation, so the identifier is case-blind at the source.

use crate::codec::catalog_char;
use crate::codec::catalog_char_ex;
use crate::codec::catalog_code;
use crate::codec::catalog_code_ex;
use crate::codec::code_at;
use crate::codec::code_at_ex;
use crate::codec::code_in;
use crate::codec::decoded_len;
use crate::codec::first_zero;
use crate::codec::fold_char;
use crate::codec::fold_char_ex;
use crate::codec::lemma_catalog_char_code;
use crate::codec::lemma_decoded_len_is;
use crate::codec::lemma_first_zero_is;
use crate::codec::lemma_lex_cmp_equal;
use crate::codec::lemma_pack_extract;
use crate::codec::lemma_trim_pad;
use crate::codec::lex_cmp;
use crate::codec::lex_cmp_ex;
use crate::codec::packed_byte;
use crate::codec::packed_byte_ex;
use crate::codec::packed_region;
use crate::codec::trimmed_len;
use crate::codec::zero_pad;
use crate::util::string::lemma_trim_no_space;
use crate::util::string::push_char;
use crate::util::string::str_chars;
use crate::util::string::trim_chars;
use crate::util::string::trim_spec;
use vstd::array::array_as_slice;
use vstd::prelude::*;
use vstd::slice::slice_subrange;
use vstd::slice::slice_to_vec;

verus! {

/// Characters a catalog identifier can hold.
pub const CATALOG_MAX_LENGTH: usize = 21;

/// Fewest characters a catalog identifier can hold.
pub const CATALOG_MIN_LENGTH: usize = 3;

/// Size of the packed buffer: `ceil(21 * 6 / 8)` bytes.
pub const CATALOG_BYTES: usize = 16;

/// Fewest bytes a trimmed catalog identifier can occupy.
pub const CATALOG_MIN_BYTES: usize = 2;

// ---------------------------------------------------------------------------
// Spec model
// ---------------------------------------------------------------------------

/// The character sequence folded to lower case.
pub open spec fn folded_chars(s: Seq<char>) -> Seq<char> {
    Seq::new(s.len(), |i: int| fold_char(s[i]))
}

/// What encoding works on: the input trimmed and folded to lower case.
pub open spec fn catalog_folded(s: Seq<char>) -> Seq<char> {
    folded_chars(trim_spec(s))
}

/// The 6-bit codes of a character sequence under the catalog alphabet.
pub open spec fn catalog_codes(s: Seq<char>) -> Seq<u8> {
    Seq::new(s.len(), |i: int| catalog_code(s[i]))
}

/// Every character belongs to the catalog alphabet.
pub open spec fn catalog_all_valid(s: Seq<char>) -> bool {
    forall|i: int| 0 <= i < s.len() ==> catalog_code(s[i]) != 0
}

/// The sequence neither starts nor ends with a hyphen.
pub open spec fn hyphen_ok(s: Seq<char>) -> bool {
    s.len() == 0 || (s[0] != '-' && s[s.len() - 1] != '-')
}

/// The packed 16-byte buffer encoding the character sequence.
pub open spec fn catalog_packed(s: Seq<char>) -> Seq<u8> {
    packed_region(catalog_codes(s), CATALOG_BYTES as nat)
}

/// The characters read back from a packed buffer, up to the terminator.
pub open spec fn catalog_display(data: Seq<u8>) -> Seq<char> {
    Seq::new(
        decoded_len(data, CATALOG_MAX_LENGTH as int) as nat,
        |i: int| catalog_char(code_at(data, i)),
    )
}

/// What holds of the packed buffer `data` when encoding `s` succeeds.
pub open spec fn catalog_ok_spec(s: Seq<char>, data: Seq<u8>) -> bool {
    let t = catalog_folded(s);
    &&& CATALOG_MIN_LENGTH <= t.len() <= CATALOG_MAX_LENGTH
    &&& hyphen_ok(t)
    &&& catalog_all_valid(t)
    &&& data == catalog_packed(t)
}

/// Which error encoding `s` reports, exactly.
pub open spec fn catalog_err_spec(s: Seq<char>, e: IdError) -> bool {
    let t = catalog_folded(s);
    match e {
        IdError::StringTooLong => t.len() > CATALOG_MAX_LENGTH,
        IdError::StringTooShort => t.len() < CATALOG_MIN_LENGTH,
        IdError::InvalidHyphenPosition => CATALOG_MIN_LENGTH <= t.len() <= CATALOG_MAX_LENGTH
            && !hyphen_ok(t),
        IdError::InvalidCharacter(c) => CATALOG_MIN_LENGTH <= t.len() <= CATALOG_MAX_LENGTH
            && hyphen_ok(t) && !catalog_all_valid(t) && c == t[first_zero(catalog_codes(t))],
        _ => false,
    }
}

/// Errors reported while building a catalog identifier.
#[derive(Debug, Clone, PartialEq, Eq)]
pub enum IdError {
    /// More than 21 characters after trimming.
    StringTooLong,
    /// Fewer than 3 characters after trimming.
    StringTooShort,
    /// A raw byte buffer longer than 16 bytes.
    BytesTooLong,
    /// A raw byte buffer shorter than 2 bytes.
    BytesTooShort,
    /// A character outside the catalog alphabet; carries the offender.
    InvalidCharacter(char),
    /// A leading or trailing hyphen.
    InvalidHyphenPosition,
}

/// Readable identifier for items, markets and stores.
///
/// The value is a 16-byte packed code region; equality and ordering read
/// the whole buffer.
#[derive(Debug, Clone, Copy, Eq, Hash)]
pub struct Id {
    data: [u8; 16],
}

impl View for Id {
    type V = Seq<u8>;

    closed spec fn view(&self) -> Seq<u8> {
        self.data@
    }
}

impl Id {
    /// Every stored code is one a catalog identifier can display.  Holds
    /// for every encoded identifier; raw bytes accepted by
    /// [`Id::from_slice`] may violate it.
    pub open spec fn displayable(&self) -> bool {
        forall|i: int| 0 <= i < CATALOG_MAX_LENGTH ==> code_at(self@, i) <= 37
    }

    /// Encode a readable string, after trimming surrounding whitespace and
    /// folding it to lower case.
    #[verifier::loop_isolation(false)]
    pub fn new(id_str: &str) -> (r: Result<Self, IdError>)
        ensures
            match r {
                Ok(id) => catalog_ok_spec(id_str@, id@) && id.displayable(),
                Err(e) => catalog_err_spec(id_str@, e),
            },
    {
        let chars = str_chars(id_str);
        let trimmed = trim_chars(&chars);
        let mut folded: Vec<char> = Vec::new();
        let mut i: usize = 0;
        while i < trimmed.len()
            invariant
                i <= trimmed@.len(),
                folded@ == folded_chars(trimmed@).take(i as int),
            decreases trimmed@.len() - i,
        {
            folded.push(fold_char_ex(trimmed[i]));
            i = i + 1;
            proof {
                assert(folded@ =~= folded_chars(trimmed@).take(i as int));
            }
        }
        proof {
            assert(folded@ =~= catalog_folded(id_str@));
        }
        let n = folded.len();
        if n > CATALOG_MAX_LENGTH {
            return Err(IdError::StringTooLong);
        }
        if n < CATALOG_MIN_LENGTH {
            return Err(IdError::StringTooShort);
        }
        if folded[0] == '-' || folded[n - 1] == '-' {
            return Err(IdError::InvalidHyphenPosition);
        }
        let mut codes: Vec<u8> = Vec::new();
        let mut i: usize = 0;
        while i < n
            invariant
                i <= n,
                n == folded@.len(),
                codes@ == catalog_codes(folded@).take(i as int),
                forall|j: int| 0 <= j < i ==> catalog_code(folded@[j]) != 0,
            decreases n - i,
        {
            let v = catalog_code_ex(folded[i]);
            if v == 0 {
                proof {
                    let cs = catalog_codes(folded@);
                    assert(forall|k: int| 0 <= k < i ==> cs[k] == catalog_code(folded@[k]));
                    assert(cs[i as int] == 0);
                    lemma_first_zero_is(cs, i as int);
                    assert(first_zero(cs) == i as int);
                }
                return Err(IdError::InvalidCharacter(folded[i]));
            }
            codes.push(v);
            i = i + 1;
            proof {
                assert(codes@ =~= catalog_codes(folded@).take(i as int));
            }
        }
        proof {
            assert(codes@ =~= catalog_codes(folded@));
        }
        let mut data: [u8; 16] = [0u8; 16];
        let mut j: usize = 0;
        while j < CATALOG_BYTES
            invariant
                j <= CATALOG_BYTES,
                codes@ == catalog_codes(folded@),
                forall|k: int| 0 <= k < j ==> data@[k] == packed_byte(codes@, k),
            decreases CATALOG_BYTES - j,
        {
            data[j] = packed_byte_ex(&codes, j);
            j = j + 1;
        }
        let id = Id { data };
        proof {
            assert(id@ =~= catalog_packed(folded@));
            assert forall|i2: int| 0 <= i2 < CATALOG_MAX_LENGTH implies code_at(id@, i2)
                <= 37 by {
                lemma_pack_extract(codes@, CATALOG_BYTES as nat, i2);
            }
        }
        Ok(id)
    }

    /// Adopt raw bytes that are already known to have a valid length; the
    /// caller owes the length bound.  The buffer is zero-padded.
    pub fn from_slice(slice: &[u8]) -> (id: Self)
        requires
            CATALOG_MIN_BYTES <= slice@.len() <= CATALOG_BYTES,
        ensures
            id@ == zero_pad(slice@, CATALOG_BYTES as nat),
    {
        let mut data: [u8; 16] = [0u8; 16];
        let n = slice.len();
        let mut j: usize = 0;
        while j < n
            invariant
                j <= n,
                n == slice@.len(),
                n <= CATALOG_BYTES,
                forall|k: int| 0 <= k < j ==> data@[k] == slice@[k],
                forall|k: int| j <= k < CATALOG_BYTES ==> data@[k] == 0,
            decreases n - j,
        {
            data[j] = slice[j];
            j = j + 1;
        }
        let id = Id { data };
        proof {
            assert(id@ =~= zero_pad(slice@, CATALOG_BYTES as nat));
        }
        id
    }

    /// Decode raw bytes, rejecting buffers whose length is out of range.
    pub fn try_from_slice(slice: &[u8]) -> (r: Result<Self, IdError>)
        ensures
            match r {
                Ok(id) => CATALOG_MIN_BYTES <= slice@.len() <= CATALOG_BYTES && id@ == zero_pad(
                    slice@,
                    CATALOG_BYTES as nat,
                ),
                Err(e) => match e {
                    IdError::BytesTooShort => slice@.len() < CATALOG_MIN_BYTES,
                    IdError::BytesTooLong => slice@.len() > CATALOG_BYTES,
                    _ => false,
                },
            },
    {
        let n = slice.len();
        if n < CATALOG_MIN_BYTES {
            Err(IdError::BytesTooShort)
        } else if n > CATALOG_BYTES {
            Err(IdError::BytesTooLong)
        } else {
            Ok(Self::from_slice(slice))
        }
    }

    /// The packed bytes with trailing zero bytes dropped, never shorter
    /// than 2 bytes: the compact binary surface of the identifier.
    pub fn as_slice(&self) -> (r: &[u8])
        ensures
            r@ == self@.take(trimmed_len(self@, CATALOG_MIN_BYTES as int)),
    {
        let mut cut: usize = CATALOG_BYTES;
        proof {
            assert(self@.take(CATALOG_BYTES as int) =~= self@);
        }
        while cut > CATALOG_MIN_BYTES && self.data[cut - 1] == 0
            invariant
                CATALOG_MIN_BYTES <= cut <= CATALOG_BYTES,
                trimmed_len(self@, CATALOG_MIN_BYTES as int) == trimmed_len(
                    self@.take(cut as int),
                    CATALOG_MIN_BYTES as int,
                ),
            decreases cut,
        {
            proof {
                assert(self@.take(cut as int).drop_last() =~= self@.take(cut as int - 1));
            }
            cut = cut - 1;
        }
        proof {
            assert(trimmed_len(self@, CATALOG_MIN_BYTES as int) == cut as int);
        }
        slice_subrange(array_as_slice(&self.data), 0, cut)
    }

    /// The compact binary surface as an owned vector.
    pub fn to_bytes(&self) -> (r: Vec<u8>)
        ensures
            r@ == self@.take(trimmed_len(self@, CATALOG_MIN_BYTES as int)),
    {
        slice_to_vec(self.as_slice())
    }

    /// Render the identifier: unpack codes until the terminator and map
    /// each back to its (lower-case) character.
    pub fn to_display_string(&self) -> (r: String)
        requires
            self.displayable(),
        ensures
            r@ == catalog_display(self@),
    {
        let mut out = String::new();
        let mut i: usize = 0;
        let mut done = false;
        while !done && i < CATALOG_MAX_LENGTH
            invariant
                i <= CATALOG_MAX_LENGTH,
                self.displayable(),
                forall|k: int| 0 <= k < i ==> code_at(self@, k) != 0,
                out@ =~= Seq::new(i as nat, |k: int| catalog_char(code_at(self@, k))),
                done ==> i < CATALOG_MAX_LENGTH && code_at(self@, i as int) == 0,
            decreases CATALOG_MAX_LENGTH - i + (if done {
                0int
            } else {
                1int
            }),
        {
            let v = code_at_ex(array_as_slice(&self.data), i);
            if v == 0 {
                done = true;
            } else {
                push_char(&mut out, catalog_char_ex(v));
                i = i + 1;
                proof {
                    assert(out@ =~= Seq::new(i as nat, |k: int| catalog_char(code_at(self@, k))));
                }
            }
        }
        proof {
            lemma_decoded_len_is(self@, i as int, CATALOG_MAX_LENGTH as int);
        }
        out
    }

    /// The canonical comparison key: the whole packed buffer.  Equality
    /// and ordering read exactly these bytes, so the two always agree.
    pub fn comparison_key(&self) -> (r: &[u8])
        ensures
            r@ == self@,
    {
        array_as_slice(&self.data)
    }

    /// Largest number of bytes the binary surface can occupy, for sizing
    /// slots of a bounded persistent store.
    pub fn bound_max_size() -> (r: u32)
        ensures
            r == CATALOG_BYTES,
    {
        16
    }

    /// The binary surface varies in length, so the stored size is not
    /// fixed.
    pub fn bound_is_fixed_size() -> (r: bool)
        ensures
            !r,
    {
        false
    }
}

impl PartialEq for Id {
    /// Identifiers are equal when their packed buffers are equal.
    fn eq(&self, other: &Self) -> (r: bool) {
        proof {
            lemma_lex_cmp_equal(self@, other@);
        }
        let c = lex_cmp_ex(self.comparison_key(), other.comparison_key());
        matches!(c, core::cmp::Ordering::Equal)
    }
}

impl vstd::std_specs::cmp::PartialEqSpecImpl for Id {
    open spec fn obeys_eq_spec() -> bool {
        true
    }

    open spec fn eq_spec(&self, other: &Self) -> bool {
        self@ == other@
    }
}

impl PartialOrd for Id {
    /// Identifiers order by their packed buffers, byte-wise.
    fn partial_cmp(&self, other: &Self) -> (r: Option<core::cmp::Ordering>) {
        Some(lex_cmp_ex(self.comparison_key(), other.comparison_key()))
    }
}

impl vstd::std_specs::cmp::PartialOrdSpecImpl for Id {
    open spec fn obeys_partial_cmp_spec() -> bool {
        true
    }

    open spec fn partial_cmp_spec(&self, other: &Self) -> Option<core::cmp::Ordering> {
        Some(lex_cmp(self@, other@))
    }
}

impl Default for Id {
    /// The all-zero buffer: an empty identifier.
    fn default() -> (r: Self)
        ensures
            r@ =~= Seq::new(CATALOG_BYTES as nat, |j: int| 0u8),
    {
        Id { data: [0u8; 16] }
    }
}

// ---------------------------------------------------------------------------
// Laws
// ---------------------------------------------------------------------------

/// Round trip: a string of in-range length whose characters are drawn from
/// the catalog alphabet is returned exactly by encoding, packing and
/// displaying; and the trimmed binary surface, zero-padded again, restores
/// the packed buffer.
pub proof fn lemma_catalog_round_trip(s: Seq<char>)
    requires
        CATALOG_MIN_LENGTH <= s.len() <= CATALOG_MAX_LENGTH,
        catalog_all_valid(s),
    ensures
        catalog_folded(s) == s,
        catalog_display(catalog_packed(s)) =~= s,
        zero_pad(
            catalog_packed(s).take(trimmed_len(catalog_packed(s), CATALOG_MIN_BYTES as int)),
            CATALOG_BYTES as nat,
        ) =~= catalog_packed(s),
{
    let codes = catalog_codes(s);
    let data = catalog_packed(s);
    assert forall|i: int| 0 <= i < s.len() implies !crate::codec::is_space_char(s[i]) by {
        assert(catalog_code(s[i]) != 0);
    }
    lemma_trim_no_space(s);
    assert(catalog_folded(s) =~= s);
    assert forall|i: int| 0 <= i < CATALOG_MAX_LENGTH implies code_at(data, i) == code_in(
        codes,
        i,
    ) by {
        lemma_pack_extract(codes, CATALOG_BYTES as nat, i);
    }
    lemma_decoded_len_is(data, s.len() as int, CATALOG_MAX_LENGTH as int);
    assert forall|i: int| 0 <= i < s.len() implies catalog_display(data)[i] == s[i] by {
        lemma_catalog_char_code(s[i]);
    }
    lemma_trim_pad(data, CATALOG_MIN_BYTES as int);
}

/// Encoding loses nothing: two valid strings pack to the same buffer
/// precisely when they are the same string.
pub proof fn lemma_catalog_packed_injective(s1: Seq<char>, s2: Seq<char>)
    requires
        catalog_all_valid(s1),
        catalog_all_valid(s2),
        s1.len() <= CATALOG_MAX_LENGTH,
        s2.len() <= CATALOG_MAX_LENGTH,
    ensures
        (catalog_packed(s1) == catalog_packed(s2)) <==> s1 == s2,
{
    let c1 = catalog_codes(s1);
    let c2 = catalog_codes(s2);
    if catalog_packed(s1) == catalog_packed(s2) {
        assert(packed_region(c1, CATALOG_BYTES as nat) == packed_region(c2, CATALOG_BYTES as nat));
        assert forall|k: int| 0 <= k < c1.len() implies 0 < #[trigger] c1[k] < 64 by {
            assert(catalog_code(s1[k]) != 0);
        }
        assert forall|k: int| 0 <= k < c2.len() implies 0 < #[trigger] c2[k] < 64 by {
            assert(catalog_code(s2[k]) != 0);
        }
        crate::codec::lemma_packed_region_injective(
            c1,
            c2,
            CATALOG_BYTES as nat,
            CATALOG_MAX_LENGTH as int,
        );
        assert forall|i: int| 0 <= i < s1.len() implies s1[i] == s2[i] by {
            assert(c1[i] == c2[i]);
            lemma_catalog_char_code(s1[i]);
            lemma_catalog_char_code(s2[i]);
        }
        assert(s1 =~= s2);
    }
}

/// Ordering: when one valid string is a strict prefix of another, the
/// shorter one's identifier compares `Less` — the terminator orders below
/// every character code.
pub proof fn lemma_catalog_order_prefix(s1: Seq<char>, s2: Seq<char>)
    requires
        catalog_all_valid(s1),
        catalog_all_valid(s2),
        s2.len() <= CATALOG_MAX_LENGTH,
        s1.len() < s2.len(),
        s1 == s2.take(s1.len() as int),
    ensures
        lex_cmp(catalog_packed(s1), catalog_packed(s2)) == core::cmp::Ordering::Less,
{
    let c1 = catalog_codes(s1);
    let c2 = catalog_codes(s2);
    assert forall|i: int| 0 <= i < s1.len() implies c1[i] == c2[i] by {
        assert(s1[i] == s2.take(s1.len() as int)[i]);
    }
    assert(c1 =~= c2.take(s1.len() as int));
    assert forall|k: int| 0 <= k < c2.len() implies 0 < #[trigger] c2[k] < 64 by {
        assert(catalog_code(s2[k]) != 0);
    }
    crate::codec::lemma_packed_prefix_less(c1, c2, CATALOG_BYTES as nat);
    assert(catalog_packed(s1) =~= crate::codec::packed_region(c1, CATALOG_BYTES as nat));
    assert(catalog_packed(s2) =~= crate::codec::packed_region(c2, CATALOG_BYTES as nat));
}

} // verus!

