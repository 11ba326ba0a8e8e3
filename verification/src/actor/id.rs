//! Actor identifier: a readable id that preserves display case while
//! comparing case-insensitively.
//!
//! The value is a 21-byte buffer: a 3-byte case bitmap followed by an
//! 18-byte packed code region.  The bitmap records which character
//! positions were upper-case at encode time; it serves display only and is
//! excluded from equality and ordering, which read the code region alone.

use crate::codec::actor_char;
use crate::codec::actor_char_ex;
use crate::codec::actor_code;
use crate::codec::actor_code_ex;
use crate::codec::bitmap_byte;
use crate::codec::bitmap_byte_ex;
use crate::codec::code_at;
use crate::codec::code_at_ex;
use crate::codec::code_in;
use crate::codec::decoded_len;
use crate::codec::first_zero;
use crate::codec::fold_char;
use crate::codec::lemma_actor_char_code;
use crate::codec::lemma_bitmap_bit;
use crate::codec::lemma_decoded_len_is;
use crate::codec::lemma_first_zero_is;
use crate::codec::lemma_lex_cmp_equal;
use crate::codec::lemma_pack_extract;
use crate::codec::lemma_trim_pad;
use crate::codec::lex_cmp;
use crate::codec::lex_cmp_ex;
use crate::codec::map_bit;
use crate::codec::map_bit_ex;
use crate::codec::packed_byte;
use crate::codec::packed_byte_ex;
use crate::codec::packed_region;
use crate::codec::trimmed_len;
use crate::codec::zero_pad;
use crate::util::string::lemma_trim_no_space;
use crate::util::string::push_char;
use crate::util::string::str_chars;
use crate::util::string::trim_chars;
use crate::util::string::trim_spec;
use vstd::array::array_as_slice;
use vstd::prelude::*;
use vstd::slice::slice_subrange;
use vstd::slice::slice_to_vec;

verus! {

/// Characters an actor identifier can hold.
pub const ACTOR_MAX_LENGTH: usize = 24;

/// Fewest characters an actor identifier can hold.
pub const ACTOR_MIN_LENGTH: usize = 3;

/// Size of the case bitmap: one bit for each of the 24 positions.
pub const ACTOR_MAP_BYTES: usize = 3;

/// Size of the packed code region: `24 * 6 / 8` bytes.
pub const ACTOR_DATA_BYTES: usize = 18;

/// Size of the whole buffer: bitmap plus code region.
pub const ACTOR_BYTES: usize = 21;

/// Fewest bytes a trimmed actor identifier can occupy.
pub const ACTOR_MIN_BYTES: usize = 3;

// ---------------------------------------------------------------------------
// Spec model
// ---------------------------------------------------------------------------

/// The 6-bit codes of a character sequence under the actor alphabet; the
/// code folds case, so it is the same for both cases of a letter.
pub open spec fn actor_codes(s: Seq<char>) -> Seq<u8> {
    Seq::new(s.len(), |i: int| actor_code(s[i]))
}

/// Every character belongs to the actor alphabet.
pub open spec fn actor_all_valid(s: Seq<char>) -> bool {
    forall|i: int| 0 <= i < s.len() ==> actor_code(s[i]) != 0
}

/// The full 21-byte buffer encoding a character sequence: 3 bitmap bytes
/// followed by the 18-byte packed code region.
pub open spec fn actor_encoded(s: Seq<char>) -> Seq<u8> {
    Seq::new(
        ACTOR_BYTES as nat,
        |j: int|
            if j < ACTOR_MAP_BYTES {
                bitmap_byte(s, j)
            } else {
                packed_byte(actor_codes(s), j - ACTOR_MAP_BYTES)
            },
    )
}

/// The code region of a buffer: everything after the bitmap.  Equality and
/// ordering read only this.
pub open spec fn actor_key(data: Seq<u8>) -> Seq<u8> {
    data.skip(ACTOR_MAP_BYTES as int)
}

/// The characters read back from a buffer, up to the terminator, with the
/// case of each letter taken from the bitmap.
pub open spec fn actor_display(data: Seq<u8>) -> Seq<char> {
    Seq::new(
        decoded_len(actor_key(data), ACTOR_MAX_LENGTH as int) as nat,
        |i: int| actor_char(code_at(actor_key(data), i), map_bit(data, i)),
    )
}

/// Errors reported while building an actor identifier.
#[derive(Debug, Clone, PartialEq, Eq)]
pub enum ActorIdError {
    /// More than 24 characters after trimming.
    StringTooLong,
    /// Fewer than 3 characters after trimming.
    StringTooShort,
    /// A raw byte buffer longer than 21 bytes.
    BytesTooLong,
    /// A raw byte buffer shorter than 3 bytes.
    BytesTooShort,
    /// A character outside the actor alphabet; carries the offender.
    InvalidCharacter(char),
}

/// Readable identifier for actors.
///
/// Holds 3 to 24 characters drawn from letters, digits, hyphens and
/// underscores.  Case is preserved for display but ignored by equality and
/// ordering.
#[derive(Debug, Clone, Copy, Eq)]
pub struct ActorId {
    bytes: [u8; 21],
}

impl View for ActorId {
    type V = Seq<u8>;

    closed spec fn view(&self) -> Seq<u8> {
        self.bytes@
    }
}

impl ActorId {
    /// Every stored code is one an actor identifier can display.  Holds
    /// for every encoded identifier; raw bytes accepted by
    /// [`ActorId::from_slice`] may violate it.
    pub open spec fn displayable(&self) -> bool {
        forall|i: int| 0 <= i < ACTOR_MAX_LENGTH ==> code_at(actor_key(self@), i) <= 38
    }

    /// Encode a readable string, after trimming surrounding whitespace.
    /// Letter case is accepted as given and recorded in the bitmap.
    #[verifier::loop_isolation(false)]
    pub fn new(id_str: &str) -> (r: Result<Self, ActorIdError>)
        ensures
            ({
                let t = trim_spec(id_str@);
                match r {
                    Ok(id) => ACTOR_MIN_LENGTH <= t.len() <= ACTOR_MAX_LENGTH && actor_all_valid(t)
                        && id@ == actor_encoded(t) && id.displayable(),
                    Err(e) => match e {
                        ActorIdError::StringTooShort => t.len() < ACTOR_MIN_LENGTH,
                        ActorIdError::StringTooLong => t.len() > ACTOR_MAX_LENGTH,
                        ActorIdError::InvalidCharacter(c) => ACTOR_MIN_LENGTH <= t.len()
                            <= ACTOR_MAX_LENGTH && !actor_all_valid(t) && c == t[first_zero(
                            actor_codes(t),
                        )],
                        _ => false,
                    },
                }
            }),
    {
        let chars = str_chars(id_str);
        let trimmed = trim_chars(&chars);
        let n = trimmed.len();
        if n < ACTOR_MIN_LENGTH {
            return Err(ActorIdError::StringTooShort);
        }
        if n > ACTOR_MAX_LENGTH {
            return Err(ActorIdError::StringTooLong);
        }
        let mut codes: Vec<u8> = Vec::new();
        let mut i: usize = 0;
        while i < n
            invariant
                i <= n,
                codes@ == actor_codes(trimmed@).take(i as int),
                forall|j: int| 0 <= j < i ==> actor_code(trimmed@[j]) != 0,
            decreases n - i,
        {
            let v = actor_code_ex(trimmed[i]);
            if v == 0 {
                proof {
                    let cs = actor_codes(trimmed@);
                    assert(forall|k: int| 0 <= k < i ==> cs[k] == actor_code(trimmed@[k]));
                    assert(cs[i as int] == 0);
                    lemma_first_zero_is(cs, i as int);
                }
                return Err(ActorIdError::InvalidCharacter(trimmed[i]));
            }
            codes.push(v);
            i = i + 1;
            proof {
                assert(codes@ =~= actor_codes(trimmed@).take(i as int));
            }
        }
        proof {
            assert(codes@ =~= actor_codes(trimmed@));
        }
        let mut bytes: [u8; 21] = [0u8; 21];
        let mut j: usize = 0;
        while j < ACTOR_MAP_BYTES
            invariant
                j <= ACTOR_MAP_BYTES,
                forall|k: int| 0 <= k < j ==> bytes@[k] == bitmap_byte(trimmed@, k),
            decreases ACTOR_MAP_BYTES - j,
        {
            bytes[j] = bitmap_byte_ex(&trimmed, j);
            j = j + 1;
        }
        let mut j: usize = ACTOR_MAP_BYTES;
        while j < ACTOR_BYTES
            invariant
                ACTOR_MAP_BYTES <= j <= ACTOR_BYTES,
                forall|k: int| 0 <= k < ACTOR_MAP_BYTES ==> bytes@[k] == bitmap_byte(trimmed@, k),
                forall|k: int|
                    ACTOR_MAP_BYTES <= k < j ==> bytes@[k] == packed_byte(
                        codes@,
                        k - ACTOR_MAP_BYTES,
                    ),
            decreases ACTOR_BYTES - j,
        {
            bytes[j] = packed_byte_ex(&codes, j - ACTOR_MAP_BYTES);
            j = j + 1;
        }
        let id = ActorId { bytes };
        proof {
            assert(id@ =~= actor_encoded(trimmed@));
            assert(actor_key(id@) =~= packed_region(codes@, ACTOR_DATA_BYTES as nat));
            assert forall|i2: int| 0 <= i2 < ACTOR_MAX_LENGTH implies code_at(
                actor_key(id@),
                i2,
            ) <= 38 by {
                lemma_pack_extract(codes@, ACTOR_DATA_BYTES as nat, i2);
            }
        }
        Ok(id)
    }

    /// Adopt raw bytes that are already known to have a valid length; the
    /// caller owes the length bound.  The buffer is zero-padded.
    pub fn from_slice(slice: &[u8]) -> (id: Self)
        requires
            ACTOR_MIN_BYTES <= slice@.len() <= ACTOR_BYTES,
        ensures
            id@ == zero_pad(slice@, ACTOR_BYTES as nat),
    {
        let mut bytes: [u8; 21] = [0u8; 21];
        let n = slice.len();
        let mut j: usize = 0;
        while j < n
            invariant
                j <= n,
                n == slice@.len(),
                n <= ACTOR_BYTES,
                forall|k: int| 0 <= k < j ==> bytes@[k] == slice@[k],
                forall|k: int| j <= k < ACTOR_BYTES ==> bytes@[k] == 0,
            decreases n - j,
        {
            bytes[j] = slice[j];
            j = j + 1;
        }
        let id = ActorId { bytes };
        proof {
            assert(id@ =~= zero_pad(slice@, ACTOR_BYTES as nat));
        }
        id
    }

    /// Decode raw bytes, rejecting buffers whose length is out of range.
    pub fn try_from_slice(slice: &[u8]) -> (r: Result<Self, ActorIdError>)
        ensures
            match r {
                Ok(id) => ACTOR_MIN_BYTES <= slice@.len() <= ACTOR_BYTES && id@ == zero_pad(
                    slice@,
                    ACTOR_BYTES as nat,
                ),
                Err(e) => match e {
                    ActorIdError::BytesTooShort => slice@.len() < ACTOR_MIN_BYTES,
                    ActorIdError::BytesTooLong => slice@.len() > ACTOR_BYTES,
                    _ => false,
                },
            },
    {
        let n = slice.len();
        if n < ACTOR_MIN_BYTES {
            Err(ActorIdError::BytesTooShort)
        } else if n > ACTOR_BYTES {
            Err(ActorIdError::BytesTooLong)
        } else {
            Ok(Self::from_slice(slice))
        }
    }

    /// The buffer with trailing zero bytes dropped, never shorter than the
    /// bitmap: the compact binary surface of the identifier.
    pub fn as_slice(&self) -> (r: &[u8])
        ensures
            r@ == self@.take(trimmed_len(self@, ACTOR_MIN_BYTES as int)),
    {
        let mut cut: usize = ACTOR_BYTES;
        proof {
            assert(self@.take(ACTOR_BYTES as int) =~= self@);
        }
        while cut > ACTOR_MIN_BYTES && self.bytes[cut - 1] == 0
            invariant
                ACTOR_MIN_BYTES <= cut <= ACTOR_BYTES,
                trimmed_len(self@, ACTOR_MIN_BYTES as int) == trimmed_len(
                    self@.take(cut as int),
                    ACTOR_MIN_BYTES as int,
                ),
            decreases cut,
        {
            proof {
                assert(self@.take(cut as int).drop_last() =~= self@.take(cut as int - 1));
            }
            cut = cut - 1;
        }
        proof {
            assert(trimmed_len(self@, ACTOR_MIN_BYTES as int) == cut as int);
        }
        slice_subrange(array_as_slice(&self.bytes), 0, cut)
    }

    /// The compact binary surface as an owned vector.
    pub fn to_bytes(&self) -> (r: Vec<u8>)
        ensures
            r@ == self@.take(trimmed_len(self@, ACTOR_MIN_BYTES as int)),
    {
        slice_to_vec(self.as_slice())
    }

    /// Render the identifier: unpack codes until the terminator, mapping
    /// each back to a character with the case the bitmap recorded.
    pub fn to_display_string(&self) -> (r: String)
        requires
            self.displayable(),
        ensures
            r@ == actor_display(self@),
    {
        let region = slice_subrange(array_as_slice(&self.bytes), ACTOR_MAP_BYTES, ACTOR_BYTES);
        proof {
            assert(region@ =~= actor_key(self@));
        }
        let mut out = String::new();
        let mut i: usize = 0;
        let mut done = false;
        while !done && i < ACTOR_MAX_LENGTH
            invariant
                i <= ACTOR_MAX_LENGTH,
                self.displayable(),
                region@ =~= actor_key(self@),
                forall|k: int| 0 <= k < i ==> code_at(actor_key(self@), k) != 0,
                out@ =~= Seq::new(
                    i as nat,
                    |k: int| actor_char(code_at(actor_key(self@), k), map_bit(self@, k)),
                ),
                done ==> i < ACTOR_MAX_LENGTH && code_at(actor_key(self@), i as int) == 0,
            decreases ACTOR_MAX_LENGTH - i + (if done {
                0int
            } else {
                1int
            }),
        {
            let v = code_at_ex(region, i);
            if v == 0 {
                done = true;
            } else {
                let upper = map_bit_ex(array_as_slice(&self.bytes), i);
                push_char(&mut out, actor_char_ex(v, upper));
                i = i + 1;
                proof {
                    assert(out@ =~= Seq::new(
                        i as nat,
                        |k: int| actor_char(code_at(actor_key(self@), k), map_bit(self@, k)),
                    ));
                }
            }
        }
        proof {
            lemma_decoded_len_is(actor_key(self@), i as int, ACTOR_MAX_LENGTH as int);
        }
        out
    }

    /// The canonical comparison key: the packed code region, bitmap
    /// excluded.  Equality and ordering read exactly these bytes, so the
    /// two always agree and stay case-insensitive.
    pub fn comparison_key(&self) -> (r: &[u8])
        ensures
            r@ == actor_key(self@),
    {
        let r = slice_subrange(array_as_slice(&self.bytes), ACTOR_MAP_BYTES, ACTOR_BYTES);
        proof {
            assert(r@ =~= actor_key(self@));
        }
        r
    }

    /// Largest number of bytes the binary surface can occupy, for sizing
    /// slots of a bounded persistent store.
    pub fn bound_max_size() -> (r: u32)
        ensures
            r == ACTOR_BYTES,
    {
        21
    }

    /// The binary surface varies in length, so the stored size is not
    /// fixed.
    pub fn bound_is_fixed_size() -> (r: bool)
        ensures
            !r,
    {
        false
    }
}

impl PartialEq for ActorId {
    /// Identifiers are equal when their code regions are equal; the case
    /// bitmap never takes part.
    fn eq(&self, other: &Self) -> (r: bool) {
        proof {
            lemma_lex_cmp_equal(actor_key(self@), actor_key(other@));
        }
        let c = lex_cmp_ex(self.comparison_key(), other.comparison_key());
        matches!(c, core::cmp::Ordering::Equal)
    }
}

impl vstd::std_specs::cmp::PartialEqSpecImpl for ActorId {
    open spec fn obeys_eq_spec() -> bool {
        true
    }

    open spec fn eq_spec(&self, other: &Self) -> bool {
        actor_key(self@) == actor_key(other@)
    }
}

impl PartialOrd for ActorId {
    /// Identifiers order by their code regions, byte-wise; the case bitmap
    /// never takes part.
    fn partial_cmp(&self, other: &Self) -> (r: Option<core::cmp::Ordering>) {
        Some(lex_cmp_ex(self.comparison_key(), other.comparison_key()))
    }
}

impl vstd::std_specs::cmp::PartialOrdSpecImpl for ActorId {
    open spec fn obeys_partial_cmp_spec() -> bool {
        true
    }

    open spec fn partial_cmp_spec(&self, other: &Self) -> Option<core::cmp::Ordering> {
        Some(lex_cmp(actor_key(self@), actor_key(other@)))
    }
}

impl Default for ActorId {
    /// The all-zero buffer: an empty identifier.
    fn default() -> (r: Self)
        ensures
            r@ =~= Seq::new(ACTOR_BYTES as nat, |j: int| 0u8),
    {
        ActorId { bytes: [0u8; 21] }
    }
}

impl<'a> TryFrom<&'a [u8]> for ActorId {
    type Error = ActorIdError;

    /// Convert raw bytes, as [`ActorId::try_from_slice`] does.
    fn try_from(value: &'a [u8]) -> Result<Self, ActorIdError> {
        ActorId::try_from_slice(value)
    }
}

impl<'a> vstd::std_specs::convert::TryFromSpecImpl<&'a [u8]> for ActorId {
    open spec fn obeys_try_from_spec() -> bool {
        false
    }

    open spec fn try_from_spec(value: &'a [u8]) -> Result<Self, ActorIdError> {
        vstd::pervasive::arbitrary()
    }
}

impl core::str::FromStr for ActorId {
    type Err = ActorIdError;

    /// Parse a string, as [`ActorId::new`] does.
    fn from_str(s: &str) -> Result<Self, ActorIdError> {
        ActorId::new(s)
    }
}

// ---------------------------------------------------------------------------
// Laws
// ---------------------------------------------------------------------------

/// Round trip: a string of in-range length whose characters are drawn from
/// the actor alphabet is returned exactly — original case included — by
/// encoding and displaying; and the trimmed binary surface, zero-padded
/// again, restores the buffer.
pub proof fn lemma_actor_round_trip(s: Seq<char>)
    requires
        ACTOR_MIN_LENGTH <= s.len() <= ACTOR_MAX_LENGTH,
        actor_all_valid(s),
    ensures
        trim_spec(s) == s,
        actor_display(actor_encoded(s)) =~= s,
        zero_pad(
            actor_encoded(s).take(trimmed_len(actor_encoded(s), ACTOR_MIN_BYTES as int)),
            ACTOR_BYTES as nat,
        ) =~= actor_encoded(s),
{
    let codes = actor_codes(s);
    let data = actor_encoded(s);
    let key = actor_key(data);
    assert forall|i: int| 0 <= i < s.len() implies !crate::codec::is_space_char(s[i]) by {
        assert(actor_code(s[i]) != 0);
    }
    lemma_trim_no_space(s);
    assert(key =~= packed_region(codes, ACTOR_DATA_BYTES as nat));
    assert forall|i: int| 0 <= i < ACTOR_MAX_LENGTH implies code_at(key, i) == code_in(
        codes,
        i,
    ) by {
        lemma_pack_extract(codes, ACTOR_DATA_BYTES as nat, i);
    }
    lemma_decoded_len_is(key, s.len() as int, ACTOR_MAX_LENGTH as int);
    assert forall|i: int| 0 <= i < s.len() implies actor_display(data)[i] == s[i] by {
        lemma_bitmap_bit(s, data, i);
        lemma_actor_char_code(s[i]);
    }
    lemma_trim_pad(data, ACTOR_MIN_BYTES as int);
}

/// The folded form of a valid character is determined by its code.
proof fn lemma_fold_from_code(c: char)
    requires
        actor_code(c) != 0,
    ensures
        fold_char(c) == actor_char(actor_code(c), false),
{
    vstd::utf8::char_u32_cast(c, c as u32);
}

/// Equality is exactly case-blind equality of the readable strings: two
/// valid strings encode to the same comparison key precisely when they
/// agree up to letter case.
pub proof fn lemma_actor_eq_iff_folded(s1: Seq<char>, s2: Seq<char>)
    requires
        actor_all_valid(s1),
        actor_all_valid(s2),
        s1.len() <= ACTOR_MAX_LENGTH,
        s2.len() <= ACTOR_MAX_LENGTH,
    ensures
        (actor_key(actor_encoded(s1)) == actor_key(actor_encoded(s2))) <==> (s1.len() == s2.len()
            && (forall|i: int| 0 <= i < s1.len() ==> fold_char(s1[i]) == fold_char(s2[i]))),
{
    let c1 = actor_codes(s1);
    let c2 = actor_codes(s2);
    let k1 = actor_key(actor_encoded(s1));
    let k2 = actor_key(actor_encoded(s2));
    assert(k1 =~= packed_region(c1, ACTOR_DATA_BYTES as nat));
    assert(k2 =~= packed_region(c2, ACTOR_DATA_BYTES as nat));
    if k1 == k2 {
        assert forall|k: int| 0 <= k < c1.len() implies 0 < #[trigger] c1[k] < 64 by {
            assert(actor_code(s1[k]) != 0);
        }
        assert forall|k: int| 0 <= k < c2.len() implies 0 < #[trigger] c2[k] < 64 by {
            assert(actor_code(s2[k]) != 0);
        }
        crate::codec::lemma_packed_region_injective(
            c1,
            c2,
            ACTOR_DATA_BYTES as nat,
            ACTOR_MAX_LENGTH as int,
        );
        assert forall|i: int| 0 <= i < s1.len() implies fold_char(s1[i]) == fold_char(s2[i]) by {
            assert(c1[i] == c2[i]);
            lemma_fold_from_code(s1[i]);
            lemma_fold_from_code(s2[i]);
        }
    }
    if s1.len() == s2.len() && (forall|i: int|
        0 <= i < s1.len() ==> fold_char(s1[i]) == fold_char(s2[i])) {
        lemma_actor_case_insensitive(s1, s2);
    }
}

/// Ordering: when the case-folded characters of one valid string are a
/// strict prefix of the other's, the shorter one's identifier compares
/// `Less` — the terminator orders below every character code, and the
/// original case plays no part.
pub proof fn lemma_actor_order_prefix(s1: Seq<char>, s2: Seq<char>)
    requires
        actor_all_valid(s1),
        actor_all_valid(s2),
        s2.len() <= ACTOR_MAX_LENGTH,
        s1.len() < s2.len(),
        forall|i: int| 0 <= i < s1.len() ==> fold_char(s2[i]) == fold_char(s1[i]),
    ensures
        lex_cmp(actor_key(actor_encoded(s1)), actor_key(actor_encoded(s2)))
            == core::cmp::Ordering::Less,
{
    let c1 = actor_codes(s1);
    let c2 = actor_codes(s2);
    assert forall|i: int| 0 <= i < s1.len() implies actor_code(s1[i]) == actor_code(s2[i]) by {
        assert(actor_code(s1[i]) == actor_code(fold_char(s1[i])));
        assert(actor_code(s2[i]) == actor_code(fold_char(s2[i])));
    }
    assert(c1 =~= c2.take(s1.len() as int));
    assert forall|k: int| 0 <= k < c2.len() implies 0 < #[trigger] c2[k] < 64 by {
        assert(actor_code(s2[k]) != 0);
    }
    crate::codec::lemma_packed_prefix_less(c1, c2, ACTOR_DATA_BYTES as nat);
    assert(actor_key(actor_encoded(s1)) =~= packed_region(c1, ACTOR_DATA_BYTES as nat));
    assert(actor_key(actor_encoded(s2)) =~= packed_region(c2, ACTOR_DATA_BYTES as nat));
}

/// Case-insensitivity: two valid strings that agree up to letter case
/// encode to the same code region, so the identifiers are equal, compare
/// `Equal`, and only their case bitmaps can differ.
pub proof fn lemma_actor_case_insensitive(s1: Seq<char>, s2: Seq<char>)
    requires
        s1.len() == s2.len(),
        forall|i: int| 0 <= i < s1.len() ==> fold_char(s1[i]) == fold_char(s2[i]),
    ensures
        actor_key(actor_encoded(s1)) =~= actor_key(actor_encoded(s2)),
        lex_cmp(actor_key(actor_encoded(s1)), actor_key(actor_encoded(s2)))
            == core::cmp::Ordering::Equal,
{
    assert forall|i: int| 0 <= i < s1.len() implies actor_code(s1[i]) == actor_code(s2[i]) by {
        assert(actor_code(s1[i]) == actor_code(fold_char(s1[i])));
        assert(actor_code(s2[i]) == actor_code(fold_char(s2[i])));
    }
    assert(actor_codes(s1) =~= actor_codes(s2));
    assert(actor_key(actor_encoded(s1)) =~= actor_key(actor_encoded(s2)));
    lemma_lex_cmp_equal(actor_key(actor_encoded(s1)), actor_key(actor_encoded(s2)));
}

} // verus!
