//! Bit-level codec shared by the identifier types.
//!
//! A readable identifier is stored as a sequence of 6-bit character codes
//! packed LSB-first into a fixed-size byte buffer.  Code 0 never stands for a
//! character, so it doubles as the terminator of the packed string.  The
//! actor identifier additionally keeps a small bitmap recording which
//! character positions were upper-case when the identifier was encoded.

use vstd::prelude::*;

verus! {

/// Mask selecting the six low bits of a byte: one packed character code.
pub const CODE_MASK: u8 = 0x3f;

// ---------------------------------------------------------------------------
// Alphabet codec: characters <-> 6-bit codes
// ---------------------------------------------------------------------------

/// True for the characters of the Unicode `White_Space` set; the trim and
/// whitespace-adjustment helpers treat exactly these as blank.
pub open spec fn is_space_char(c: char) -> bool {
    let u = c as u32;
    (9 <= u && u <= 13) || u == 32 || u == 0x85 || u == 0xa0 || u == 0x1680
        || (0x2000 <= u && u <= 0x200a) || u == 0x2028 || u == 0x2029 || u == 0x202f
        || u == 0x205f || u == 0x3000
}

/// Runtime test for [`is_space_char`].
pub fn is_space_char_ex(c: char) -> (r: bool)
    ensures
        r == is_space_char(c),
{
    let u = c as u32;
    (9 <= u && u <= 13) || u == 32 || u == 0x85 || u == 0xa0 || u == 0x1680
        || (0x2000 <= u && u <= 0x200a) || u == 0x2028 || u == 0x2029 || u == 0x202f
        || u == 0x205f || u == 0x3000
}

/// True for an ASCII upper-case letter.
pub open spec fn is_upper_alpha(c: char) -> bool {
    65 <= c as u32 && c as u32 <= 90
}

/// ASCII case folding of a single character: upper-case letters become
/// lower-case, everything else is unchanged.
pub open spec fn fold_char(c: char) -> char {
    if is_upper_alpha(c) {
        ((c as u32) + 32) as char
    } else {
        c
    }
}

/// Runtime version of [`fold_char`].
pub fn fold_char_ex(c: char) -> (r: char)
    ensures
        r == fold_char(c),
{
    let u = c as u32;
    if 65 <= u && u <= 90 {
        let b: u8 = (u + 32) as u8;
        b as char
    } else {
        c
    }
}

/// 6-bit code of a character for the catalog identifier: lower-case letters
/// map to 1..=26, digits to 27..=36 and the hyphen to 37.  Characters outside
/// the alphabet map to 0, which never stands for a valid character.
pub open spec fn catalog_code(c: char) -> u8 {
    let u = c as u32;
    if 97 <= u && u <= 122 {
        (u - 96) as u8
    } else if 48 <= u && u <= 57 {
        (u - 21) as u8
    } else if u == 45 {
        37
    } else {
        0
    }
}

/// Runtime version of [`catalog_code`].
pub fn catalog_code_ex(c: char) -> (v: u8)
    ensures
        v == catalog_code(c),
{
    let u = c as u32;
    if 97 <= u && u <= 122 {
        (u - 96) as u8
    } else if 48 <= u && u <= 57 {
        (u - 21) as u8
    } else if u == 45 {
        37
    } else {
        0
    }
}

/// 6-bit code of a character for the actor identifier: letters of either
/// case map to 1..=26, digits to 27..=36, the hyphen to 37 and the
/// underscore to 38.  Characters outside the alphabet map to 0.
pub open spec fn actor_code(c: char) -> u8 {
    let u = c as u32;
    if 97 <= u && u <= 122 {
        (u - 96) as u8
    } else if 65 <= u && u <= 90 {
        (u - 64) as u8
    } else if 48 <= u && u <= 57 {
        (u - 21) as u8
    } else if u == 45 {
        37
    } else if u == 95 {
        38
    } else {
        0
    }
}

/// Runtime version of [`actor_code`].
pub fn actor_code_ex(c: char) -> (v: u8)
    ensures
        v == actor_code(c),
{
    let u = c as u32;
    if 97 <= u && u <= 122 {
        (u - 96) as u8
    } else if 65 <= u && u <= 90 {
        (u - 64) as u8
    } else if 48 <= u && u <= 57 {
        (u - 21) as u8
    } else if u == 45 {
        37
    } else if u == 95 {
        38
    } else {
        0
    }
}

/// Character displayed for a catalog code (valid codes are 1..=37).
pub open spec fn catalog_char(v: u8) -> char {
    if 1 <= v && v <= 26 {
        ((v + 96) as u32) as char
    } else if 27 <= v && v <= 36 {
        ((v + 21) as u32) as char
    } else {
        '-'
    }
}

/// Runtime version of [`catalog_char`].
pub fn catalog_char_ex(v: u8) -> (c: char)
    requires
        1 <= v <= 37,
    ensures
        c == catalog_char(v),
{
    if 1 <= v && v <= 26 {
        let b: u8 = v + 96;
        b as char
    } else if 27 <= v && v <= 36 {
        let b: u8 = v + 21;
        b as char
    } else {
        '-'
    }
}

/// Character displayed for an actor code (valid codes are 1..=38); for a
/// letter code, `upper` selects the upper-case form recorded in the case
/// bitmap.
pub open spec fn actor_char(v: u8, upper: bool) -> char {
    if 1 <= v && v <= 26 {
        if upper {
            ((v + 64) as u32) as char
        } else {
            ((v + 96) as u32) as char
        }
    } else if 27 <= v && v <= 36 {
        ((v + 21) as u32) as char
    } else if v == 37 {
        '-'
    } else {
        '_'
    }
}

/// Runtime version of [`actor_char`].
pub fn actor_char_ex(v: u8, upper: bool) -> (c: char)
    requires
        1 <= v <= 38,
    ensures
        c == actor_char(v, upper),
{
    if 1 <= v && v <= 26 {
        let b: u8 = if upper {
            v + 64
        } else {
            v + 96
        };
        b as char
    } else if 27 <= v && v <= 36 {
        let b: u8 = v + 21;
        b as char
    } else if v == 37 {
        '-'
    } else {
        '_'
    }
}

/// A catalog code round-trips back to the character it came from.
pub proof fn lemma_catalog_char_code(c: char)
    requires
        catalog_code(c) != 0,
    ensures
        catalog_char(catalog_code(c)) == c,
{
}

/// An actor code together with the recorded case round-trips back to the
/// character it came from.
pub proof fn lemma_actor_char_code(c: char)
    requires
        actor_code(c) != 0,
    ensures
        actor_char(actor_code(c), is_upper_alpha(c)) == c,
{
}

// ---------------------------------------------------------------------------
// Bit packer: 6-bit codes <-> byte buffer
// ---------------------------------------------------------------------------

/// Code at index `i` of a code sequence, with 0 (the terminator) past the end.
pub open spec fn code_in(codes: Seq<u8>, i: int) -> u8 {
    if 0 <= i && i < codes.len() {
        codes[i]
    } else {
        0
    }
}

/// Byte `j` of the packed region holding `codes`.  The code for character
/// `i` starts at bit `6*i`, LSB-first, so byte `j` combines bits of at most
/// two codes; which two, and how they are shifted, repeats with period
/// three.
pub open spec fn packed_byte(codes: Seq<u8>, j: int) -> u8 {
    let k = j / 3;
    if j % 3 == 0 {
        code_in(codes, 4 * k) | (code_in(codes, 4 * k + 1) << 6)
    } else if j % 3 == 1 {
        (code_in(codes, 4 * k + 1) >> 2) | (code_in(codes, 4 * k + 2) << 4)
    } else {
        (code_in(codes, 4 * k + 2) >> 4) | (code_in(codes, 4 * k + 3) << 2)
    }
}

/// The whole packed region of `size` bytes holding `codes`.
pub open spec fn packed_region(codes: Seq<u8>, size: nat) -> Seq<u8> {
    Seq::new(size, |j: int| packed_byte(codes, j))
}

/// Code read back from bit position `6*i` of a packed region, masked to six
/// bits; codes whose bit offset exceeds 2 straddle a byte boundary.
pub open spec fn code_at(data: Seq<u8>, i: int) -> u8 {
    let bi = 6 * i / 8;
    let off = 6 * i % 8;
    if off <= 2 {
        (data[bi] >> off) & CODE_MASK
    } else {
        ((data[bi] >> off) | (data[bi + 1] << (8 - off))) & CODE_MASK
    }
}

/// Fetch a code from a code vector, with the terminator 0 past the end.
fn code_get(codes: &Vec<u8>, i: usize) -> (v: u8)
    ensures
        v == code_in(codes@, i as int),
{
    if i < codes.len() {
        codes[i]
    } else {
        0
    }
}

/// Compute byte `j` of the packed region holding `codes`.
pub fn packed_byte_ex(codes: &Vec<u8>, j: usize) -> (b: u8)
    requires
        j < 32,
    ensures
        b == packed_byte(codes@, j as int),
{
    let k = j / 3;
    let r = j % 3;
    if r == 0 {
        code_get(codes, 4 * k) | (code_get(codes, 4 * k + 1) << 6u8)
    } else if r == 1 {
        (code_get(codes, 4 * k + 1) >> 2u8) | (code_get(codes, 4 * k + 2) << 4u8)
    } else {
        (code_get(codes, 4 * k + 2) >> 4u8) | (code_get(codes, 4 * k + 3) << 2u8)
    }
}

/// Read the code at character index `i` from a packed region.
pub fn code_at_ex(data: &[u8], i: usize) -> (v: u8)
    requires
        data@.len() <= 32,
        6 * (i as int) + 6 <= 8 * data@.len(),
    ensures
        v == code_at(data@, i as int),
{
    let bit: usize = 6 * i;
    let bi: usize = bit / 8;
    let off: usize = bit % 8;
    proof {
        assert(8 * (bit / 8) + bit % 8 == bit) by (nonlinear_arith);
    }
    if off <= 2 {
        (data[bi] >> off) & CODE_MASK
    } else {
        ((data[bi] >> off) | (data[bi + 1] << (8 - off))) & CODE_MASK
    }
}

/// Reading character `i` back from the packed region returns exactly the
/// code that was packed for it, and the terminator 0 past the end of the
/// code sequence.
pub proof fn lemma_pack_extract(codes: Seq<u8>, size: nat, i: int)
    requires
        forall|k: int| 0 <= k < codes.len() ==> codes[k] < 64,
        0 <= i,
        6 * i + 6 <= 8 * size,
    ensures
        code_at(packed_region(codes, size), i) == code_in(codes, i),
{
    let m = i / 4;
    let s = i % 4;
    vstd::arithmetic::div_mod::lemma_fundamental_div_mod(i, 4);
    let data = packed_region(codes, size);
    let c0 = code_in(codes, 4 * m);
    let c1 = code_in(codes, 4 * m + 1);
    let c2 = code_in(codes, 4 * m + 2);
    let c3 = code_in(codes, 4 * m + 3);
    assert(c0 < 64 && c1 < 64 && c2 < 64 && c3 < 64);
    if s == 0 {
        vstd::arithmetic::div_mod::lemma_fundamental_div_mod_converse(6 * i, 8, 3 * m, 0);
        vstd::arithmetic::div_mod::lemma_fundamental_div_mod_converse(3 * m, 3, m, 0);
        assert(data[3 * m] == packed_byte(codes, 3 * m));
        assert(((c0 | (c1 << 6)) >> 0) & 0x3f == c0) by (bit_vector)
            requires
                c0 < 64,
        ;
    } else if s == 1 {
        vstd::arithmetic::div_mod::lemma_fundamental_div_mod_converse(6 * i, 8, 3 * m, 6);
        vstd::arithmetic::div_mod::lemma_fundamental_div_mod_converse(3 * m, 3, m, 0);
        vstd::arithmetic::div_mod::lemma_fundamental_div_mod_converse(3 * m + 1, 3, m, 1);
        assert(data[3 * m] == packed_byte(codes, 3 * m));
        assert(data[3 * m + 1] == packed_byte(codes, 3 * m + 1));
        assert((((c0 | (c1 << 6)) >> 6) | (((c1 >> 2) | (c2 << 4)) << 2)) & 0x3f == c1)
            by (bit_vector)
            requires
                c0 < 64 && c1 < 64 && c2 < 64,
        ;
    } else if s == 2 {
        vstd::arithmetic::div_mod::lemma_fundamental_div_mod_converse(6 * i, 8, 3 * m + 1, 4);
        vstd::arithmetic::div_mod::lemma_fundamental_div_mod_converse(3 * m + 1, 3, m, 1);
        vstd::arithmetic::div_mod::lemma_fundamental_div_mod_converse(3 * m + 2, 3, m, 2);
        assert(data[3 * m + 1] == packed_byte(codes, 3 * m + 1));
        assert(data[3 * m + 2] == packed_byte(codes, 3 * m + 2));
        assert(((((c1 >> 2) | (c2 << 4)) >> 4) | (((c2 >> 4) | (c3 << 2)) << 4)) & 0x3f == c2)
            by (bit_vector)
            requires
                c1 < 64 && c2 < 64 && c3 < 64,
        ;
    } else {
        vstd::arithmetic::div_mod::lemma_fundamental_div_mod_converse(6 * i, 8, 3 * m + 2, 2);
        vstd::arithmetic::div_mod::lemma_fundamental_div_mod_converse(3 * m + 2, 3, m, 2);
        assert(data[3 * m + 2] == packed_byte(codes, 3 * m + 2));
        assert((((c2 >> 4) | (c3 << 2)) >> 2) & 0x3f == c3) by (bit_vector)
            requires
                c2 < 64 && c3 < 64,
        ;
    }
}

// ---------------------------------------------------------------------------
// Terminator handling
// ---------------------------------------------------------------------------

/// Index of the first terminator code at or after `i`, capped at `max`.
pub open spec fn decoded_len_from(data: Seq<u8>, i: int, max: int) -> int
    decreases max - i,
{
    if i >= max {
        max
    } else if code_at(data, i) == 0 {
        i
    } else {
        decoded_len_from(data, i + 1, max)
    }
}

/// Number of characters stored in a packed region that can hold up to `max`:
/// decoding stops at the first terminator code or after `max` characters.
pub open spec fn decoded_len(data: Seq<u8>, max: int) -> int {
    decoded_len_from(data, 0, max)
}

/// If the codes below `n` are the non-terminator codes and the code at `n`
/// (if any) is the terminator, then exactly `n` characters decode.
pub proof fn lemma_decoded_len_is(data: Seq<u8>, n: int, max: int)
    requires
        0 <= n <= max,
        forall|k: int| 0 <= k < n ==> code_at(data, k) != 0,
        n < max ==> code_at(data, n) == 0,
    ensures
        decoded_len(data, max) == n,
{
    lemma_decoded_len_from_is(data, 0, n, max);
}

proof fn lemma_decoded_len_from_is(data: Seq<u8>, i: int, n: int, max: int)
    requires
        0 <= i <= n <= max,
        forall|k: int| i <= k < n ==> code_at(data, k) != 0,
        n < max ==> code_at(data, n) == 0,
    ensures
        decoded_len_from(data, i, max) == n,
    decreases max - i,
{
    if i < n {
        lemma_decoded_len_from_is(data, i + 1, n, max);
    }
}

/// Index of the first zero code at or after `i`, or the length when all
/// codes from `i` on are non-zero.
pub open spec fn first_zero_from(codes: Seq<u8>, i: int) -> int
    decreases codes.len() - i,
{
    if i < 0 || i >= codes.len() {
        codes.len() as int
    } else if codes[i] == 0 {
        i
    } else {
        first_zero_from(codes, i + 1)
    }
}

/// Index of the first zero code of a code sequence.
pub open spec fn first_zero(codes: Seq<u8>) -> int {
    first_zero_from(codes, 0)
}

/// The first zero code is at `n` exactly when the codes below `n` are
/// non-zero and the one at `n` (if any) is zero.
pub proof fn lemma_first_zero_is(codes: Seq<u8>, n: int)
    requires
        0 <= n <= codes.len(),
        forall|k: int| 0 <= k < n ==> codes[k] != 0,
        n < codes.len() ==> codes[n] == 0,
    ensures
        first_zero(codes) == n,
{
    lemma_first_zero_from_is(codes, 0, n);
}

proof fn lemma_first_zero_from_is(codes: Seq<u8>, i: int, n: int)
    requires
        0 <= i <= n <= codes.len(),
        forall|k: int| i <= k < n ==> codes[k] != 0,
        n < codes.len() ==> codes[n] == 0,
    ensures
        first_zero_from(codes, i) == n,
    decreases codes.len() - i,
{
    if i < n {
        lemma_first_zero_from_is(codes, i + 1, n);
    }
}

// ---------------------------------------------------------------------------
// Byte-wise lexicographic comparison
// ---------------------------------------------------------------------------

/// Lexicographic comparison of two equal-length byte sequences, starting at
/// index `i`.
pub open spec fn lex_cmp_from(a: Seq<u8>, b: Seq<u8>, i: int) -> core::cmp::Ordering
    decreases a.len() - i,
{
    if i < 0 || i >= a.len() || i >= b.len() {
        core::cmp::Ordering::Equal
    } else if a[i] < b[i] {
        core::cmp::Ordering::Less
    } else if a[i] > b[i] {
        core::cmp::Ordering::Greater
    } else {
        lex_cmp_from(a, b, i + 1)
    }
}

/// Lexicographic comparison of two equal-length byte sequences.
pub open spec fn lex_cmp(a: Seq<u8>, b: Seq<u8>) -> core::cmp::Ordering {
    lex_cmp_from(a, b, 0)
}

/// Compare two equal-length byte slices lexicographically.
pub fn lex_cmp_ex(a: &[u8], b: &[u8]) -> (r: core::cmp::Ordering)
    requires
        a@.len() == b@.len(),
    ensures
        r == lex_cmp(a@, b@),
{
    let n = a.len();
    let mut i: usize = 0;
    while i < n
        invariant
            i <= n,
            n == a@.len(),
            n == b@.len(),
            lex_cmp(a@, b@) == lex_cmp_from(a@, b@, i as int),
        decreases n - i,
    {
        if a[i] < b[i] {
            return core::cmp::Ordering::Less;
        }
        if a[i] > b[i] {
            return core::cmp::Ordering::Greater;
        }
        i = i + 1;
    }
    core::cmp::Ordering::Equal
}

/// Two equal-length byte sequences compare `Equal` exactly when they are
/// the same sequence.
pub proof fn lemma_lex_cmp_equal(a: Seq<u8>, b: Seq<u8>)
    requires
        a.len() == b.len(),
    ensures
        (lex_cmp(a, b) == core::cmp::Ordering::Equal) <==> a =~= b,
{
    lemma_lex_cmp_from_equal(a, b, 0);
}

proof fn lemma_lex_cmp_from_equal(a: Seq<u8>, b: Seq<u8>, i: int)
    requires
        a.len() == b.len(),
        0 <= i <= a.len(),
    ensures
        (lex_cmp_from(a, b, i) == core::cmp::Ordering::Equal) <==> (forall|j: int|
            i <= j < a.len() ==> a[j] == b[j]),
    decreases a.len() - i,
{
    if i < a.len() && a[i] == b[i] {
        lemma_lex_cmp_from_equal(a, b, i + 1);
    }
}

/// With equal lengths, byte-wise `<=` everywhere and a difference
/// somewhere, the comparison comes out `Less`.
proof fn lemma_lex_pointwise_less(a: Seq<u8>, b: Seq<u8>, i: int)
    requires
        a.len() == b.len(),
        0 <= i <= a.len(),
        forall|j: int| i <= j < a.len() ==> a[j] <= b[j],
        exists|j: int| i <= j < a.len() && a[j] != b[j],
    ensures
        lex_cmp_from(a, b, i) == core::cmp::Ordering::Less,
    decreases a.len() - i,
{
    let j0 = choose|j: int| i <= j < a.len() && a[j] != b[j];
    if a[i] == b[i] {
        lemma_lex_pointwise_less(a, b, i + 1);
    }
}

/// Packing a strict prefix of a code sequence gives a region that
/// compares `Less` than the region packing the whole sequence.
pub proof fn lemma_packed_prefix_less(c1: Seq<u8>, c2: Seq<u8>, size: nat)
    requires
        c1 == c2.take(c1.len() as int),
        c1.len() < c2.len(),
        forall|k: int| 0 <= k < c2.len() ==> 0 < #[trigger] c2[k] < 64,
        6 * c2.len() <= 8 * size,
    ensures
        lex_cmp(packed_region(c1, size), packed_region(c2, size)) == core::cmp::Ordering::Less,
{
    let n = c1.len() as int;
    let d1 = packed_region(c1, size);
    let d2 = packed_region(c2, size);
    assert(forall|x: u8, y: u8| x <= (x | y)) by (bit_vector);
    assert(forall|x: u8| #![auto] x | (0u8 << 6) == x && x | (0u8 << 4) == x && x | (0u8 << 2) == x)
        by (bit_vector);
    assert((0u8 >> 2) == 0 && (0u8 >> 4) == 0) by (bit_vector);
    assert forall|idx: int| 0 <= idx implies code_in(c1, idx) == (if idx < n {
        code_in(c2, idx)
    } else {
        0u8
    }) by {
        if idx < n {
            assert(c1[idx] == c2.take(n)[idx]);
        }
    }
    assert forall|j: int| 0 <= j < size implies d1[j] <= d2[j] by {
        let k = j / 3;
        if j % 3 == 0 {
            if 4 * k + 1 < n {
                assert(d1[j] == d2[j]);
            }
        } else if j % 3 == 1 {
            if 4 * k + 2 < n {
                assert(d1[j] == d2[j]);
            }
        } else {
            if 4 * k + 3 < n {
                assert(d1[j] == d2[j]);
            }
        }
    }
    lemma_pack_extract(c1, size, n);
    lemma_pack_extract(c2, size, n);
    assert(code_at(d1, n) == 0);
    assert(code_at(d2, n) == c2[n]);
    if forall|j: int| 0 <= j < size ==> d1[j] == d2[j] {
        assert(d1 =~= d2);
        assert(false);
    }
    lemma_lex_pointwise_less(d1, d2, 0);
}

/// Packing loses nothing: two valid code sequences that pack to the same
/// region are the same sequence.
pub proof fn lemma_packed_region_injective(c1: Seq<u8>, c2: Seq<u8>, size: nat, max: int)
    requires
        forall|k: int| 0 <= k < c1.len() ==> 0 < #[trigger] c1[k] < 64,
        forall|k: int| 0 <= k < c2.len() ==> 0 < #[trigger] c2[k] < 64,
        c1.len() <= max,
        c2.len() <= max,
        6 * max <= 8 * size,
        packed_region(c1, size) == packed_region(c2, size),
    ensures
        c1 == c2,
{
    let d = packed_region(c1, size);
    if c1.len() < c2.len() {
        lemma_pack_extract(c1, size, c1.len() as int);
        lemma_pack_extract(c2, size, c1.len() as int);
        assert(false);
    }
    if c2.len() < c1.len() {
        lemma_pack_extract(c1, size, c2.len() as int);
        lemma_pack_extract(c2, size, c2.len() as int);
        assert(false);
    }
    assert forall|i: int| 0 <= i < c1.len() implies c1[i] == c2[i] by {
        lemma_pack_extract(c1, size, i);
        lemma_pack_extract(c2, size, i);
    }
    assert(c1 =~= c2);
}

// ---------------------------------------------------------------------------
// Case bitmap
// ---------------------------------------------------------------------------

/// Contribution of character position `p` to the case bitmap: 1 where the
/// character exists and is upper-case, 0 otherwise.
pub open spec fn upper_bit(s: Seq<char>, p: int) -> u8 {
    if 0 <= p && p < s.len() && is_upper_alpha(s[p]) {
        1
    } else {
        0
    }
}

/// Byte `b` of the case bitmap for the character sequence `s`: bit `t` is
/// set when character `8*b + t` was upper-case, LSB-first.
pub open spec fn bitmap_byte(s: Seq<char>, b: int) -> u8 {
    upper_bit(s, 8 * b) | (upper_bit(s, 8 * b + 1) << 1) | (upper_bit(s, 8 * b + 2) << 2)
        | (upper_bit(s, 8 * b + 3) << 3) | (upper_bit(s, 8 * b + 4) << 4)
        | (upper_bit(s, 8 * b + 5) << 5) | (upper_bit(s, 8 * b + 6) << 6)
        | (upper_bit(s, 8 * b + 7) << 7)
}

/// Whether character position `p` had an upper-case letter, according to a
/// bitmap stored at the front of `data`.
pub open spec fn map_bit(data: Seq<u8>, p: int) -> bool {
    (data[p / 8] >> (p % 8)) & 1 == 1
}

fn upper_bit_ex(chars: &Vec<char>, p: usize) -> (r: u8)
    ensures
        r == upper_bit(chars@, p as int),
{
    if p < chars.len() {
        let u = chars[p] as u32;
        if 65 <= u && u <= 90 {
            1
        } else {
            0
        }
    } else {
        0
    }
}

/// Compute byte `b` of the case bitmap for `chars`.
pub fn bitmap_byte_ex(chars: &Vec<char>, b: usize) -> (r: u8)
    requires
        b < 8,
    ensures
        r == bitmap_byte(chars@, b as int),
{
    upper_bit_ex(chars, 8 * b) | (upper_bit_ex(chars, 8 * b + 1) << 1u8) | (upper_bit_ex(
        chars,
        8 * b + 2,
    ) << 2u8) | (upper_bit_ex(chars, 8 * b + 3) << 3u8) | (upper_bit_ex(chars, 8 * b + 4) << 4u8)
        | (upper_bit_ex(chars, 8 * b + 5) << 5u8) | (upper_bit_ex(chars, 8 * b + 6) << 6u8) | (
    upper_bit_ex(chars, 8 * b + 7) << 7u8)
}

/// Reading bit `p` of a bitmap built from [`bitmap_byte`] tells whether the
/// character at position `p` was upper-case.
pub proof fn lemma_bitmap_bit(s: Seq<char>, data: Seq<u8>, p: int)
    requires
        0 <= p,
        p / 8 < data.len(),
        data[p / 8] == bitmap_byte(s, p / 8),
    ensures
        map_bit(data, p) == (p < s.len() && is_upper_alpha(s[p])),
{
    let b = p / 8;
    let t = p % 8;
    vstd::arithmetic::div_mod::lemma_fundamental_div_mod(p, 8);
    let u0 = upper_bit(s, 8 * b);
    let u1 = upper_bit(s, 8 * b + 1);
    let u2 = upper_bit(s, 8 * b + 2);
    let u3 = upper_bit(s, 8 * b + 3);
    let u4 = upper_bit(s, 8 * b + 4);
    let u5 = upper_bit(s, 8 * b + 5);
    let u6 = upper_bit(s, 8 * b + 6);
    let u7 = upper_bit(s, 8 * b + 7);
    let x = bitmap_byte(s, b);
    assert(u0 <= 1 && u1 <= 1 && u2 <= 1 && u3 <= 1 && u4 <= 1 && u5 <= 1 && u6 <= 1 && u7 <= 1);
    if t == 0 {
        assert((x >> 0) & 1 == u0) by (bit_vector)
            requires
                x == u0 | (u1 << 1) | (u2 << 2) | (u3 << 3) | (u4 << 4) | (u5 << 5) | (u6 << 6) | (
                u7 << 7) && u0 <= 1 && u1 <= 1 && u2 <= 1 && u3 <= 1 && u4 <= 1 && u5 <= 1 && u6
                    <= 1 && u7 <= 1,
        ;
    } else if t == 1 {
        assert((x >> 1) & 1 == u1) by (bit_vector)
            requires
                x == u0 | (u1 << 1) | (u2 << 2) | (u3 << 3) | (u4 << 4) | (u5 << 5) | (u6 << 6) | (
                u7 << 7) && u0 <= 1 && u1 <= 1 && u2 <= 1 && u3 <= 1 && u4 <= 1 && u5 <= 1 && u6
                    <= 1 && u7 <= 1,
        ;
    } else if t == 2 {
        assert((x >> 2) & 1 == u2) by (bit_vector)
            requires
                x == u0 | (u1 << 1) | (u2 << 2) | (u3 << 3) | (u4 << 4) | (u5 << 5) | (u6 << 6) | (
                u7 << 7) && u0 <= 1 && u1 <= 1 && u2 <= 1 && u3 <= 1 && u4 <= 1 && u5 <= 1 && u6
                    <= 1 && u7 <= 1,
        ;
    } else if t == 3 {
        assert((x >> 3) & 1 == u3) by (bit_vector)
            requires
                x == u0 | (u1 << 1) | (u2 << 2) | (u3 << 3) | (u4 << 4) | (u5 << 5) | (u6 << 6) | (
                u7 << 7) && u0 <= 1 && u1 <= 1 && u2 <= 1 && u3 <= 1 && u4 <= 1 && u5 <= 1 && u6
                    <= 1 && u7 <= 1,
        ;
    } else if t == 4 {
        assert((x >> 4) & 1 == u4) by (bit_vector)
            requires
                x == u0 | (u1 << 1) | (u2 << 2) | (u3 << 3) | (u4 << 4) | (u5 << 5) | (u6 << 6) | (
                u7 << 7) && u0 <= 1 && u1 <= 1 && u2 <= 1 && u3 <= 1 && u4 <= 1 && u5 <= 1 && u6
                    <= 1 && u7 <= 1,
        ;
    } else if t == 5 {
        assert((x >> 5) & 1 == u5) by (bit_vector)
            requires
                x == u0 | (u1 << 1) | (u2 << 2) | (u3 << 3) | (u4 << 4) | (u5 << 5) | (u6 << 6) | (
                u7 << 7) && u0 <= 1 && u1 <= 1 && u2 <= 1 && u3 <= 1 && u4 <= 1 && u5 <= 1 && u6
                    <= 1 && u7 <= 1,
        ;
    } else if t == 6 {
        assert((x >> 6) & 1 == u6) by (bit_vector)
            requires
                x == u0 | (u1 << 1) | (u2 << 2) | (u3 << 3) | (u4 << 4) | (u5 << 5) | (u6 << 6) | (
                u7 << 7) && u0 <= 1 && u1 <= 1 && u2 <= 1 && u3 <= 1 && u4 <= 1 && u5 <= 1 && u6
                    <= 1 && u7 <= 1,
        ;
    } else {
        assert((x >> 7) & 1 == u7) by (bit_vector)
            requires
                x == u0 | (u1 << 1) | (u2 << 2) | (u3 << 3) | (u4 << 4) | (u5 << 5) | (u6 << 6) | (
                u7 << 7) && u0 <= 1 && u1 <= 1 && u2 <= 1 && u3 <= 1 && u4 <= 1 && u5 <= 1 && u6
                    <= 1 && u7 <= 1,
        ;
    }
}

/// Test bit `p` of a bitmap stored at the front of `data`.
pub fn map_bit_ex(data: &[u8], p: usize) -> (r: bool)
    requires
        p / 8 < data@.len(),
    ensures
        r == map_bit(data@, p as int),
{
    (data[p / 8] >> (p % 8)) & 1 == 1
}

// ---------------------------------------------------------------------------
// Trimming trailing zero bytes for the raw-byte surface
// ---------------------------------------------------------------------------

/// Length of `data` once all trailing zero bytes are dropped, but never
/// shorter than `min` bytes.
pub open spec fn trimmed_len(data: Seq<u8>, min: int) -> int
    decreases data.len(),
{
    if data.len() == 0 || data.len() <= min {
        min
    } else if data[data.len() - 1] != 0 {
        data.len() as int
    } else {
        trimmed_len(data.drop_last(), min)
    }
}

/// A byte sequence extended with zero bytes up to `size` bytes.
pub open spec fn zero_pad(s: Seq<u8>, size: nat) -> Seq<u8> {
    Seq::new(
        size,
        |j: int|
            if j < s.len() {
                s[j]
            } else {
                0u8
            },
    )
}

/// Dropping trailing zero bytes and padding with zeros again restores the
/// packed buffer exactly, for every buffer.
pub proof fn lemma_trim_pad(data: Seq<u8>, min: int)
    requires
        0 <= min <= data.len(),
    ensures
        zero_pad(data.take(trimmed_len(data, min)), data.len() as nat) =~= data,
{
    let n = trimmed_len(data, min);
    lemma_trimmed_len_bounds(data, min);
    assert forall|j: int| 0 <= j < data.len() implies zero_pad(
        data.take(n),
        data.len() as nat,
    )[j] == data[j] by {
        if n <= j {
            assert(data[j] == 0);
        }
    }
}

/// The trimmed length lies between `min` and the buffer length, and every
/// dropped byte is zero.
pub proof fn lemma_trimmed_len_bounds(data: Seq<u8>, min: int)
    requires
        0 <= min <= data.len(),
    ensures
        min <= trimmed_len(data, min) <= data.len(),
        forall|j: int| trimmed_len(data, min) <= j < data.len() ==> data[j] == 0,
    decreases data.len(),
{
    if data.len() > min && data.len() > 0 && data[data.len() - 1] == 0 {
        lemma_trimmed_len_bounds(data.drop_last(), min);
        assert forall|j: int| trimmed_len(data, min) <= j < data.len() implies data[j] == 0 by {
            if j < data.len() - 1 {
                assert(data.drop_last()[j] == data[j]);
            }
        }
    }
}

} // verus!
