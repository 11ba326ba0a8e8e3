//! Attribute keys and attribute display data of an item.
//!
//! An item variant is addressed by four small attribute keys.  The four
//! keys travel together as an [`AttrKeys`] value, which also has a compact
//! 32-bit form and a hexadecimal text form.

use vstd::prelude::*;

verus! {

/// One attribute key.
pub type AttrKey = u8;

/// Units of an attribute combination in stock.
pub type Stock = u32;

/// The attribute rows shown on an item page, one per slot.
pub type AttrIndexesResponse = [Option<AttrIndexResponse>; 4];

/// Availability of each attribute value, one row per slot.
pub type AttrStatusesResponse = [Vec<Option<AttrStatusResponse>>; 4];

/// The four attribute keys identifying one item variant.
#[derive(Debug, Clone, Copy, PartialEq, Eq, Hash, PartialOrd, Ord, Default)]
pub struct AttrKeys(pub [AttrKey; 4]);

/// Errors reported while building or changing attribute keys.
#[derive(Debug, Clone, PartialEq, Eq)]
pub enum AttrKeysError {
    /// A slot index past the fourth key.
    IndexOutOfRange,
    /// A hexadecimal text form with no digits.
    EmptyHex,
    /// A character that is no hexadecimal digit; carries the offender.
    InvalidHexDigit(char),
    /// A hexadecimal value too large for 32 bits.
    HexOverflow,
}

// ---------------------------------------------------------------------------
// Hexadecimal text form
// ---------------------------------------------------------------------------

/// Value of a hexadecimal digit, or 16 for any other character.
pub open spec fn hex_digit_val(c: char) -> u8 {
    let u = c as u32;
    if 48 <= u && u <= 57 {
        (u - 48) as u8
    } else if 97 <= u && u <= 102 {
        (u - 87) as u8
    } else if 65 <= u && u <= 70 {
        (u - 55) as u8
    } else {
        16
    }
}

/// Every character is a hexadecimal digit.
pub open spec fn hex_all_valid(s: Seq<char>) -> bool {
    forall|i: int| 0 <= i < s.len() ==> hex_digit_val(s[i]) < 16
}

/// The number a sequence of hexadecimal digits denotes.
pub open spec fn hex_number(s: Seq<char>) -> int
    decreases s.len(),
{
    if s.len() == 0 {
        0
    } else {
        16 * hex_number(s.drop_last()) + hex_digit_val(s.last())
    }
}

/// The digits of a hexadecimal text form: everything after one optional
/// leading plus sign.
pub open spec fn hex_digits(s: Seq<char>) -> Seq<char> {
    if s.len() > 0 && s[0] == '+' {
        s.skip(1)
    } else {
        s
    }
}

/// Left-to-right scan of the digits from position `i` with the value
/// accumulated so far: stops at the first character that is no digit, or
/// as soon as the value outgrows 32 bits.
pub open spec fn hex_scan(d: Seq<char>, i: int, acc: int) -> Result<int, AttrKeysError>
    decreases d.len() - i,
{
    if i < 0 || i >= d.len() {
        Ok(acc)
    } else if hex_digit_val(d[i]) >= 16 {
        Err(AttrKeysError::InvalidHexDigit(d[i]))
    } else if 16 * acc + hex_digit_val(d[i]) > u32::MAX {
        Err(AttrKeysError::HexOverflow)
    } else {
        hex_scan(d, i + 1, 16 * acc + hex_digit_val(d[i]))
    }
}

/// A prefix of a digit string denotes no more than the whole string.
proof fn lemma_hex_prefix_le(s: Seq<char>, i: int)
    requires
        0 <= i <= s.len(),
        hex_all_valid(s),
    ensures
        hex_number(s.take(i)) <= hex_number(s),
        hex_number(s) >= 0,
    decreases s.len() - i,
{
    if i == s.len() {
        assert(s.take(i) =~= s);
        lemma_hex_nonneg(s);
    } else {
        lemma_hex_prefix_le(s, i + 1);
        lemma_hex_nonneg(s.take(i));
        assert(s.take(i + 1).drop_last() =~= s.take(i));
        assert(s.take(i + 1).last() == s[i]);
    }
}

proof fn lemma_hex_nonneg(s: Seq<char>)
    ensures
        hex_number(s) >= 0,
    decreases s.len(),
{
    if s.len() > 0 {
        lemma_hex_nonneg(s.drop_last());
    }
}

/// On a string of digits denoting a 32-bit value, the scan returns exactly
/// that value.
pub proof fn lemma_hex_scan_ok(d: Seq<char>, i: int)
    requires
        hex_all_valid(d),
        hex_number(d) <= u32::MAX,
        0 <= i <= d.len(),
    ensures
        hex_scan(d, i, hex_number(d.take(i))) == Ok::<int, AttrKeysError>(hex_number(d)),
    decreases d.len() - i,
{
    lemma_hex_nonneg(d.take(i));
    if i == d.len() {
        assert(d.take(i) =~= d);
    } else {
        assert(d.take(i + 1).drop_last() =~= d.take(i));
        assert(d.take(i + 1).last() == d[i]);
        lemma_hex_prefix_le(d, i + 1);
        lemma_hex_scan_ok(d, i + 1);
    }
}

fn hex_digit_val_ex(c: char) -> (v: u8)
    ensures
        v == hex_digit_val(c),
{
    let u = c as u32;
    if 48 <= u && u <= 57 {
        (u - 48) as u8
    } else if 97 <= u && u <= 102 {
        (u - 87) as u8
    } else if 65 <= u && u <= 70 {
        (u - 55) as u8
    } else {
        16
    }
}

// ---------------------------------------------------------------------------
// The keys
// ---------------------------------------------------------------------------

/// The packed 32-bit form: key `i` occupies bits `8*i`, little-endian.
pub open spec fn keys_as_u32(k: AttrKeys) -> u32 {
    (k.0[0] as u32) | ((k.0[1] as u32) << 8) | ((k.0[2] as u32) << 16) | ((k.0[3] as u32) << 24)
}

/// The four keys holding a packed 32-bit value, little-endian.
pub open spec fn keys_of_u32(num: u32) -> AttrKeys {
    AttrKeys([num as u8, (num >> 8) as u8, (num >> 16) as u8, (num >> 24) as u8])
}

impl AttrKeys {
    /// Bundle four attribute keys.
    pub fn new(attr1: AttrKey, attr2: AttrKey, attr3: AttrKey, attr4: AttrKey) -> (r: AttrKeys)
        ensures
            r.0@ =~= seq![attr1, attr2, attr3, attr4],
    {
        AttrKeys([attr1, attr2, attr3, attr4])
    }

    /// The key in slot `index`; the caller owes the bound.
    pub fn get(&self, index: usize) -> (r: AttrKey)
        requires
            index < 4,
        ensures
            r == self.0@[index as int],
    {
        self.0[index]
    }

    /// A copy with the key in slot `index` replaced; slots past the fourth
    /// are rejected.
    pub fn replace(&self, index: usize, attr: &AttrKey) -> (r: Result<AttrKeys, AttrKeysError>)
        ensures
            match r {
                Ok(k) => index <= 3 && k.0@ =~= self.0@.update(index as int, *attr),
                Err(e) => e == AttrKeysError::IndexOutOfRange && index > 3,
            },
    {
        if index > 3 {
            return Err(AttrKeysError::IndexOutOfRange);
        }
        let mut keys = self.0;
        keys[index] = *attr;
        Ok(AttrKeys(keys))
    }

    /// Parse a hexadecimal text form: an optional plus sign, then at least
    /// one digit, denoting a value that fits 32 bits.  The scan stops at
    /// the first character that is no digit, or as soon as the value
    /// outgrows 32 bits, as [`hex_scan`] says.
    #[verifier::loop_isolation(false)]
    pub fn from_hex(s: &str) -> (r: Result<AttrKeys, AttrKeysError>)
        ensures
            ({
                let d = hex_digits(s@);
                if d.len() == 0 {
                    r == Err::<AttrKeys, AttrKeysError>(AttrKeysError::EmptyHex)
                } else {
                    match r {
                        Ok(k) => hex_scan(d, 0, 0) matches Ok(v) && k == keys_of_u32(v as u32),
                        Err(e) => hex_scan(d, 0, 0) == Err::<int, AttrKeysError>(e),
                    }
                }
            }),
    {
        let chars = crate::util::string::str_chars(s);
        let start: usize = if chars.len() > 0 && chars[0] == '+' {
            1
        } else {
            0
        };
        let ghost d = hex_digits(s@);
        proof {
            assert(d =~= chars@.skip(start as int));
        }
        let n = chars.len();
        if start >= n {
            return Err(AttrKeysError::EmptyHex);
        }
        let mut acc: u32 = 0;
        let mut i: usize = start;
        while i < n
            invariant
                start <= i <= n,
                hex_scan(d, 0, 0) == hex_scan(d, i - start, acc as int),
            decreases n - i,
        {
            proof {
                assert(d[i - start] == chars@[i as int]);
            }
            let v = hex_digit_val_ex(chars[i]);
            if v >= 16 {
                return Err(AttrKeysError::InvalidHexDigit(chars[i]));
            }
            if acc > (u32::MAX - v as u32) / 16 {
                proof {
                    assert(16 * (acc as int) + (v as int) > u32::MAX) by (nonlinear_arith)
                        requires
                            acc as int > ((u32::MAX - v as u32) as int) / 16,
                            v < 16,
                    ;
                }
                return Err(AttrKeysError::HexOverflow);
            }
            proof {
                assert(16 * (acc as int) + (v as int) <= u32::MAX) by (nonlinear_arith)
                    requires
                        acc as int <= ((u32::MAX - v as u32) as int) / 16,
                        v < 16,
                ;
            }
            acc = acc * 16 + v as u32;
            i = i + 1;
        }
        Ok(Self::from_u32_core(acc))
    }

    /// The four keys of a packed 32-bit value.
    pub fn from_u32_core(num: u32) -> (r: AttrKeys)
        ensures
            r == keys_of_u32(num),
    {
        AttrKeys([num as u8, (num >> 8) as u8, (num >> 16) as u8, (num >> 24) as u8])
    }

    /// The packed 32-bit form of the keys.
    pub fn to_u32_core(&self) -> (r: u32)
        ensures
            r == keys_as_u32(*self),
    {
        (self.0[0] as u32) | ((self.0[1] as u32) << 8) | ((self.0[2] as u32) << 16) | ((
        self.0[3] as u32) << 24)
    }
}

impl From<u32> for AttrKeys {
    /// Unpack the 32-bit form.
    fn from(num: u32) -> (r: Self) {
        Self::from_u32_core(num)
    }
}

impl vstd::std_specs::convert::FromSpecImpl<u32> for AttrKeys {
    open spec fn obeys_from_spec() -> bool {
        true
    }

    open spec fn from_spec(num: u32) -> Self {
        keys_of_u32(num)
    }
}

impl From<AttrKeys> for u32 {
    /// Pack the keys into their 32-bit form.
    fn from(keys: AttrKeys) -> (r: u32) {
        keys.to_u32_core()
    }
}

impl vstd::std_specs::convert::FromSpecImpl<AttrKeys> for u32 {
    open spec fn obeys_from_spec() -> bool {
        true
    }

    open spec fn from_spec(keys: AttrKeys) -> u32 {
        keys_as_u32(keys)
    }
}

/// Packing four keys and unpacking them again returns the same keys, and
/// the other way round.
pub proof fn lemma_keys_u32_round_trip(k: AttrKeys, num: u32)
    ensures
        keys_of_u32(keys_as_u32(k)) == k,
        keys_as_u32(keys_of_u32(num)) == num,
{
    let a = k.0[0];
    let b = k.0[1];
    let c = k.0[2];
    let d = k.0[3];
    let x = keys_as_u32(k);
    assert(((a as u32) | ((b as u32) << 8) | ((c as u32) << 16) | ((d as u32) << 24)) as u8 == a
        && ((((a as u32) | ((b as u32) << 8) | ((c as u32) << 16) | ((d as u32) << 24)) >> 8) as u8
        == b) && ((((a as u32) | ((b as u32) << 8) | ((c as u32) << 16) | ((d as u32) << 24))
        >> 16) as u8 == c) && ((((a as u32) | ((b as u32) << 8) | ((c as u32) << 16) | ((d as u32)
        << 24)) >> 24) as u8 == d)) by (bit_vector);
    assert(keys_of_u32(x).0 =~= k.0);
    assert(((num as u8) as u32) | ((((num >> 8) as u8) as u32) << 8) | ((((num >> 16) as u8) as u32)
        << 16) | ((((num >> 24) as u8) as u32) << 24) == num) by (bit_vector);
}

// ---------------------------------------------------------------------------
// Attribute display data
// ---------------------------------------------------------------------------

/// One attribute row on the item page: its name and selectable values.
#[derive(Debug, Clone, PartialEq)]
pub struct AttrIndexResponse {
    pub name: String,
    pub value: Vec<AttrType>,
}

/// One selectable attribute value.
#[derive(Debug, Clone, PartialEq)]
pub enum AttrType {
    Text(String),
    Color(AttrColor),
}

/// A named display color.
#[derive(Debug, Clone, PartialEq)]
pub struct AttrColor {
    pub name: String,
    /// Red, green and blue channels.
    pub color: [u8; 3],
}

/// Availability of one attribute combination.
#[derive(Debug, Clone, Copy, PartialEq)]
pub struct AttrStatusResponse {
    pub is_in_stock: bool,
}

/// Request naming an attribute combination and which slot just changed.
#[derive(Debug, Clone, Copy, PartialEq, Eq, Hash)]
pub struct AttrRequest {
    pub keys: AttrKeys,
    pub changed_key_index: Option<u8>,
}

} // verus!
