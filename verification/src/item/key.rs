//! Random storage key for one item attribute combination.
//!
//! A key is a bare 64-bit value.  Fresh keys are drawn from a 32-byte block
//! of entropy that the runtime hands over; assembling keys from that block
//! and moving keys to and from their 8-byte stored form is the logic here.

use vstd::prelude::*;

verus! {

/// Bytes of entropy a key block provides.
pub const ENTROPY_BYTES: usize = 32;

/// The 64-bit value read little-endian from the first eight of `s`.
pub open spec fn le_u64(s: Seq<u8>) -> u64 {
    (s[0] as u64) | ((s[1] as u64) << 8) | ((s[2] as u64) << 16) | ((s[3] as u64) << 24) | ((
    s[4] as u64) << 32) | ((s[5] as u64) << 40) | ((s[6] as u64) << 48) | ((s[7] as u64) << 56)
}

/// The big-endian 8-byte stored form of a 64-bit value.
pub open spec fn be_bytes_u64(x: u64) -> Seq<u8> {
    seq![
        (x >> 56) as u8,
        (x >> 48) as u8,
        (x >> 40) as u8,
        (x >> 32) as u8,
        (x >> 24) as u8,
        (x >> 16) as u8,
        (x >> 8) as u8,
        x as u8,
    ]
}

/// The 64-bit value read big-endian from eight bytes.
pub open spec fn be_u64(s: Seq<u8>) -> u64 {
    ((s[0] as u64) << 56) | ((s[1] as u64) << 48) | ((s[2] as u64) << 40) | ((s[3] as u64) << 32)
        | ((s[4] as u64) << 24) | ((s[5] as u64) << 16) | ((s[6] as u64) << 8) | (s[7] as u64)
}

/// Storage key of one item attribute combination.
#[derive(Debug, Clone, Copy, PartialEq, Eq, Structural, Hash, PartialOrd, Ord)]
pub struct ItemKey(pub u64);

impl ItemKey {
    /// Assemble one key from a 32-byte entropy block: the first eight
    /// bytes, read little-endian.
    pub fn from_entropy(bytes: &[u8; 32]) -> (k: Self)
        ensures
            k.0 == le_u64(bytes@),
    {
        let b = bytes;
        ItemKey(
            (b[0] as u64) | ((b[1] as u64) << 8) | ((b[2] as u64) << 16) | ((b[3] as u64) << 24)
                | ((b[4] as u64) << 32) | ((b[5] as u64) << 40) | ((b[6] as u64) << 48) | ((
            b[7] as u64) << 56),
        )
    }

    /// Assemble four keys from a 32-byte entropy block: each run of eight
    /// bytes, read little-endian.
    pub fn four_from_entropy(bytes: &[u8; 32]) -> (ks: [Self; 4])
        ensures
            ks@[0].0 == le_u64(bytes@),
            ks@[1].0 == le_u64(bytes@.skip(8)),
            ks@[2].0 == le_u64(bytes@.skip(16)),
            ks@[3].0 == le_u64(bytes@.skip(24)),
    {
        let b = bytes;
        let k0 = ItemKey(
            (b[0] as u64) | ((b[1] as u64) << 8) | ((b[2] as u64) << 16) | ((b[3] as u64) << 24)
                | ((b[4] as u64) << 32) | ((b[5] as u64) << 40) | ((b[6] as u64) << 48) | ((
            b[7] as u64) << 56),
        );
        let k1 = ItemKey(
            (b[8] as u64) | ((b[9] as u64) << 8) | ((b[10] as u64) << 16) | ((b[11] as u64) << 24)
                | ((b[12] as u64) << 32) | ((b[13] as u64) << 40) | ((b[14] as u64) << 48) | ((
            b[15] as u64) << 56),
        );
        let k2 = ItemKey(
            (b[16] as u64) | ((b[17] as u64) << 8) | ((b[18] as u64) << 16) | ((b[19] as u64)
                << 24) | ((b[20] as u64) << 32) | ((b[21] as u64) << 40) | ((b[22] as u64) << 48)
                | ((b[23] as u64) << 56),
        );
        let k3 = ItemKey(
            (b[24] as u64) | ((b[25] as u64) << 8) | ((b[26] as u64) << 16) | ((b[27] as u64)
                << 24) | ((b[28] as u64) << 32) | ((b[29] as u64) << 40) | ((b[30] as u64) << 48)
                | ((b[31] as u64) << 56),
        );
        let ks = [k0, k1, k2, k3];
        proof {
            assert(bytes@.skip(8)[0] == bytes@[8]);
            assert(bytes@.skip(8)[1] == bytes@[9]);
            assert(bytes@.skip(8)[2] == bytes@[10]);
            assert(bytes@.skip(8)[3] == bytes@[11]);
            assert(bytes@.skip(8)[4] == bytes@[12]);
            assert(bytes@.skip(8)[5] == bytes@[13]);
            assert(bytes@.skip(8)[6] == bytes@[14]);
            assert(bytes@.skip(8)[7] == bytes@[15]);
            assert(bytes@.skip(16)[0] == bytes@[16]);
            assert(bytes@.skip(16)[1] == bytes@[17]);
            assert(bytes@.skip(16)[2] == bytes@[18]);
            assert(bytes@.skip(16)[3] == bytes@[19]);
            assert(bytes@.skip(16)[4] == bytes@[20]);
            assert(bytes@.skip(16)[5] == bytes@[21]);
            assert(bytes@.skip(16)[6] == bytes@[22]);
            assert(bytes@.skip(16)[7] == bytes@[23]);
            assert(bytes@.skip(24)[0] == bytes@[24]);
            assert(bytes@.skip(24)[1] == bytes@[25]);
            assert(bytes@.skip(24)[2] == bytes@[26]);
            assert(bytes@.skip(24)[3] == bytes@[27]);
            assert(bytes@.skip(24)[4] == bytes@[28]);
            assert(bytes@.skip(24)[5] == bytes@[29]);
            assert(bytes@.skip(24)[6] == bytes@[30]);
            assert(bytes@.skip(24)[7] == bytes@[31]);
        }
        ks
    }

    /// The 8-byte big-endian stored form of the key.
    pub fn to_bytes(&self) -> (r: Vec<u8>)
        ensures
            r@ == be_bytes_u64(self.0),
    {
        let x = self.0;
        let mut out: Vec<u8> = Vec::new();
        out.push((x >> 56) as u8);
        out.push((x >> 48) as u8);
        out.push((x >> 40) as u8);
        out.push((x >> 32) as u8);
        out.push((x >> 24) as u8);
        out.push((x >> 16) as u8);
        out.push((x >> 8) as u8);
        out.push(x as u8);
        proof {
            assert(out@ =~= be_bytes_u64(x));
        }
        out
    }

    /// Read a key back from its 8-byte big-endian stored form.
    pub fn from_bytes(bytes: &[u8]) -> (k: Self)
        requires
            bytes@.len() == 8,
        ensures
            k.0 == be_u64(bytes@),
    {
        ItemKey(
            ((bytes[0] as u64) << 56) | ((bytes[1] as u64) << 48) | ((bytes[2] as u64) << 40) | ((
            bytes[3] as u64) << 32) | ((bytes[4] as u64) << 24) | ((bytes[5] as u64) << 16) | ((
            bytes[6] as u64) << 8) | (bytes[7] as u64),
        )
    }
}

impl From<u64> for ItemKey {
    /// Wrap a bare 64-bit value.
    fn from(value: u64) -> (r: Self) {
        ItemKey(value)
    }
}

impl vstd::std_specs::convert::FromSpecImpl<u64> for ItemKey {
    open spec fn obeys_from_spec() -> bool {
        true
    }

    open spec fn from_spec(value: u64) -> Self {
        ItemKey(value)
    }
}

impl From<ItemKey> for u64 {
    /// The bare 64-bit value of the key.
    fn from(key: ItemKey) -> (r: u64) {
        key.0
    }
}

impl vstd::std_specs::convert::FromSpecImpl<ItemKey> for u64 {
    open spec fn obeys_from_spec() -> bool {
        true
    }

    open spec fn from_spec(key: ItemKey) -> u64 {
        key.0
    }
}

impl Default for ItemKey {
    /// The zero key.
    fn default() -> (r: Self)
        ensures
            r.0 == 0,
    {
        ItemKey(0)
    }
}

/// Writing a key to its stored form and reading it back returns the same
/// key.
pub proof fn lemma_key_bytes_round_trip(x: u64)
    ensures
        be_u64(be_bytes_u64(x)) == x,
{
    assert((((x >> 56) as u8) as u64) << 56 | (((x >> 48) as u8) as u64) << 48 | (((x
        >> 40) as u8) as u64) << 40 | (((x >> 32) as u8) as u64) << 32 | (((x >> 24) as u8) as u64)
        << 24 | (((x >> 16) as u8) as u64) << 16 | (((x >> 8) as u8) as u64) << 8 | ((
    x as u8) as u64) == x) by (bit_vector);
}

} // verus!
