use vstd::prelude::*;

verus! {

/// A 256-bit unsigned integer held as four 64-bit limbs, least significant first.
#[derive(Clone, Copy, Debug, PartialEq, Eq)]
pub struct U256(pub [u64; 4]);

/// Byte `i` (counted from the most significant end) of the big-endian form of `limbs`.
pub open spec fn big_endian_byte(limbs: [u64; 4], i: int) -> u8 {
    let limb = limbs@[3 - i / 8];
    let shift = (8 * (7 - i % 8)) as u64;
    ((limb >> shift) & 0xffu64) as u8
}

/// The 32-byte big-endian form of `limbs`.
pub open spec fn big_endian_bytes(limbs: [u64; 4]) -> Seq<u8> {
    Seq::new(32, |i: int| big_endian_byte(limbs, i))
}

impl U256 {
    /// The value as 32 bytes, most significant byte first.
    pub fn to_big_endian(&self) -> (bytes: [u8; 32])
        ensures
            bytes@ == big_endian_bytes(self.0),
    {
        let mut bytes: [u8; 32] = [0u8; 32];
        let mut k: usize = 0;
        while k < 4
            invariant
                k <= 4,
                forall|i: int| 0 <= i < 8 * k ==> bytes@[i] == big_endian_byte(self.0, i),
            decreases 4 - k,
        {
            let limb: u64 = self.0[3 - k];
            let mut j: usize = 0;
            while j < 8
                invariant
                    k < 4,
                    j <= 8,
                    limb == self.0@[3 - k as int],
                    forall|i: int| 0 <= i < 8 * k + j ==> bytes@[i] == big_endian_byte(self.0, i),
                decreases 8 - j,
            {
                let shift: u64 = (8 * (7 - j)) as u64;
                bytes[8 * k + j] = ((limb >> shift) & 0xffu64) as u8;
                assert(((8 * k + j) as int) / 8 == k as int);
                assert(((8 * k + j) as int) % 8 == j as int);
                j = j + 1;
            }
            k = k + 1;
        }
        assert(bytes@ =~= big_endian_bytes(self.0));
        bytes
    }
}

/// A 64-bit word is determined by its eight bytes.
proof fn lemma_u64_from_bytes(x: u64, y: u64)
    requires
        (x >> 56u64) & 0xffu64 == (y >> 56u64) & 0xffu64,
        (x >> 48u64) & 0xffu64 == (y >> 48u64) & 0xffu64,
        (x >> 40u64) & 0xffu64 == (y >> 40u64) & 0xffu64,
        (x >> 32u64) & 0xffu64 == (y >> 32u64) & 0xffu64,
        (x >> 24u64) & 0xffu64 == (y >> 24u64) & 0xffu64,
        (x >> 16u64) & 0xffu64 == (y >> 16u64) & 0xffu64,
        (x >> 8u64) & 0xffu64 == (y >> 8u64) & 0xffu64,
        (x >> 0u64) & 0xffu64 == (y >> 0u64) & 0xffu64,
    ensures
        x == y,
{
    assert(x == y) by (bit_vector)
        requires
            (x >> 56u64) & 0xffu64 == (y >> 56u64) & 0xffu64,
            (x >> 48u64) & 0xffu64 == (y >> 48u64) & 0xffu64,
            (x >> 40u64) & 0xffu64 == (y >> 40u64) & 0xffu64,
            (x >> 32u64) & 0xffu64 == (y >> 32u64) & 0xffu64,
            (x >> 24u64) & 0xffu64 == (y >> 24u64) & 0xffu64,
            (x >> 16u64) & 0xffu64 == (y >> 16u64) & 0xffu64,
            (x >> 8u64) & 0xffu64 == (y >> 8u64) & 0xffu64,
            (x >> 0u64) & 0xffu64 == (y >> 0u64) & 0xffu64,
    ;
}

/// Distinct token ids have distinct big-endian forms: the 32 bytes sent across
/// the bridge identify the token.
pub proof fn law_big_endian_injective(a: U256, b: U256)
    requires
        big_endian_bytes(a.0) == big_endian_bytes(b.0),
    ensures
        a == b,
{
    assert forall|k: int| 0 <= k < 4 implies a.0@[k] == b.0@[k] by {
        lemma_limb_byte_eq(a.0, b.0, k, 0);
        lemma_limb_byte_eq(a.0, b.0, k, 1);
        lemma_limb_byte_eq(a.0, b.0, k, 2);
        lemma_limb_byte_eq(a.0, b.0, k, 3);
        lemma_limb_byte_eq(a.0, b.0, k, 4);
        lemma_limb_byte_eq(a.0, b.0, k, 5);
        lemma_limb_byte_eq(a.0, b.0, k, 6);
        lemma_limb_byte_eq(a.0, b.0, k, 7);
        lemma_u64_from_bytes(a.0@[k], b.0@[k]);
    }
    assert(a.0 =~= b.0);
}

/// Equal big-endian forms agree on byte `j` (from the top) of limb `k`.
proof fn lemma_limb_byte_eq(a: [u64; 4], b: [u64; 4], k: int, j: int)
    requires
        0 <= k < 4,
        0 <= j < 8,
        big_endian_bytes(a) == big_endian_bytes(b),
    ensures
        (a@[k] >> ((56 - 8 * j) as u64)) & 0xffu64 == (b@[k] >> ((56 - 8 * j) as u64)) & 0xffu64,
{
    let i = 8 * (3 - k) + j;
    lemma_index_split(k, j);
    assert(big_endian_bytes(a)[i] == big_endian_byte(a, i));
    assert(big_endian_bytes(b)[i] == big_endian_byte(b, i));
    assert(big_endian_bytes(a)[i] == big_endian_bytes(b)[i]);
    lemma_byte_of_u64_eq(a@[k], b@[k], (56 - 8 * j) as u64);
}

/// Index `8 * (3 - k) + j` lies in limb `3 - k` of the big-endian form, at byte `j` of that limb.
proof fn lemma_index_split(k: int, j: int)
    requires
        0 <= k < 4,
        0 <= j < 8,
    ensures
        (8 * (3 - k) + j) / 8 == 3 - k,
        (8 * (3 - k) + j) % 8 == j,
{
    assert((8 * (3 - k) + j) / 8 == 3 - k && (8 * (3 - k) + j) % 8 == j) by (nonlinear_arith)
        requires
            0 <= k < 4,
            0 <= j < 8,
    ;
}

/// A byte taken out of a word is equal as a byte only if it is equal as a masked word.
proof fn lemma_byte_of_u64_eq(x: u64, y: u64, s: u64)
    requires
        s < 64,
        ((x >> s) & 0xffu64) as u8 == ((y >> s) & 0xffu64) as u8,
    ensures
        (x >> s) & 0xffu64 == (y >> s) & 0xffu64,
{
    assert((x >> s) & 0xffu64 == (y >> s) & 0xffu64) by (bit_vector)
        requires
            ((x >> s) & 0xffu64) as u8 == ((y >> s) & 0xffu64) as u8,
    ;
}


/// The number that `bytes` spell, most significant byte first.
pub open spec fn big_endian_value(bytes: Seq<u8>) -> nat
    decreases bytes.len(),
{
    if bytes.len() == 0 {
        0
    } else {
        big_endian_value(bytes.drop_last()) * 256 + bytes.last() as nat
    }
}

/// 256 to the power `n`.
pub open spec fn pow256(n: nat) -> nat
    decreases n,
{
    if n == 0 {
        1
    } else {
        256 * pow256((n - 1) as nat)
    }
}

/// The number a 256-bit integer stands for.
pub open spec fn u256_value(x: U256) -> nat {
    x.0@[0] as nat + x.0@[1] as nat * 0x1_0000_0000_0000_0000 + x.0@[2] as nat
        * 0x1_0000_0000_0000_0000_0000_0000_0000_0000 + x.0@[3] as nat
        * 0x1_0000_0000_0000_0000_0000_0000_0000_0000_0000_0000_0000_0000
}

/// The eight bytes of a word, most significant first.
spec fn word_bytes(w: u64) -> Seq<u8> {
    Seq::new(8, |j: int| ((w >> ((56 - 8 * j) as u64)) & 0xffu64) as u8)
}

proof fn lemma_big_endian_value_append(a: Seq<u8>, b: Seq<u8>)
    ensures
        big_endian_value(a + b) == big_endian_value(a) * pow256(b.len()) + big_endian_value(b),
    decreases b.len(),
{
    if b.len() == 0 {
        assert(a + b =~= a);
        assert(pow256(0) == 1);
        assert(big_endian_value(b) == 0);
        assert(big_endian_value(a) * 1 == big_endian_value(a));
    } else {
        let b1 = b.drop_last();
        assert((a + b).drop_last() =~= a + b1);
        assert((a + b).last() == b.last());
        lemma_big_endian_value_append(a, b1);
        let va = big_endian_value(a);
        let vb1 = big_endian_value(b1);
        let p = pow256(b1.len());
        assert(pow256(b.len()) == 256 * p);
        assert(big_endian_value(b) == vb1 * 256 + b.last());
        assert(big_endian_value(a + b) == big_endian_value(a + b1) * 256 + b.last());
        assert((va * p + vb1) * 256 + b.last() == va * (256 * p) + (vb1 * 256 + b.last()))
            by (nonlinear_arith);
        assert(big_endian_value(a + b) == va * pow256(b.len()) + big_endian_value(b));
    }
}

proof fn lemma_word_bytes_value(w: u64)
    ensures
        big_endian_value(word_bytes(w)) == w,
{
    let s = word_bytes(w);
    reveal_with_fuel(big_endian_value, 9);
    assert(s.drop_last() =~= s.subrange(0, 7));
    assert(s.subrange(0, 7).drop_last() =~= s.subrange(0, 6));
    assert(s.subrange(0, 6).drop_last() =~= s.subrange(0, 5));
    assert(s.subrange(0, 5).drop_last() =~= s.subrange(0, 4));
    assert(s.subrange(0, 4).drop_last() =~= s.subrange(0, 3));
    assert(s.subrange(0, 3).drop_last() =~= s.subrange(0, 2));
    assert(s.subrange(0, 2).drop_last() =~= s.subrange(0, 1));
    assert(s.subrange(0, 1).drop_last() =~= s.subrange(0, 0));
    let b0 = (w >> 56u64) & 0xffu64;
    let b1 = (w >> 48u64) & 0xffu64;
    let b2 = (w >> 40u64) & 0xffu64;
    let b3 = (w >> 32u64) & 0xffu64;
    let b4 = (w >> 24u64) & 0xffu64;
    let b5 = (w >> 16u64) & 0xffu64;
    let b6 = (w >> 8u64) & 0xffu64;
    let b7 = (w >> 0u64) & 0xffu64;
    assert(b0 < 256 && b1 < 256 && b2 < 256 && b3 < 256 && b4 < 256 && b5 < 256 && b6 < 256 && b7
        < 256) by (bit_vector)
        requires
            b0 == (w >> 56u64) & 0xffu64,
            b1 == (w >> 48u64) & 0xffu64,
            b2 == (w >> 40u64) & 0xffu64,
            b3 == (w >> 32u64) & 0xffu64,
            b4 == (w >> 24u64) & 0xffu64,
            b5 == (w >> 16u64) & 0xffu64,
            b6 == (w >> 8u64) & 0xffu64,
            b7 == (w >> 0u64) & 0xffu64,
    ;
    assert(s[0] == b0 && s[1] == b1 && s[2] == b2 && s[3] == b3 && s[4] == b4 && s[5] == b5 && s[6]
        == b6 && s[7] == b7);
    assert(w == ((((((b0 * 256 + b1) * 256 + b2) * 256 + b3) * 256 + b4) * 256 + b5) * 256 + b6)
        * 256 + b7) by (bit_vector)
        requires
            b0 == (w >> 56u64) & 0xffu64,
            b1 == (w >> 48u64) & 0xffu64,
            b2 == (w >> 40u64) & 0xffu64,
            b3 == (w >> 32u64) & 0xffu64,
            b4 == (w >> 24u64) & 0xffu64,
            b5 == (w >> 16u64) & 0xffu64,
            b6 == (w >> 8u64) & 0xffu64,
            b7 == (w >> 0u64) & 0xffu64,
    ;
}

/// The 32 bytes of the big-endian form, read as a number most significant byte
/// first, are the token id's value.
pub proof fn law_big_endian_value(x: U256)
    ensures
        big_endian_value(big_endian_bytes(x.0)) == u256_value(x),
{
    let bytes = big_endian_bytes(x.0);
    let w3 = word_bytes(x.0@[3]);
    let w2 = word_bytes(x.0@[2]);
    let w1 = word_bytes(x.0@[1]);
    let w0 = word_bytes(x.0@[0]);
    assert forall|i: int| 0 <= i < 32 implies #[trigger] bytes[i] == (((w3 + w2) + w1) + w0)[i] by {
        let k = 3 - i / 8;
        let j = i % 8;
        assert(0 <= k < 4 && 0 <= j < 8 && i == 8 * (3 - k) + j);
        lemma_index_split(k, j);
        assert(bytes[i] == big_endian_byte(x.0, i));
    }
    assert(bytes =~= ((w3 + w2) + w1) + w0);
    lemma_word_bytes_value(x.0@[3]);
    lemma_word_bytes_value(x.0@[2]);
    lemma_word_bytes_value(x.0@[1]);
    lemma_word_bytes_value(x.0@[0]);
    lemma_big_endian_value_append(w3, w2);
    lemma_big_endian_value_append(w3 + w2, w1);
    lemma_big_endian_value_append((w3 + w2) + w1, w0);
    reveal_with_fuel(pow256, 9);
    assert(pow256(8) == 0x1_0000_0000_0000_0000);
}

} // verus!
