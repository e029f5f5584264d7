use vstd::prelude::*;

use parity_scale_codec::Encode;

use crate::types::{AccountId, EthAddress};

verus! {

/// What the 256-bit BLAKE2b hash of `data` is.
pub uninterp spec fn blake2_256_hash(data: Seq<u8>) -> Seq<u8>;

/// `sp_io::hashing::blake2_256`: the 32-byte BLAKE2b digest of `data`, a function of
/// `data` alone. Nothing more of the digest is claimed.
#[verifier::external_body]
fn blake2_256(data: &Vec<u8>) -> (digest: [u8; 32])
    ensures
        digest@ == blake2_256_hash(data@),
{
    sp_io::hashing::blake2_256(data.as_slice())
}

/// The two little-endian bytes of `v` (taken modulo 2^16).
pub open spec fn le_bytes2(v: nat) -> Seq<u8> {
    seq![(v % 256) as u8, ((v / 256) % 256) as u8]
}

/// The four little-endian bytes of `v` (taken modulo 2^32).
pub open spec fn le_bytes4(v: nat) -> Seq<u8> {
    seq![
        (v % 256) as u8,
        ((v / 256) % 256) as u8,
        ((v / 65536) % 256) as u8,
        ((v / 16777216) % 256) as u8,
    ]
}

/// SCALE compact encoding of a length `n < 2^32`: one, two or four bytes with the
/// mode in the two low bits, or a marker byte followed by four bytes.
pub open spec fn compact_u32_encoding(n: nat) -> Seq<u8> {
    if n < 64 {
        seq![(n * 4) as u8]
    } else if n < 16384 {
        le_bytes2(n * 4 + 1)
    } else if n < 1073741824 {
        le_bytes4(n * 4 + 2)
    } else {
        seq![3u8] + le_bytes4(n)
    }
}

/// `parity_scale_codec::Encode::encode` of the tuple `(prefix, (chain, depositer))`:
/// the fixed-size arrays are written byte for byte, the vector is prefixed by the
/// compact encoding of its length. The encoder panics on vectors longer than
/// `u32::MAX`, which `requires` leaves out.
#[verifier::external_body]
fn scale_encode_seed(prefix: &[u8; 15], chain: &Vec<u8>, depositer: &EthAddress) -> (encoded: Vec<
    u8,
>)
    requires
        chain@.len() <= u32::MAX,
    ensures
        encoded@ == prefix@ + compact_u32_encoding(chain@.len()) + chain@ + depositer@,
{
    (prefix, (chain, depositer)).encode()
}

/// The domain tag that every agent seed starts with.
pub open spec fn agent_seed_prefix() -> Seq<u8> {
    seq![45u8, 42, 45, 35, 102, 117, 115, 111, 116, 97, 111, 35, 45, 42, 45]
}

/// The bytes hashed to derive the agent account of `(chain, depositer)`.
pub open spec fn agent_seed(chain: Seq<u8>, depositer: Seq<u8>) -> Seq<u8> {
    agent_seed_prefix() + compact_u32_encoding(chain.len()) + chain + depositer
}

/// The first 32 bytes of `input`, padded with zeros where `input` is shorter.
pub open spec fn pad32(input: Seq<u8>) -> Seq<u8> {
    Seq::new(32, |i: int| if i < input.len() { input[i] } else { 0u8 })
}

/// The account that stands for the foreign origin `(chain, depositer)`: the
/// BLAKE2b-256 digest of its seed.
pub open spec fn agent_account(chain: Seq<u8>, depositer: Seq<u8>) -> Seq<u8> {
    blake2_256_hash(agent_seed(chain, depositer))
}

fn agent_seed_prefix_bytes() -> (prefix: [u8; 15])
    ensures
        prefix@ == agent_seed_prefix(),
{
    let prefix: [u8; 15] = [45, 42, 45, 35, 102, 117, 115, 111, 116, 97, 111, 35, 45, 42, 45];
    assert(prefix@ =~= agent_seed_prefix());
    prefix
}

/// Decodes a 32-byte account from `input` read as an endless stream: the bytes of
/// `input` followed by zeros.
pub fn decode_account_trailing_zero(input: &[u8]) -> (account: AccountId)
    ensures
        account@ == pad32(input@),
{
    let mut account: [u8; 32] = [0u8; 32];
    let mut i: usize = 0;
    while i < 32
        invariant
            i <= 32,
            forall|j: int| 0 <= j < i ==> account@[j] == pad32(input@)[j],
            forall|j: int| i <= j < 32 ==> account@[j] == 0u8,
        decreases 32 - i,
    {
        if i < input.len() {
            account[i] = input[i];
        }
        i = i + 1;
    }
    assert(account@ =~= pad32(input@));
    account
}

/// The agent account of a foreign origin: its seed is hashed, and the account is
/// decoded from the 32-byte digest, which it equals.
pub fn agent_account_of(chain: &Vec<u8>, depositer: &EthAddress) -> (account: AccountId)
    requires
        chain@.len() <= u32::MAX,
    ensures
        account@ == agent_account(chain@, depositer@),
{
    let prefix = agent_seed_prefix_bytes();
    let seed = scale_encode_seed(&prefix, chain, depositer);
    let digest = blake2_256(&seed);
    let account = decode_account_trailing_zero(digest.as_slice());
    assert(pad32(digest@) =~= digest@);
    account
}


/// How many bytes a compact-encoded length takes, read from the mode bits of its
/// first byte.
pub open spec fn compact_prefix_len(first: u8) -> nat {
    let mode = first % 4;
    if mode == 0 {
        1
    } else if mode == 1 {
        2
    } else if mode == 2 {
        4
    } else {
        5
    }
}

/// The length that the compact encoding at the front of `s` stands for.
pub open spec fn compact_u32_decode(s: Seq<u8>) -> nat {
    let mode = s[0] % 4;
    if mode == 0 {
        (s[0] / 4) as nat
    } else if mode == 1 {
        ((s[0] + 256 * s[1]) / 4) as nat
    } else if mode == 2 {
        ((s[0] + 256 * s[1] + 65536 * s[2] + 16777216 * s[3]) / 4) as nat
    } else {
        (s[1] + 256 * s[2] + 65536 * s[3] + 16777216 * s[4]) as nat
    }
}

/// A compact-encoded length can be read back from the front of any sequence it
/// starts, together with how many bytes it took.
pub proof fn lemma_compact_u32_read_back(n: nat, rest: Seq<u8>)
    requires
        n <= u32::MAX,
    ensures
        compact_u32_encoding(n).len() == compact_prefix_len((compact_u32_encoding(n) + rest)[0]),
        compact_u32_decode(compact_u32_encoding(n) + rest) == n,
{
    let e = compact_u32_encoding(n);
    let s = e + rest;
    if n < 64 {
        assert(s[0] == (n * 4) as u8);
        assert((n * 4) as u8 == n * 4);
    } else if n < 16384 {
        let v: u32 = (n * 4 + 1) as u32;
        assert(v == n * 4 + 1);
        assert(v % 256 % 4 == 1 && v % 256 + 256 * ((v / 256) % 256) == v) by (bit_vector)
            requires
                v < 65536,
                v % 4 == 1,
        ;
        assert(s[0] == (v % 256) as u8);
        assert(s[1] == ((v / 256) % 256) as u8);
    } else if n < 1073741824 {
        let v: u32 = (n * 4 + 2) as u32;
        assert(v == n * 4 + 2);
        assert(v % 256 % 4 == 2 && v % 256 + 256 * ((v / 256) % 256) + 65536 * ((v / 65536) % 256)
            + 16777216 * ((v / 16777216) % 256) == v) by (bit_vector)
            requires
                v % 4 == 2,
        ;
        assert(s[0] == (v % 256) as u8);
        assert(s[1] == ((v / 256) % 256) as u8);
        assert(s[2] == ((v / 65536) % 256) as u8);
        assert(s[3] == ((v / 16777216) % 256) as u8);
    } else {
        let v: u32 = n as u32;
        assert(v == n);
        assert(v % 256 + 256 * ((v / 256) % 256) + 65536 * ((v / 65536) % 256) + 16777216 * ((v
            / 16777216) % 256) == v) by (bit_vector);
        assert(s[0] == 3u8);
        assert(s[1] == (v % 256) as u8);
        assert(s[2] == ((v / 256) % 256) as u8);
        assert(s[3] == ((v / 65536) % 256) as u8);
        assert(s[4] == ((v / 16777216) % 256) as u8);
    }
}

/// Equal agent seeds come from equal foreign origins: the compact length prefix
/// tells where the chain tag ends and the depositer begins.
pub proof fn lemma_agent_seed_injective(c1: Seq<u8>, d1: Seq<u8>, c2: Seq<u8>, d2: Seq<u8>)
    requires
        c1.len() <= u32::MAX,
        c2.len() <= u32::MAX,
        d1.len() == 20,
        d2.len() == 20,
        agent_seed(c1, d1) == agent_seed(c2, d2),
    ensures
        c1 == c2,
        d1 == d2,
{
    let e1 = compact_u32_encoding(c1.len());
    let e2 = compact_u32_encoding(c2.len());
    let t1 = e1 + (c1 + d1);
    let t2 = e2 + (c2 + d2);
    let seed = agent_seed(c1, d1);
    assert(seed =~= agent_seed_prefix() + t1);
    assert(agent_seed(c2, d2) =~= agent_seed_prefix() + t2);
    assert(t1 =~= seed.subrange(15, seed.len() as int));
    assert(t2 =~= seed.subrange(15, seed.len() as int));
    lemma_compact_u32_read_back(c1.len(), c1 + d1);
    lemma_compact_u32_read_back(c2.len(), c2 + d2);
    assert(c1.len() == c2.len());
    let l = e1.len() as int;
    let n = c1.len() as int;
    assert(c1 =~= t1.subrange(l, l + n));
    assert(c2 =~= t2.subrange(l, l + n));
    assert(d1 =~= t1.subrange(l + n, l + n + 20));
    assert(d2 =~= t2.subrange(l + n, l + n + 20));
}

} // verus!
