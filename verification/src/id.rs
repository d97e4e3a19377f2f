//! The two identities of a subscription.
//!
//! Both are 256-bit values. Each is held as two 128-bit words, the high one
//! first, so that comparing the pairs of words compares the values.
use crate::bijection::Words;
use crate::keccak::{keccak256, keccak256_digest};
use vstd::prelude::*;

verus! {

/// The stable identity of a subscription on the client's side: the Keccak-256
/// digest of the parameters of the request that asked for it.
#[derive(Clone, Copy, Debug, PartialEq, Eq, Structural, Hash)]
pub struct LocalId {
    /// The first 16 bytes of the digest, as a big-endian number.
    pub hi: u128,
    /// The last 16 bytes of the digest, as a big-endian number.
    pub lo: u128,
}

/// The identity that the server gave a subscription. It holds for one
/// connection only.
#[derive(Clone, Copy, Debug, PartialEq, Eq, Structural, Hash)]
pub struct ServerId {
    /// The upper 128 bits.
    pub hi: u128,
    /// The lower 128 bits.
    pub lo: u128,
}

/// The number that `bytes` spell in base 256, the first byte weighing most.
pub open spec fn be_value(bytes: Seq<u8>) -> nat
    decreases bytes.len(),
{
    if bytes.len() == 0 {
        0
    } else {
        be_value(bytes.drop_last()) * 256 + bytes.last() as nat
    }
}

/// 256 to the power of `n`.
pub open spec fn pow256(n: nat) -> nat
    decreases n,
{
    if n == 0 {
        1
    } else {
        256 * pow256((n - 1) as nat)
    }
}

/// The number that some bytes spell is below 256 to the power of their count.
pub proof fn lemma_be_value_bound(bytes: Seq<u8>)
    ensures
        be_value(bytes) < pow256(bytes.len()),
    decreases bytes.len(),
{
    if bytes.len() > 0 {
        lemma_be_value_bound(bytes.drop_last());
    }
}

/// Different bytes spell different numbers: two runs of bytes of one length
/// that spell the same number are the same.
pub proof fn lemma_be_value_injective(a: Seq<u8>, b: Seq<u8>)
    requires
        a.len() == b.len(),
        be_value(a) == be_value(b),
    ensures
        a == b,
    decreases a.len(),
{
    if a.len() > 0 {
        assert(be_value(a.drop_last()) == be_value(b.drop_last()) && a.last() == b.last())
            by (nonlinear_arith)
            requires
                be_value(a.drop_last()) * 256 + a.last() == be_value(b.drop_last()) * 256 + b.last(),
                0 <= a.last() < 256,
                0 <= b.last() < 256,
        ;
        lemma_be_value_injective(a.drop_last(), b.drop_last());
        assert(a =~= a.drop_last().push(a.last()));
        assert(b =~= b.drop_last().push(b.last()));
    } else {
        assert(a =~= b);
    }
}

/// Sixteen bytes spell a number that fits in 128 bits.
pub proof fn lemma_pow256_16()
    ensures
        pow256(16) == u128::MAX + 1,
{
    reveal_with_fuel(pow256, 17);
}

/// The identity whose 32 bytes, high byte first, are `bytes`.
pub open spec fn local_id_from_bytes(bytes: Seq<u8>) -> LocalId
    recommends
        bytes.len() == 32,
{
    LocalId { hi: be_value(bytes.subrange(0, 16)) as u128, lo: be_value(bytes.subrange(16, 32)) as u128 }
}

/// Two digests that stand for the same local identity are the same digest.
pub proof fn lemma_local_id_from_bytes_injective(a: Seq<u8>, b: Seq<u8>)
    requires
        a.len() == 32,
        b.len() == 32,
        local_id_from_bytes(a) == local_id_from_bytes(b),
    ensures
        a == b,
{
    lemma_pow256_16();
    lemma_be_value_bound(a.subrange(0, 16));
    lemma_be_value_bound(a.subrange(16, 32));
    lemma_be_value_bound(b.subrange(0, 16));
    lemma_be_value_bound(b.subrange(16, 32));
    lemma_be_value_injective(a.subrange(0, 16), b.subrange(0, 16));
    lemma_be_value_injective(a.subrange(16, 32), b.subrange(16, 32));
    assert(a =~= a.subrange(0, 16) + a.subrange(16, 32));
    assert(b =~= b.subrange(0, 16) + b.subrange(16, 32));
}

/// The local identity of a request with these parameters.
pub open spec fn local_id_of(params: Seq<u8>) -> LocalId {
    local_id_from_bytes(keccak256(params))
}

/// Reads the 16 bytes of `bytes` from `start` on as a big-endian number.
fn read_word(bytes: &[u8; 32], start: usize) -> (word: u128)
    requires
        start == 0 || start == 16,
    ensures
        word == be_value(bytes@.subrange(start as int, start + 16)),
{
    let mut word: u128 = 0;
    let mut n: usize = 0;
    while n < 16
        invariant
            n <= 16,
            start == 0 || start == 16,
            word == be_value(bytes@.subrange(start as int, start + n)),
        decreases 16 - n,
    {
        proof {
            let before = bytes@.subrange(start as int, start + n);
            let after = bytes@.subrange(start as int, start + n + 1);
            assert(after.drop_last() == before);
            lemma_be_value_bound(before);
            lemma_pow256_16();
            lemma_pow256_grows(n as nat, 15);
            assert(pow256(16) == 256 * pow256(15));
        }
        word = word * 256 + bytes[start + n] as u128;
        n += 1;
    }
    word
}

/// A byte in front of some bytes weighs 256 to the power of their count.
pub proof fn lemma_be_value_push_front(byte: u8, bytes: Seq<u8>)
    ensures
        be_value(seq![byte] + bytes) == byte * pow256(bytes.len()) + be_value(bytes),
    decreases bytes.len(),
{
    let all = seq![byte] + bytes;
    assert(be_value(all) == be_value(all.drop_last()) * 256 + all.last());
    if bytes.len() == 0 {
        assert(all.drop_last() =~= Seq::<u8>::empty());
        assert(be_value(all.drop_last()) == 0);
        assert(pow256(0) == 1);
        assert(be_value(bytes) == 0);
    } else {
        let front = bytes.drop_last();
        assert(all.drop_last() =~= seq![byte] + front);
        assert(all.last() == bytes.last());
        lemma_be_value_push_front(byte, front);
        let weight = pow256(front.len());
        assert(pow256(bytes.len()) == 256 * weight);
        assert((byte * weight + be_value(front)) * 256 == byte * (256 * weight) + be_value(front) * 256)
            by (nonlinear_arith);
    }
}

/// Writes `word` into the 16 bytes of `bytes` from `start` on, as a
/// big-endian number.
fn write_word(bytes: &mut [u8; 32], start: usize, word: u128)
    requires
        start == 0 || start == 16,
    ensures
        be_value(final(bytes)@.subrange(start as int, start + 16)) == word,
        forall|k: int| 0 <= k < 32 && !(start <= k < start + 16) ==> final(bytes)@[k] == old(bytes)@[k],
{
    let mut rest: u128 = word;
    let mut n: usize = 16;
    proof {
        lemma_pow256_16();
        let none = bytes@.subrange(start + 16, start + 16);
        assert(none =~= Seq::<u8>::empty());
        assert(be_value(none) == 0);
        assert(pow256(0) == 1);
        assert(rest * pow256(0) == rest) by (nonlinear_arith)
            requires
                pow256(0) == 1,
        ;
    }
    while n > 0
        invariant
            n <= 16,
            start == 0 || start == 16,
            rest < pow256(n as nat),
            rest * pow256((16 - n) as nat) + be_value(bytes@.subrange(start + n, start + 16)) == word,
            forall|k: int| 0 <= k < 32 && !(start <= k < start + 16) ==> bytes@[k] == old(bytes)@[k],
        decreases n,
    {
        let ghost before = bytes@.subrange(start + n, start + 16);
        let ghost weight = pow256((16 - n) as nat);
        let byte = (rest % 256) as u8;
        let quotient = rest / 256;
        n -= 1;
        bytes[start + n] = byte;
        proof {
            assert(bytes@.subrange(start + n, start + 16) =~= seq![byte] + before);
            lemma_be_value_push_front(byte, before);
            assert(pow256((16 - n) as nat) == 256 * weight);
            assert(quotient * (256 * weight) + byte * weight == rest * weight) by (nonlinear_arith)
                requires
                    quotient * 256 + byte == rest,
            ;
            assert(pow256((n + 1) as nat) == 256 * pow256(n as nat));
        }
        rest = quotient;
    }
}

/// 256 to a power does not shrink as the power grows.
pub proof fn lemma_pow256_grows(m: nat, n: nat)
    requires
        m <= n,
    ensures
        pow256(m) <= pow256(n),
    decreases n,
{
    if m < n {
        lemma_pow256_grows(m, (n - 1) as nat);
    }
}

impl LocalId {
    /// The pair of words under which maps hold this identity.
    pub open spec fn words(self) -> Words {
        (self.hi, self.lo)
    }

    /// The identity that maps hold under `words`.
    pub open spec fn at(words: Words) -> LocalId {
        LocalId { hi: words.0, lo: words.1 }
    }

    /// The pair of words under which maps hold this identity.
    pub fn to_words(self) -> (words: Words)
        ensures
            words == self.words(),
    {
        (self.hi, self.lo)
    }

    /// The identity that maps hold under `words`.
    pub fn from_words(words: Words) -> (id: Self)
        ensures
            id == Self::at(words),
    {
        LocalId { hi: words.0, lo: words.1 }
    }

    /// Whether this identity comes before `other` when identities are put
    /// in order: the one that is the smaller number, its bytes read high
    /// byte first.
    pub open spec fn precedes(self, other: LocalId) -> bool {
        self.hi < other.hi || (self.hi == other.hi && self.lo < other.lo)
    }

    /// The identity whose 32 bytes, high byte first, are `bytes`.
    pub fn from_bytes(bytes: &[u8; 32]) -> (id: Self)
        ensures
            id == local_id_from_bytes(bytes@),
    {
        LocalId { hi: read_word(bytes, 0), lo: read_word(bytes, 16) }
    }

    /// The 32 bytes of this identity, high byte first.
    pub fn to_bytes(self) -> (bytes: [u8; 32])
        ensures
            local_id_from_bytes(bytes@) == self,
    {
        let mut bytes = [0u8; 32];
        write_word(&mut bytes, 0, self.hi);
        let ghost high = bytes@.subrange(0, 16);
        write_word(&mut bytes, 16, self.lo);
        proof {
            assert(bytes@.subrange(0, 16) =~= high);
        }
        bytes
    }

    /// The local identity of a request with these parameters: their
    /// Keccak-256 digest.
    pub fn of_params(params: &[u8]) -> (id: Self)
        ensures
            id == local_id_of(params@),
    {
        let digest = keccak256_digest(params);
        LocalId::from_bytes(&digest)
    }
}

/// The server identity that is the number which `bytes` spell, high byte
/// first.
pub open spec fn server_id_from_bytes(bytes: Seq<u8>) -> ServerId
    recommends
        bytes.len() == 32,
{
    ServerId { hi: be_value(bytes.subrange(0, 16)) as u128, lo: be_value(bytes.subrange(16, 32)) as u128 }
}

impl ServerId {
    /// The pair of words under which maps hold this identity.
    pub open spec fn words(self) -> Words {
        (self.hi, self.lo)
    }

    /// The identity that maps hold under `words`.
    pub open spec fn at(words: Words) -> ServerId {
        ServerId { hi: words.0, lo: words.1 }
    }

    /// The identity that is the number which `bytes` spell, high byte first.
    pub fn from_bytes(bytes: &[u8; 32]) -> (id: Self)
        ensures
            id == server_id_from_bytes(bytes@),
    {
        ServerId { hi: read_word(bytes, 0), lo: read_word(bytes, 16) }
    }

    /// This identity as a number of 32 bytes, high byte first.
    pub fn to_bytes(self) -> (bytes: [u8; 32])
        ensures
            server_id_from_bytes(bytes@) == self,
    {
        let mut bytes = [0u8; 32];
        write_word(&mut bytes, 0, self.hi);
        let ghost high = bytes@.subrange(0, 16);
        write_word(&mut bytes, 16, self.lo);
        proof {
            assert(bytes@.subrange(0, 16) =~= high);
        }
        bytes
    }

    /// The pair of words under which maps hold this identity.
    pub fn to_words(self) -> (words: Words)
        ensures
            words == self.words(),
    {
        (self.hi, self.lo)
    }

    /// The identity that maps hold under `words`.
    pub fn from_words(words: Words) -> (id: Self)
        ensures
            id == Self::at(words),
    {
        ServerId { hi: words.0, lo: words.1 }
    }
}

} // verus!
