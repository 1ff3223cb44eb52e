//! Content digests: the 64-bit FNV-1a hash of a file's bytes.
//!
//! A digest is computed either in one call, by [`digest`], or piece by
//! piece, by a [`Hasher`] that is fed the chunks of a file as they are read.
//! Both give the digest of the whole content.

use vstd::bytes::*;
use vstd::prelude::*;

verus! {

/// The state of the hash before any byte is absorbed.
pub const OFFSET_BASIS: u64 = 0xcbf2_9ce4_8422_2325;

/// The multiplier of the hash.
pub const PRIME: u64 = 0x0000_0100_0000_01b3;

/// The inverse of [`PRIME`] modulo 2^64.
pub const PRIME_INVERSE: u64 = 0xce96_5057_aff6_957b;

/// The number of bytes of a digest.
pub const DIGEST_LEN: usize = 8;

/// The state after `byte` is absorbed into `state`.
pub open spec fn absorb(state: u64, byte: u8) -> u64 {
    (state ^ (byte as u64)).wrapping_mul(PRIME)
}

/// The state after all of `bytes` are absorbed into `state`, first to last.
pub open spec fn absorb_all(state: u64, bytes: Seq<u8>) -> u64
    decreases bytes.len(),
{
    if bytes.len() == 0 {
        state
    } else {
        absorb(absorb_all(state, bytes.drop_last()), bytes.last())
    }
}

/// The hash of a whole content.
pub open spec fn content_hash(bytes: Seq<u8>) -> u64 {
    absorb_all(OFFSET_BASIS, bytes)
}

/// The digest of a file's content: the cache's key.
#[derive(Debug, Clone, Copy, PartialEq, Eq, Structural, Hash)]
pub struct ContentDigest {
    value: u64,
}

impl View for ContentDigest {
    type V = Seq<u8>;

    /// The bytes of the digest, least significant first.
    closed spec fn view(&self) -> Seq<u8> {
        spec_u64_to_le_bytes(self.value)
    }
}

impl ContentDigest {
    /// The hash that the digest holds.
    pub closed spec fn value(self) -> u64 {
        self.value
    }

    /// The digest that holds the hash `value`.
    pub closed spec fn of_value(value: u64) -> ContentDigest {
        ContentDigest { value }
    }

    /// The digest of a content.
    pub open spec fn of_content(bytes: Seq<u8>) -> ContentDigest {
        ContentDigest::of_value(content_hash(bytes))
    }

    /// A digest holds the hash that it was made of.
    pub proof fn lemma_value_of_value(value: u64)
        ensures
            ContentDigest::of_value(value).value() == value,
    {
    }

    /// The bytes of the digest: the eight bytes of its hash, least
    /// significant first.
    pub fn to_bytes(&self) -> (bytes: Vec<u8>)
        ensures
            bytes@ == self@,
            bytes@ == spec_u64_to_le_bytes(self.value()),
            bytes@.len() == DIGEST_LEN,
    {
        proof {
            lemma_auto_spec_u64_to_from_le_bytes();
        }
        u64_to_le_bytes(self.value)
    }

    /// Reads back what [`ContentDigest::to_bytes`] wrote; `None` unless
    /// `bytes` has the length of a digest.
    pub fn from_bytes(bytes: &[u8]) -> (digest: Option<ContentDigest>)
        ensures
            digest == if bytes@.len() == DIGEST_LEN {
                Some(ContentDigest::of_value(spec_u64_from_le_bytes(bytes@)))
            } else {
                None
            },
            digest matches Some(d) ==> d@ == bytes@,
    {
        if bytes.len() == DIGEST_LEN {
            proof {
                lemma_auto_spec_u64_to_from_le_bytes();
            }
            Some(ContentDigest { value: u64_from_le_bytes(bytes) })
        } else {
            None
        }
    }
}

/// Computes a digest from the chunks of a content, in the order in which
/// they are fed.
#[derive(Debug)]
pub struct Hasher {
    state: u64,
}

impl Hasher {
    /// The hash of what has been fed so far.
    pub closed spec fn state(self) -> u64 {
        self.state
    }

    /// A hasher that has been fed nothing.
    pub fn new() -> (hasher: Hasher)
        ensures
            hasher.state() == OFFSET_BASIS,
    {
        Hasher { state: OFFSET_BASIS }
    }

    /// Feeds the next chunk.
    pub fn update(&mut self, chunk: &[u8])
        ensures
            final(self).state() == absorb_all(old(self).state(), chunk@),
    {
        let mut state = self.state;
        let mut i: usize = 0;
        while i < chunk.len()
            invariant
                i <= chunk@.len(),
                state == absorb_all(old(self).state(), chunk@.take(i as int)),
            decreases chunk.len() - i,
        {
            assert(chunk@.take(i + 1).drop_last() == chunk@.take(i as int));
            state = (state ^ (chunk[i] as u64)).wrapping_mul(PRIME);
            i += 1;
        }
        assert(chunk@.take(i as int) == chunk@);
        self.state = state;
    }

    /// The digest of what has been fed.
    pub fn finish(&self) -> (digest: ContentDigest)
        ensures
            digest == ContentDigest::of_value(self.state()),
    {
        ContentDigest { value: self.state }
    }
}

/// The digest of `bytes`.
pub fn digest(bytes: &[u8]) -> (digest: ContentDigest)
    ensures
        digest == ContentDigest::of_content(bytes@),
{
    let mut hasher = Hasher::new();
    hasher.update(bytes);
    hasher.finish()
}

/// Feeding a content in two chunks gives the state that feeding it whole
/// gives.
pub proof fn lemma_absorb_all_concat(state: u64, head: Seq<u8>, tail: Seq<u8>)
    ensures
        absorb_all(absorb_all(state, head), tail) == absorb_all(state, head + tail),
    decreases tail.len(),
{
    if tail.len() == 0 {
        assert(head + tail == head);
    } else {
        lemma_absorb_all_concat(state, head, tail.drop_last());
        assert((head + tail).drop_last() == head + tail.drop_last());
    }
}

/// Equal contents have equal digests.
pub proof fn lemma_digest_deterministic(first: Seq<u8>, second: Seq<u8>)
    requires
        first == second,
    ensures
        ContentDigest::of_content(first) == ContentDigest::of_content(second),
{
}

/// Multiplying by [`PRIME_INVERSE`] undoes multiplying by [`PRIME`].
proof fn lemma_unmultiply(x: u64)
    ensures
        x.wrapping_mul(PRIME).wrapping_mul(PRIME_INVERSE) == x,
{
    assert(x.wrapping_mul(PRIME).wrapping_mul(PRIME_INVERSE) == x) by (bit_vector);
}

/// A step of the hash loses nothing: the state and the byte that went in
/// can each be told from what came out and the other.
pub proof fn lemma_absorb_injective(s1: u64, b1: u8, s2: u64, b2: u8)
    requires
        absorb(s1, b1) == absorb(s2, b2),
    ensures
        s1 == s2 <==> b1 == b2,
{
    let x1 = s1 ^ (b1 as u64);
    let x2 = s2 ^ (b2 as u64);
    lemma_unmultiply(x1);
    lemma_unmultiply(x2);
    assert(x1 == x2);
    assert(s1 ^ (b1 as u64) == s2 ^ (b2 as u64) ==> (s1 == s2 <==> b1 == b2)) by (bit_vector);
}

/// Absorbing one content into two different states gives two different
/// states.
pub proof fn lemma_absorb_all_keeps_apart(s1: u64, s2: u64, bytes: Seq<u8>)
    requires
        s1 != s2,
    ensures
        absorb_all(s1, bytes) != absorb_all(s2, bytes),
    decreases bytes.len(),
{
    if bytes.len() > 0 {
        lemma_absorb_all_keeps_apart(s1, s2, bytes.drop_last());
        if absorb_all(s1, bytes) == absorb_all(s2, bytes) {
            lemma_absorb_injective(
                absorb_all(s1, bytes.drop_last()),
                bytes.last(),
                absorb_all(s2, bytes.drop_last()),
                bytes.last(),
            );
        }
    }
}

/// Two contents of one length that differ in exactly one byte have
/// different digests.
pub proof fn lemma_single_byte_change(first: Seq<u8>, second: Seq<u8>, at: int)
    requires
        first.len() == second.len(),
        0 <= at < first.len(),
        first[at] != second[at],
        forall|i: int| 0 <= i < first.len() && i != at ==> first[i] == second[i],
    ensures
        ContentDigest::of_content(first) != ContentDigest::of_content(second),
{
    let head = first.take(at);
    let tail = first.skip(at + 1);
    assert(second.take(at) == head);
    assert(second.skip(at + 1) == tail);
    let before = absorb_all(OFFSET_BASIS, head);
    let s1 = absorb(before, first[at]);
    let s2 = absorb(before, second[at]);
    if s1 == s2 {
        lemma_absorb_injective(before, first[at], before, second[at]);
    }
    assert(first.take(at + 1).drop_last() == head);
    assert(second.take(at + 1).drop_last() == head);
    assert(absorb_all(OFFSET_BASIS, first.take(at + 1)) == s1);
    assert(absorb_all(OFFSET_BASIS, second.take(at + 1)) == s2);
    lemma_absorb_all_keeps_apart(s1, s2, tail);
    lemma_absorb_all_concat(OFFSET_BASIS, first.take(at + 1), tail);
    lemma_absorb_all_concat(OFFSET_BASIS, second.take(at + 1), tail);
    assert(first.take(at + 1) + tail == first);
    assert(second.take(at + 1) + tail == second);
    ContentDigest::lemma_value_of_value(content_hash(first));
    ContentDigest::lemma_value_of_value(content_hash(second));
}

} // verus!
