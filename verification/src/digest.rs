//! Digesting the bytes a stream delivered: a SHA3-256 accumulator that
//! absorbs chunks in order, and a hex rendering of the resulting digest.

use vstd::prelude::*;

use sha3::Digest;

verus! {

/// The SHA3-256 digest of a byte sequence. The algorithm itself is an opaque
/// external primitive: nothing is assumed of the digest's value beyond its
/// length and that it depends on the input bytes alone.
pub uninterp spec fn sha3_256_of(data: Seq<u8>) -> Seq<u8>;

/// Relies on sha3::Sha3_256 through the Digest trait: the 32-byte SHA3-256
/// digest of the input, a function of the input bytes alone.
#[verifier::external_body]
fn sha3_256(data: &Vec<u8>) -> (r: Vec<u8>)
    ensures
        r@ == sha3_256_of(data@),
        r@.len() == 32,
{
    let mut hasher = sha3::Sha3_256::new();
    hasher.update(data.as_slice());
    hasher.finalize().to_vec()
}

/// Consumes successive byte chunks, order-sensitive and without backtracking,
/// and finally yields the SHA3-256 digest of everything absorbed.
pub struct DigestAccumulator {
    fed: Vec<u8>,
}

impl DigestAccumulator {
    /// All bytes absorbed so far, in the order they were fed.
    pub closed spec fn absorbed(&self) -> Seq<u8> {
        self.fed@
    }

    /// A fresh accumulator that has absorbed nothing.
    pub fn new() -> (a: Self)
        ensures
            a.absorbed() == Seq::<u8>::empty(),
    {
        DigestAccumulator { fed: Vec::new() }
    }

    /// Absorb the first `n` bytes of `chunk`, appending them to what was
    /// absorbed before.
    pub fn update(&mut self, chunk: &Vec<u8>, n: usize)
        requires
            n <= chunk@.len(),
        ensures
            final(self).absorbed() == old(self).absorbed() + chunk@.take(n as int),
    {
        let part = vstd::slice::slice_subrange(chunk.as_slice(), 0, n);
        self.fed.extend_from_slice(part);
        proof {
            assert(self.fed@ =~= old(self).fed@ + chunk@.take(n as int));
        }
    }

    /// Finish: the digest of everything absorbed, in order.
    pub fn finalize(self) -> (d: Vec<u8>)
        ensures
            d@ == sha3_256_of(self.absorbed()),
            d@.len() == 32,
    {
        sha3_256(&self.fed)
    }
}

/// The two lowercase hex digits of each byte, most significant first.
pub open spec fn hex_of(data: Seq<u8>) -> Seq<u8> {
    Seq::new(
        2 * data.len(),
        |i: int|
            if i % 2 == 0 {
                hex_digit((data[i / 2] / 16) as u8)
            } else {
                hex_digit((data[i / 2] % 16) as u8)
            },
    )
}

/// The ASCII code of the lowercase hex digit for a value below 16.
pub open spec fn hex_digit(n: u8) -> u8
    recommends
        n < 16,
{
    if n < 10 {
        (0x30 + n) as u8
    } else {
        (0x57 + n) as u8
    }
}

/// Render bytes as lowercase hex, two ASCII digits per byte.
pub fn hex_bytes(data: &Vec<u8>) -> (r: Vec<u8>)
    ensures
        r@ == hex_of(data@),
{
    let mut r: Vec<u8> = Vec::new();
    let mut i: usize = 0;
    while i < data.len()
        invariant
            i <= data@.len(),
            r@ == hex_of(data@.take(i as int)),
        decreases data@.len() - i,
    {
        let b = data[i];
        let hi = b / 16;
        let lo = b % 16;
        r.push(if hi < 10 {
            0x30 + hi
        } else {
            0x57 + hi
        });
        r.push(if lo < 10 {
            0x30 + lo
        } else {
            0x57 + lo
        });
        i = i + 1;
        proof {
            assert(r@ =~= hex_of(data@.take(i as int)));
        }
    }
    proof {
        assert(data@.take(data@.len() as int) =~= data@);
    }
    r
}

} // verus!
