//! The membership predicate: instances, and the proof-of-work style
//! digest-threshold predicate shipped with the library.

use vstd::prelude::*;
use sha2::Digest;

verus! {

/// A problem instance: a deterministic membership predicate over candidate
/// values. `accepts` is the mathematical predicate; `evaluate` decides it.
/// Because `evaluate` must return exactly `accepts(candidate)`, a function of
/// the instance and the candidate alone, two calls on the same arguments
/// always return the same result, and evaluation is safe to run concurrently.
pub trait Instance {
    /// The mathematical membership predicate this instance defines.
    spec fn accepts(&self, candidate: u64) -> bool;

    /// Decides whether `candidate` solves this instance.
    fn evaluate(&self, candidate: u64) -> (r: bool)
        ensures
            r == self.accepts(candidate),
    ;
}

/// A proof-of-work style problem: a candidate solves the puzzle when the
/// first two bytes of the SHA-256 digest of the payload followed by the
/// candidate's big-endian encoding, read as a big-endian word, fall below the
/// difficulty threshold (truncated to 16 bits). The instance never mutates,
/// so it may be shared or copied freely across workers.
#[derive(Clone, Debug)]
pub struct Puzzle {
    /// Difficulty threshold: lower values make solutions rarer.
    pub difficulty: u64,
    /// Opaque payload whose digest, combined with a candidate, must fall
    /// below the threshold.
    pub data: Vec<u8>,
}

/// The big-endian byte of `n` selected by the place value `p`.
pub open spec fn be_byte(n: u64, p: u64) -> u8 {
    (((n as int) / (p as int)) % 256) as u8
}

/// The eight bytes of `n` in big-endian order.
pub open spec fn spec_u64_be_bytes(n: u64) -> Seq<u8> {
    seq![
        be_byte(n, 0x100000000000000),
        be_byte(n, 0x1000000000000),
        be_byte(n, 0x10000000000),
        be_byte(n, 0x100000000),
        be_byte(n, 0x1000000),
        be_byte(n, 0x10000),
        be_byte(n, 0x100),
        be_byte(n, 1),
    ]
}

/// The exact byte string hashed for a candidate: the payload followed by the
/// candidate's big-endian encoding.
pub open spec fn spec_message(data: Seq<u8>, candidate: u64) -> Seq<u8> {
    data + spec_u64_be_bytes(candidate)
}

/// The SHA-256 digest of a byte string, named but left unspecified: the
/// library relies only on the digest being a function of its input.
pub uninterp spec fn sha256_of(input: Seq<u8>) -> Seq<u8>;

/// The word a digest is judged by: its first two bytes read big-endian.
pub open spec fn spec_digest_word(digest: Seq<u8>) -> int {
    (digest[0] as int) * 256 + (digest[1] as int)
}

/// The threshold a digest word is compared against: the difficulty truncated
/// to 16 bits.
pub open spec fn spec_threshold(difficulty: u64) -> int {
    (difficulty as u16) as int
}

/// Whether a digest beats the difficulty.
pub open spec fn digest_meets(digest: Seq<u8>, difficulty: u64) -> bool {
    spec_digest_word(digest) < spec_threshold(difficulty)
}

/// Whether `candidate` solves the puzzle.
pub open spec fn puzzle_accepts(p: Puzzle, candidate: u64) -> bool {
    digest_meets(sha256_of(spec_message(p.data@, candidate)), p.difficulty)
}

/// Encodes `n` as eight big-endian bytes.
pub fn u64_be_bytes(n: u64) -> (r: Vec<u8>)
    ensures
        r@ == spec_u64_be_bytes(n),
{
    let mut out: Vec<u8> = Vec::new();
    out.push(((n / 0x100000000000000) % 256) as u8);
    out.push(((n / 0x1000000000000) % 256) as u8);
    out.push(((n / 0x10000000000) % 256) as u8);
    out.push(((n / 0x100000000) % 256) as u8);
    out.push(((n / 0x1000000) % 256) as u8);
    out.push(((n / 0x10000) % 256) as u8);
    out.push(((n / 0x100) % 256) as u8);
    out.push((n % 256) as u8);
    proof {
        assert(out@ =~= spec_u64_be_bytes(n));
    }
    out
}

/// Builds the byte string hashed for a candidate: the payload followed by
/// the candidate's big-endian encoding.
pub fn message_bytes(data: &Vec<u8>, candidate: u64) -> (r: Vec<u8>)
    ensures
        r@ == spec_message(data@, candidate),
{
    let mut out: Vec<u8> = Vec::new();
    let mut i: usize = 0;
    while i < data.len()
        invariant
            i <= data@.len(),
            out@ == data@.take(i as int),
        decreases data@.len() - i,
    {
        out.push(data[i]);
        proof {
            assert(out@ =~= data@.take(i as int + 1));
        }
        i = i + 1;
    }
    proof {
        assert(data@.take(data@.len() as int) =~= data@);
    }
    let tail = u64_be_bytes(candidate);
    let mut j: usize = 0;
    while j < tail.len()
        invariant
            j <= tail@.len(),
            out@ == data@ + tail@.take(j as int),
        decreases tail@.len() - j,
    {
        out.push(tail[j]);
        proof {
            assert(out@ =~= data@ + tail@.take(j as int + 1));
        }
        j = j + 1;
    }
    proof {
        assert(tail@.take(tail@.len() as int) =~= tail@);
    }
    out
}

/// Relies on `sha2::Sha256::digest`: the SHA-256 digest is a function of the
/// input bytes alone, and is always 32 bytes long.
#[verifier::external_body]
fn sha256(input: &[u8]) -> (r: Vec<u8>)
    ensures
        r@ == sha256_of(input@),
        r@.len() == 32,
{
    sha2::Sha256::digest(input).to_vec()
}

/// Judges a digest against the difficulty: its first two bytes, read as a
/// big-endian word, must fall below the difficulty truncated to 16 bits.
pub fn digest_below(digest: &Vec<u8>, difficulty: u64) -> (r: bool)
    requires
        digest@.len() >= 2,
    ensures
        r == digest_meets(digest@, difficulty),
{
    let word: u16 = (digest[0] as u16) * 256 + (digest[1] as u16);
    let threshold: u16 = #[verifier::truncate] (difficulty as u16);
    word < threshold
}

/// Validates whether a candidate solves the puzzle: hashes the payload and
/// the candidate's big-endian encoding, and compares the digest's leading
/// word against the difficulty.
pub fn validate(puzzle: &Puzzle, candidate: u64) -> (r: bool)
    ensures
        r == puzzle_accepts(*puzzle, candidate),
{
    let message = message_bytes(&puzzle.data, candidate);
    let digest = sha256(message.as_slice());
    digest_below(&digest, puzzle.difficulty)
}

impl Instance for Puzzle {
    open spec fn accepts(&self, candidate: u64) -> bool {
        puzzle_accepts(*self, candidate)
    }

    fn evaluate(&self, candidate: u64) -> (r: bool) {
        validate(self, candidate)
    }
}

} // verus!
