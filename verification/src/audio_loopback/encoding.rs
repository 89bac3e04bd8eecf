//! Wire form of a run of samples: little-endian 32-bit words, then base64.
//!
//! A sample travels through this crate as the 32 bits of its IEEE-754
//! single-precision form, so that what is put on the wire is exactly what
//! was captured.

use base64::Engine;
use vstd::prelude::*;

verus! {

/// Byte `k` (0 is the lowest) of a 32-bit word.
pub open spec fn word_byte(x: u32, k: int) -> u8 {
    if k == 0 {
        (x as int % 256) as u8
    } else if k == 1 {
        (x as int / 256 % 256) as u8
    } else if k == 2 {
        (x as int / 65536 % 256) as u8
    } else {
        (x as int / 16777216 % 256) as u8
    }
}

/// The samples, each as four bytes, lowest byte first.
pub open spec fn spec_le_bytes(samples: Seq<u32>) -> Seq<u8> {
    Seq::new(4 * samples.len(), |i: int| word_byte(samples[i / 4], i % 4))
}

/// The 64 symbols of the standard base64 alphabet, in order of their value.
pub open spec fn base64_alphabet() -> Seq<char> {
    "ABCDEFGHIJKLMNOPQRSTUVWXYZabcdefghijklmnopqrstuvwxyz0123456789+/"@
}

/// Byte `i` of the input, or 0 behind its end.
pub open spec fn byte_or_zero(bytes: Seq<u8>, i: int) -> int {
    if 0 <= i < bytes.len() {
        bytes[i] as int
    } else {
        0
    }
}

/// Value of the `k`-th group of six bits of the input, which is read as one
/// string of bits, each byte from its highest bit, and filled up with zeros.
pub open spec fn base64_sextet(bytes: Seq<u8>, k: int) -> int {
    let g = k / 4;
    let n = byte_or_zero(bytes, 3 * g) * 65536 + byte_or_zero(bytes, 3 * g + 1) * 256
        + byte_or_zero(bytes, 3 * g + 2);
    if k % 4 == 0 {
        n / 262144 % 64
    } else if k % 4 == 1 {
        n / 4096 % 64
    } else if k % 4 == 2 {
        n / 64 % 64
    } else {
        n % 64
    }
}

/// Standard base64 with padding: every three bytes give four symbols, and a
/// last group of one or two bytes gives two or three symbols and is filled
/// up to four with `=`.
pub open spec fn base64_standard(bytes: Seq<u8>) -> Seq<char> {
    Seq::new(
        4 * ((bytes.len() + 2) / 3),
        |k: int|
            if 3 * (k / 4) + k % 4 <= bytes.len() {
                base64_alphabet()[base64_sextet(bytes, k)]
            } else {
                '='
            },
    )
}

/// The text of an audio chunk on the wire.
pub open spec fn spec_encode_samples(samples: Seq<u32>) -> Seq<char> {
    base64_standard(spec_le_bytes(samples))
}

/// `Engine::encode` of `base64::engine::general_purpose::STANDARD`: the
/// standard alphabet with padding. The crate panics where the length of the
/// result does not fit in `usize`; such inputs are left out.
#[verifier::external_body]
pub(crate) fn base64_encode(bytes: &[u8]) -> (r: String)
    requires
        bytes@.len() / 3 * 4 + 4 <= usize::MAX,
    ensures
        r@ == base64_standard(bytes@),
{
    base64::engine::general_purpose::STANDARD.encode(bytes)
}

/// Why a text is no base64.
#[derive(Debug, Clone, Copy, PartialEq, Eq, Structural)]
pub enum DecodeFailure {
    /// A byte that is no symbol of the alphabet, or padding in the middle:
    /// its offset and the byte.
    InvalidByte(usize, u8),
    /// A last group of a single symbol: the number of symbols.
    InvalidLength(usize),
    /// A last symbol with bits that would be lost: its offset and the byte.
    InvalidLastSymbol(usize, u8),
    /// Padding that is missing or wrong.
    InvalidPadding,
}

/// Whether a text is the standard base64, with padding, of some bytes.
pub open spec fn is_base64(text: Seq<char>) -> bool {
    exists|bytes: Seq<u8>| #[trigger] base64_standard(bytes) == text
}

/// `Engine::decode` of `base64::engine::general_purpose::STANDARD`. This
/// engine asks for canonical padding and refuses bits that would be lost,
/// so it takes a text exactly when the text is the encoding of some bytes,
/// and then gives those bytes; else it gives the reason for the refusal.
#[verifier::external_body]
pub(crate) fn base64_decode(text: &str) -> (r: Result<Vec<u8>, DecodeFailure>)
    ensures
        match r {
            Ok(bytes) => base64_standard(bytes@) == text@,
            Err(_) => !is_base64(text@),
        },
{
    match base64::engine::general_purpose::STANDARD.decode(text) {
        Ok(bytes) => Ok(bytes),
        Err(base64::DecodeError::InvalidByte(at, byte)) => Err(DecodeFailure::InvalidByte(at, byte)),
        Err(base64::DecodeError::InvalidLength(n)) => Err(DecodeFailure::InvalidLength(n)),
        Err(base64::DecodeError::InvalidLastSymbol(at, byte)) => Err(
            DecodeFailure::InvalidLastSymbol(at, byte),
        ),
        Err(base64::DecodeError::InvalidPadding) => Err(DecodeFailure::InvalidPadding),
    }
}

/// The samples as bytes, each sample lowest byte first.
pub fn samples_to_le_bytes(samples: &[u32]) -> (r: Vec<u8>)
    ensures
        r@ == spec_le_bytes(samples@),
{
    let mut out: Vec<u8> = Vec::new();
    let mut i: usize = 0;
    while i < samples.len()
        invariant
            i <= samples.len(),
            out@.len() == 4 * i,
            forall|j: int| 0 <= j < 4 * i ==> out@[j] == word_byte(samples@[j / 4], j % 4),
        decreases samples.len() - i,
    {
        let x: u32 = samples[i];
        let b0: u8 = (x & 0xff) as u8;
        let b1: u8 = ((x >> 8) & 0xff) as u8;
        let b2: u8 = ((x >> 16) & 0xff) as u8;
        let b3: u8 = ((x >> 24) & 0xff) as u8;
        assert(x & 0xff == x % 256) by (bit_vector);
        assert((x >> 8) & 0xff == x / 256 % 256) by (bit_vector);
        assert((x >> 16) & 0xff == x / 65536 % 256) by (bit_vector);
        assert((x >> 24) & 0xff == x / 16777216 % 256) by (bit_vector);
        out.push(b0);
        out.push(b1);
        out.push(b2);
        out.push(b3);
        i += 1;
    }
    assert(out@ =~= spec_le_bytes(samples@));
    out
}

/// The text of an audio chunk on the wire: the samples as little-endian
/// bytes, in base64.
pub fn encode_samples(samples: &[u32]) -> (r: String)
    requires
        samples@.len() * 16 <= usize::MAX,
    ensures
        r@ == spec_encode_samples(samples@),
{
    let bytes = samples_to_le_bytes(samples);
    base64_encode(bytes.as_slice())
}

} // verus!
