//! Transport form of a compressed proof.
//!
//! A compressed proof travels as base64 text of the byte frame
//! `count (u32, little endian) ++ public inputs (u64 each, little endian) ++ body`,
//! where the body is the proving engine's own serialisation of the proof.

use base64::Engine;
use vstd::prelude::*;

verus! {

/// What the standard base64 engine decodes a text to, if it accepts it.
pub uninterp spec fn base64_decoded(s: Seq<char>) -> Option<Seq<u8>>;

/// What the standard base64 engine encodes bytes to.
pub uninterp spec fn base64_text(b: Seq<u8>) -> Seq<char>;

/// A character of the standard base64 alphabet, or the padding `=`.
pub open spec fn is_base64_char(c: char) -> bool {
    ('A' <= c && c <= 'Z') || ('a' <= c && c <= 'z') || ('0' <= c && c <= '9') || c == '+' || c == '/' || c == '='
}

/// Relies on `base64::Engine::encode` with the `STANDARD` engine (padded):
/// the text depends on the bytes alone, has four characters for every three
/// bytes begun, is made of the standard alphabet and `=`, and decoding it
/// with the same engine gives back the bytes.
#[verifier::external_body]
fn base64_encode(bytes: &Vec<u8>) -> (r: String)
    requires
        bytes@.len() <= usize::MAX / 2,
    ensures
        r@ == base64_text(bytes@),
        r@.len() == 4 * ((bytes@.len() + 2) / 3),
        forall|i: int| 0 <= i < r@.len() ==> is_base64_char(#[trigger] r@[i]),
        base64_decoded(r@) == Some(bytes@),
{
    base64::engine::general_purpose::STANDARD.encode(bytes)
}

/// Relies on `base64::Engine::decode` with the `STANDARD` engine.
#[verifier::external_body]
fn base64_decode(s: &str) -> (r: Option<Vec<u8>>)
    ensures
        match r {
            Some(v) => base64_decoded(s@) == Some(v@),
            None => base64_decoded(s@) is None,
        },
{
    base64::engine::general_purpose::STANDARD.decode(s).ok()
}

/// Byte `k` (0 = least significant) of `x`.
pub open spec fn byte_of(x: u64, k: int) -> u8 {
    if k == 0 {
        (x & 0xff) as u8
    } else if k == 1 {
        ((x >> 8u64) & 0xff) as u8
    } else if k == 2 {
        ((x >> 16u64) & 0xff) as u8
    } else if k == 3 {
        ((x >> 24u64) & 0xff) as u8
    } else if k == 4 {
        ((x >> 32u64) & 0xff) as u8
    } else if k == 5 {
        ((x >> 40u64) & 0xff) as u8
    } else if k == 6 {
        ((x >> 48u64) & 0xff) as u8
    } else {
        ((x >> 56u64) & 0xff) as u8
    }
}

/// Little-endian bytes of a 32-bit count.
pub open spec fn le_u32(x: u32) -> Seq<u8> {
    seq![byte_of(x as u64, 0), byte_of(x as u64, 1), byte_of(x as u64, 2), byte_of(x as u64, 3)]
}

/// Little-endian bytes of the words in `s`, eight per word.
pub open spec fn le_words(s: Seq<u64>) -> Seq<u8> {
    Seq::new(8 * s.len(), |j: int| byte_of(s[j / 8], j % 8))
}

/// The frame of a proof with public inputs `pis` and body `body`.
pub open spec fn frame(pis: Seq<u64>, body: Seq<u8>) -> Seq<u8> {
    le_u32(pis.len() as u32) + le_words(pis) + body
}

/// The 32-bit little-endian number at `at`.
pub open spec fn u32_at(b: Seq<u8>, at: int) -> u32 {
    (b[at] as u32) | ((b[at + 1] as u32) << 8u32) | ((b[at + 2] as u32) << 16u32) | ((b[at + 3] as u32) << 24u32)
}

/// The 64-bit little-endian word at `at`.
pub open spec fn u64_at(b: Seq<u8>, at: int) -> u64 {
    (b[at] as u64) | ((b[at + 1] as u64) << 8u64) | ((b[at + 2] as u64) << 16u64)
        | ((b[at + 3] as u64) << 24u64) | ((b[at + 4] as u64) << 32u64)
        | ((b[at + 5] as u64) << 40u64) | ((b[at + 6] as u64) << 48u64)
        | ((b[at + 7] as u64) << 56u64)
}

/// What a frame reads back as: the public inputs and the body, or `None`
/// where the bytes are too short for the count they announce.
pub open spec fn parse_frame(b: Seq<u8>) -> Option<(Seq<u64>, Seq<u8>)> {
    if b.len() < 4 {
        None
    } else {
        let n = u32_at(b, 0) as int;
        if b.len() < 4 + 8 * n {
            None
        } else {
            Some((Seq::new(n as nat, |i: int| u64_at(b, 4 + 8 * i)), b.subrange(4 + 8 * n, b.len() as int)))
        }
    }
}

/// Why a proof text was refused.
#[derive(Debug, Clone, Copy, PartialEq, Eq, Structural)]
pub enum CodecError {
    /// The text is not standard base64.
    InvalidText,
    /// The bytes end before the public inputs they announce.
    TruncatedFrame,
}

/// What a proof text decodes to.
pub open spec fn decoded_text(s: Seq<char>) -> Result<(Seq<u64>, Seq<u8>), CodecError> {
    match base64_decoded(s) {
        None => Err(CodecError::InvalidText),
        Some(b) => match parse_frame(b) {
            None => Err(CodecError::TruncatedFrame),
            Some(p) => Ok(p),
        },
    }
}

proof fn lemma_u32_bytes(x: u32)
    ensures
        ((byte_of(x as u64, 0) as u32) | ((byte_of(x as u64, 1) as u32) << 8u32)
            | ((byte_of(x as u64, 2) as u32) << 16u32) | ((byte_of(x as u64, 3) as u32) << 24u32)) == x,
{
    let y = x as u64;
    assert(byte_of(y, 0) == (y & 0xff) as u8);
    assert(byte_of(y, 1) == ((y >> 8u64) & 0xff) as u8);
    assert(byte_of(y, 2) == ((y >> 16u64) & 0xff) as u8);
    assert(byte_of(y, 3) == ((y >> 24u64) & 0xff) as u8);
    assert((((y & 0xff) as u8 as u32) | ((((y >> 8u64) & 0xff) as u8 as u32) << 8u32)
        | ((((y >> 16u64) & 0xff) as u8 as u32) << 16u32)
        | ((((y >> 24u64) & 0xff) as u8 as u32) << 24u32)) == x) by (bit_vector)
        requires y == x as u64;
}

proof fn lemma_u64_bytes(x: u64)
    ensures
        (byte_of(x, 0) as u64) | ((byte_of(x, 1) as u64) << 8u64) | ((byte_of(x, 2) as u64) << 16u64)
            | ((byte_of(x, 3) as u64) << 24u64) | ((byte_of(x, 4) as u64) << 32u64)
            | ((byte_of(x, 5) as u64) << 40u64) | ((byte_of(x, 6) as u64) << 48u64)
            | ((byte_of(x, 7) as u64) << 56u64) == x,
{
    assert(byte_of(x, 0) == (x & 0xff) as u8);
    assert(byte_of(x, 1) == ((x >> 8u64) & 0xff) as u8);
    assert(byte_of(x, 2) == ((x >> 16u64) & 0xff) as u8);
    assert(byte_of(x, 3) == ((x >> 24u64) & 0xff) as u8);
    assert(byte_of(x, 4) == ((x >> 32u64) & 0xff) as u8);
    assert(byte_of(x, 5) == ((x >> 40u64) & 0xff) as u8);
    assert(byte_of(x, 6) == ((x >> 48u64) & 0xff) as u8);
    assert(byte_of(x, 7) == ((x >> 56u64) & 0xff) as u8);
    assert((((x & 0xff) as u8 as u64) | ((((x >> 8u64) & 0xff) as u8 as u64) << 8u64)
        | ((((x >> 16u64) & 0xff) as u8 as u64) << 16u64)
        | ((((x >> 24u64) & 0xff) as u8 as u64) << 24u64)
        | ((((x >> 32u64) & 0xff) as u8 as u64) << 32u64)
        | ((((x >> 40u64) & 0xff) as u8 as u64) << 40u64)
        | ((((x >> 48u64) & 0xff) as u8 as u64) << 48u64)
        | ((((x >> 56u64) & 0xff) as u8 as u64) << 56u64)) == x) by (bit_vector);
}

/// A frame reads back as the public inputs and the body it was made of.
pub proof fn lemma_frame_round_trip(pis: Seq<u64>, body: Seq<u8>)
    requires
        pis.len() <= u32::MAX,
    ensures
        parse_frame(frame(pis, body)) == Some((pis, body)),
{
    let b = frame(pis, body);
    let n = pis.len() as int;
    let w = le_words(pis);
    assert(b.len() == 4 + 8 * n + body.len());
    lemma_u32_bytes(pis.len() as u32);
    assert(u32_at(b, 0) == pis.len() as u32);
    let got = Seq::new(n as nat, |i: int| u64_at(b, 4 + 8 * i));
    assert forall|i: int| 0 <= i < n implies got[i] == pis[i] by {
        assert forall|k: int| 0 <= k < 8 implies b[4 + 8 * i + k] == byte_of(pis[i], k) by {
            assert(0 <= 8 * i + k < 8 * n) by (nonlinear_arith)
                requires 0 <= i < n, 0 <= k < 8;
            assert((8 * i + k) / 8 == i && (8 * i + k) % 8 == k) by (nonlinear_arith)
                requires 0 <= i, 0 <= k < 8;
            assert(b[4 + 8 * i + k] == w[8 * i + k]);
        }
        lemma_u64_bytes(pis[i]);
    }
    assert(got =~= pis);
    assert(b.subrange(4 + 8 * n, b.len() as int) =~= body);
}

/// Appends the little-endian bytes of `x`.
fn push_u64(out: &mut Vec<u8>, x: u64)
    ensures
        final(out)@ == old(out)@ + seq![byte_of(x, 0), byte_of(x, 1), byte_of(x, 2), byte_of(x, 3),
            byte_of(x, 4), byte_of(x, 5), byte_of(x, 6), byte_of(x, 7)],
{
    out.push((x & 0xff) as u8);
    out.push(((x >> 8u64) & 0xff) as u8);
    out.push(((x >> 16u64) & 0xff) as u8);
    out.push(((x >> 24u64) & 0xff) as u8);
    out.push(((x >> 32u64) & 0xff) as u8);
    out.push(((x >> 40u64) & 0xff) as u8);
    out.push(((x >> 48u64) & 0xff) as u8);
    out.push(((x >> 56u64) & 0xff) as u8);
}

/// The frame of a proof: public-input count, public inputs, body.
pub fn compressed_proof_to_bytes(public_inputs: &Vec<u64>, body: &Vec<u8>) -> (r: Vec<u8>)
    requires
        public_inputs@.len() <= u32::MAX,
    ensures
        r@ == frame(public_inputs@, body@),
{
    let n = public_inputs.len();
    let c = n as u32;
    let mut out: Vec<u8> = Vec::new();
    out.push((c & 0xff) as u8);
    out.push(((c >> 8u32) & 0xff) as u8);
    out.push(((c >> 16u32) & 0xff) as u8);
    out.push(((c >> 24u32) & 0xff) as u8);
    proof {
        let y = c as u64;
        assert(((c & 0xff) as u8) == byte_of(y, 0) && (((c >> 8u32) & 0xff) as u8) == byte_of(y, 1)
            && (((c >> 16u32) & 0xff) as u8) == byte_of(y, 2)
            && (((c >> 24u32) & 0xff) as u8) == byte_of(y, 3)) by {
            assert(byte_of(y, 0) == (y & 0xff) as u8);
            assert(byte_of(y, 1) == ((y >> 8u64) & 0xff) as u8);
            assert(byte_of(y, 2) == ((y >> 16u64) & 0xff) as u8);
            assert(byte_of(y, 3) == ((y >> 24u64) & 0xff) as u8);
            assert(((c & 0xff) as u8) == ((y & 0xff) as u8)
                && (((c >> 8u32) & 0xff) as u8) == (((y >> 8u64) & 0xff) as u8)
                && (((c >> 16u32) & 0xff) as u8) == (((y >> 16u64) & 0xff) as u8)
                && (((c >> 24u32) & 0xff) as u8) == (((y >> 24u64) & 0xff) as u8)) by (bit_vector)
                requires y == c as u64;
        }
        assert(out@ =~= le_u32(c));
    }
    let mut i: usize = 0;
    while i < n
        invariant
            n == public_inputs@.len(),
            i <= n,
            out@ == le_u32(c) + le_words(public_inputs@.subrange(0, i as int)),
        decreases n - i,
    {
        let ghost before = out@;
        push_u64(&mut out, public_inputs[i]);
        proof {
            let s = public_inputs@.subrange(0, i + 1);
            let t = public_inputs@.subrange(0, i as int);
            assert forall|j: int| 0 <= j < 8 * (i + 1) implies le_words(s)[j] == (le_words(t) + seq![byte_of(s[i as int], 0), byte_of(s[i as int], 1), byte_of(s[i as int], 2), byte_of(s[i as int], 3), byte_of(s[i as int], 4), byte_of(s[i as int], 5), byte_of(s[i as int], 6), byte_of(s[i as int], 7)])[j] by {
                if j < 8 * i {
                    assert(j / 8 < i) by (nonlinear_arith) requires 0 <= j < 8 * i;
                    assert(0 <= j / 8) by (nonlinear_arith) requires 0 <= j;
                } else {
                    assert(j / 8 == i && j % 8 == j - 8 * i) by (nonlinear_arith)
                        requires 8 * i <= j < 8 * (i + 1);
                }
            }
            assert(le_words(s) =~= le_words(t) + seq![byte_of(s[i as int], 0), byte_of(s[i as int], 1), byte_of(s[i as int], 2), byte_of(s[i as int], 3), byte_of(s[i as int], 4), byte_of(s[i as int], 5), byte_of(s[i as int], 6), byte_of(s[i as int], 7)]);
        }
        i = i + 1;
    }
    let mut k: usize = 0;
    let ghost head = out@;
    while k < body.len()
        invariant
            k <= body@.len(),
            out@ == head + body@.subrange(0, k as int),
        decreases body@.len() - k,
    {
        out.push(body[k]);
        k = k + 1;
        proof {
            assert(body@.subrange(0, k as int) =~= body@.subrange(0, k - 1) + seq![body@[k - 1]]);
        }
    }
    proof {
        assert(public_inputs@.subrange(0, n as int) =~= public_inputs@);
        assert(body@.subrange(0, body@.len() as int) =~= body@);
    }
    out
}

/// Reads a frame back into its public inputs and body; `None` where the bytes
/// end before the public inputs they announce.
pub fn compressed_proof_from_bytes(bytes: &Vec<u8>) -> (r: Option<(Vec<u64>, Vec<u8>)>)
    ensures
        match r {
            Some((p, b)) => parse_frame(bytes@) == Some((p@, b@)),
            None => parse_frame(bytes@) is None,
        },
{
    let len = bytes.len();
    if len < 4 {
        return None;
    }
    let c: u32 = (bytes[0] as u32) | ((bytes[1] as u32) << 8u32) | ((bytes[2] as u32) << 16u32)
        | ((bytes[3] as u32) << 24u32);
    let n = c as usize;
    let rem = len - 4;
    if n > rem / 8 {
        proof {
            assert(rem < 8 * n) by (nonlinear_arith) requires n > rem / 8;
        }
        return None;
    }
    proof {
        assert(8 * n <= rem) by (nonlinear_arith) requires n <= rem / 8;
    }
    let mut pis: Vec<u64> = Vec::new();
    let mut i: usize = 0;
    while i < n
        invariant
            n == u32_at(bytes@, 0) as int,
            4 + 8 * n <= bytes@.len(),
            len == bytes@.len(),
            i <= n,
            pis@ == Seq::new(i as nat, |j: int| u64_at(bytes@, 4 + 8 * j)),
        decreases n - i,
    {
        let at = 4 + 8 * i;
        let w: u64 = (bytes[at] as u64) | ((bytes[at + 1] as u64) << 8u64) | ((bytes[at + 2] as u64) << 16u64)
            | ((bytes[at + 3] as u64) << 24u64) | ((bytes[at + 4] as u64) << 32u64)
            | ((bytes[at + 5] as u64) << 40u64) | ((bytes[at + 6] as u64) << 48u64)
            | ((bytes[at + 7] as u64) << 56u64);
        pis.push(w);
        i = i + 1;
        proof {
            assert(pis@ =~= Seq::new(i as nat, |j: int| u64_at(bytes@, 4 + 8 * j)));
        }
    }
    let mut body: Vec<u8> = Vec::new();
    let start = 4 + 8 * n;
    let mut k: usize = start;
    while k < len
        invariant
            start <= k <= len,
            len == bytes@.len(),
            body@ == bytes@.subrange(start as int, k as int),
        decreases len - k,
    {
        body.push(bytes[k]);
        k = k + 1;
        proof {
            assert(body@ =~= bytes@.subrange(start as int, k as int));
        }
    }
    Some((pis, body))
}

/// The transport text of a compressed proof given by its public inputs and
/// its body. The text always decodes back to the same two parts.
pub fn encode_plonky2_proof(public_inputs: &Vec<u64>, body: &Vec<u8>) -> (r: String)
    requires
        public_inputs@.len() <= u32::MAX,
        4 + 8 * public_inputs@.len() + body@.len() <= usize::MAX / 2,
    ensures
        r@ == base64_text(frame(public_inputs@, body@)),
        r@.len() == 4 * ((4 + 8 * public_inputs@.len() + body@.len() + 2) / 3),
        r@.len() > 0,
        forall|i: int| 0 <= i < r@.len() ==> is_base64_char(#[trigger] r@[i]),
        base64_decoded(r@) == Some(frame(public_inputs@, body@)),
        decoded_text(r@) == Ok::<(Seq<u64>, Seq<u8>), CodecError>((public_inputs@, body@)),
{
    let bytes = compressed_proof_to_bytes(public_inputs, body);
    proof {
        lemma_frame_round_trip(public_inputs@, body@);
    }
    base64_encode(&bytes)
}

/// Reads a transport text back into the public inputs and the body of a
/// compressed proof.
pub fn decode_plonky2_proof(encoded_proof: &str) -> (r: Result<(Vec<u64>, Vec<u8>), CodecError>)
    ensures
        match r {
            Ok((p, b)) => decoded_text(encoded_proof@) == Ok::<(Seq<u64>, Seq<u8>), CodecError>((p@, b@)),
            Err(e) => decoded_text(encoded_proof@) == Err::<(Seq<u64>, Seq<u8>), CodecError>(e),
        },
{
    match base64_decode(encoded_proof) {
        None => Err(CodecError::InvalidText),
        Some(bytes) => match compressed_proof_from_bytes(&bytes) {
            None => Err(CodecError::TruncatedFrame),
            Some(parts) => Ok(parts),
        },
    }
}

} // verus!
