//! Artifact persistence protocol.
//!
//! Every artifact the three stages exchange (prover key, verifier key,
//! generators, instance, proof) is persisted as one length-delimited
//! binary frame: a tag byte naming the artifact kind, an eight-byte
//! little-endian payload length, then the payload itself.  The framing
//! is self-describing enough to detect gross corruption — a wrong tag
//! or a size mismatch — as a decode failure rather than undefined
//! behaviour, and the encoding is canonical: a byte string decodes to
//! an artifact only if it is exactly that artifact's frame.

use vstd::arithmetic::div_mod::lemma_fundamental_div_mod;
use vstd::arithmetic::div_mod::lemma_fundamental_div_mod_converse;
use vstd::prelude::*;

verus! {

/// The kinds of artifact that cross a stage boundary.
#[derive(Clone, Copy, Debug, PartialEq, Eq, Structural)]
pub enum ArtifactKind {
    /// Private key material produced by Generate; never shown to a verifier.
    ProverKey,
    /// Public key material produced by Generate.
    VerifierKey,
    /// Public parameters produced by Prove.
    Generators,
    /// The instance produced by Prove.
    Instance,
    /// The zero-knowledge argument itself.
    Proof,
}

/// A persisted artifact: its kind and its opaque backend payload.
#[derive(Clone, Debug, PartialEq, Eq)]
pub struct Artifact {
    pub kind: ArtifactKind,
    pub payload: Vec<u8>,
}

/// Why a byte string failed to decode.
#[derive(Clone, Copy, Debug, PartialEq, Eq, Structural)]
pub enum CodecError {
    /// Shorter than one header.
    Truncated,
    /// The tag byte names no artifact kind.
    UnknownTag,
    /// The declared payload length disagrees with the bytes present.
    LengthMismatch,
}

/// The tag byte that names an artifact kind on disk.
pub open spec fn kind_tag(k: ArtifactKind) -> u8 {
    match k {
        ArtifactKind::ProverKey => 1,
        ArtifactKind::VerifierKey => 2,
        ArtifactKind::Generators => 3,
        ArtifactKind::Instance => 4,
        ArtifactKind::Proof => 5,
    }
}

/// The artifact kind a tag byte names, if any.
pub open spec fn tag_kind(t: u8) -> Option<ArtifactKind> {
    if t == 1 {
        Some(ArtifactKind::ProverKey)
    } else if t == 2 {
        Some(ArtifactKind::VerifierKey)
    } else if t == 3 {
        Some(ArtifactKind::Generators)
    } else if t == 4 {
        Some(ArtifactKind::Instance)
    } else if t == 5 {
        Some(ArtifactKind::Proof)
    } else {
        None
    }
}

pub fn tag_of(k: ArtifactKind) -> (t: u8)
    ensures
        t == kind_tag(k),
{
    match k {
        ArtifactKind::ProverKey => 1,
        ArtifactKind::VerifierKey => 2,
        ArtifactKind::Generators => 3,
        ArtifactKind::Instance => 4,
        ArtifactKind::Proof => 5,
    }
}

pub fn kind_of(t: u8) -> (r: Option<ArtifactKind>)
    ensures
        r == tag_kind(t),
{
    if t == 1 {
        Some(ArtifactKind::ProverKey)
    } else if t == 2 {
        Some(ArtifactKind::VerifierKey)
    } else if t == 3 {
        Some(ArtifactKind::Generators)
    } else if t == 4 {
        Some(ArtifactKind::Instance)
    } else if t == 5 {
        Some(ArtifactKind::Proof)
    } else {
        None
    }
}

/// 256 to the n-th power: the number of values an n-byte field holds.
pub open spec fn pow256(n: nat) -> nat
    decreases n,
{
    if n == 0 {
        1
    } else {
        256 * pow256((n - 1) as nat)
    }
}

/// The n-byte little-endian encoding of v (reduced modulo 256^n).
pub open spec fn le_bytes(v: nat, n: nat) -> Seq<u8>
    decreases n,
{
    if n == 0 {
        Seq::empty()
    } else {
        seq![(v % 256) as u8] + le_bytes(v / 256, (n - 1) as nat)
    }
}

/// The value a little-endian byte string denotes.
pub open spec fn le_value(s: Seq<u8>) -> nat
    decreases s.len(),
{
    if s.len() == 0 {
        0
    } else {
        (s[0] + 256 * le_value(s.skip(1))) as nat
    }
}

pub proof fn lemma_pow256_values()
    ensures
        pow256(7) == 0x100000000000000,
        pow256(8) == 0x10000000000000000,
{
    assert(pow256(0) == 1);
    assert(pow256(1) == 256);
    assert(pow256(2) == 0x10000);
    assert(pow256(3) == 0x1000000);
    assert(pow256(4) == 0x100000000);
    assert(pow256(5) == 0x10000000000);
    assert(pow256(6) == 0x1000000000000);
    assert(pow256(7) == 0x100000000000000);
    assert(pow256(8) == 0x10000000000000000);
}

pub proof fn lemma_pow256_increases(m: nat, n: nat)
    requires
        m <= n,
    ensures
        pow256(m) <= pow256(n),
    decreases n,
{
    if m < n {
        lemma_pow256_increases(m, (n - 1) as nat);
    }
}

pub proof fn lemma_le_bytes_len(v: nat, n: nat)
    ensures
        le_bytes(v, n).len() == n,
    decreases n,
{
    if n > 0 {
        lemma_le_bytes_len(v / 256, (n - 1) as nat);
    }
}

/// An n-byte little-endian encoding denotes the value it was made from,
/// provided that value fits in n bytes.
pub proof fn lemma_le_bytes_value(v: nat, n: nat)
    requires
        v < pow256(n),
    ensures
        le_value(le_bytes(v, n)) == v,
    decreases n,
{
    if n == 0 {
        assert(le_bytes(v, 0) =~= Seq::<u8>::empty());
    } else {
        let s = le_bytes(v, n);
        let rest = le_bytes(v / 256, (n - 1) as nat);
        assert(s.skip(1) =~= rest);
        assert(v / 256 < pow256((n - 1) as nat)) by {
            if v / 256 >= pow256((n - 1) as nat) {
                lemma_fundamental_div_mod(v as int, 256);
                assert(v >= 256 * (v / 256));
                assert(256 * (v / 256) >= 256 * pow256((n - 1) as nat)) by (nonlinear_arith)
                    requires
                        v / 256 >= pow256((n - 1) as nat),
                ;
            }
        }
        lemma_le_bytes_value(v / 256, (n - 1) as nat);
        lemma_fundamental_div_mod(v as int, 256);
    }
}

/// A byte string denotes a value below 256^length.
pub proof fn lemma_le_value_bound(s: Seq<u8>)
    ensures
        le_value(s) < pow256(s.len()),
    decreases s.len(),
{
    if s.len() > 0 {
        lemma_le_value_bound(s.skip(1));
    }
}

/// Little-endian encoding is canonical: re-encoding a byte string's
/// value over the same width gives that byte string back.
pub proof fn lemma_le_bytes_canonical(s: Seq<u8>)
    ensures
        le_bytes(le_value(s), s.len()) == s,
    decreases s.len(),
{
    if s.len() == 0 {
        assert(le_bytes(le_value(s), 0) =~= s);
    } else {
        let v = le_value(s);
        let q = le_value(s.skip(1));
        lemma_fundamental_div_mod_converse(v as int, 256, q as int, s[0] as int);
        lemma_le_bytes_canonical(s.skip(1));
        assert(le_bytes(v, s.len()) =~= s);
    }
}

/// The frame persisted for an artifact: tag byte, eight-byte
/// little-endian payload length, payload.
pub open spec fn frame(k: ArtifactKind, payload: Seq<u8>) -> Seq<u8> {
    seq![kind_tag(k)] + le_bytes(payload.len(), 8) + payload
}

/// What a byte string decodes to: the artifact whose frame it is, or
/// nothing if it is no frame at all.
pub open spec fn decode_spec(b: Seq<u8>) -> Option<(ArtifactKind, Seq<u8>)> {
    if b.len() < 9 {
        None
    } else {
        match tag_kind(b[0]) {
            None => None,
            Some(k) => if le_value(b.subrange(1, 9)) == b.len() - 9 {
                Some((k, b.subrange(9, b.len() as int)))
            } else {
                None
            },
        }
    }
}

impl Artifact {
    /// The frame this artifact is persisted as.
    pub open spec fn encoding(self) -> Seq<u8> {
        frame(self.kind, self.payload@)
    }
}

/// Law: round trip.  Decoding an artifact's frame yields that artifact,
/// kind and payload alike — in particular every structural statistic of
/// the artifact, its payload size included, survives persistence.
pub proof fn lemma_round_trip(k: ArtifactKind, payload: Seq<u8>)
    requires
        payload.len() < pow256(8),
    ensures
        decode_spec(frame(k, payload)) == Some((k, payload)),
{
    let b = frame(k, payload);
    lemma_le_bytes_len(payload.len(), 8);
    assert(b.len() == 9 + payload.len());
    assert(b[0] == kind_tag(k));
    assert(tag_kind(b[0]) == Some(k));
    assert(b.subrange(1, 9) =~= le_bytes(payload.len(), 8));
    lemma_le_bytes_value(payload.len(), 8);
    assert(b.subrange(9, b.len() as int) =~= payload);
}

/// Law: the encoding is canonical.  A byte string decodes to an
/// artifact only if it is exactly that artifact's frame.
pub proof fn lemma_decode_canonical(b: Seq<u8>, k: ArtifactKind, payload: Seq<u8>)
    requires
        decode_spec(b) == Some((k, payload)),
    ensures
        b == frame(k, payload),
{
    assert(b.len() >= 9);
    assert(tag_kind(b[0]) == Some(k));
    assert(b[0] == kind_tag(k));
    assert(payload == b.subrange(9, b.len() as int));
    assert(le_value(b.subrange(1, 9)) == payload.len());
    lemma_le_bytes_canonical(b.subrange(1, 9));
    assert(b.subrange(1, 9).len() == 8);
    assert(le_bytes(payload.len(), 8) == b.subrange(1, 9));
    assert(frame(k, payload) =~= b);
}

/// Law: the encoding is deterministic.  Two artifacts of one kind with
/// equal payloads have byte-identical frames, so independent runs that
/// finalize the same artifact persist the same bytes.
pub proof fn lemma_encoding_deterministic(
    k1: ArtifactKind,
    p1: Seq<u8>,
    k2: ArtifactKind,
    p2: Seq<u8>,
)
    requires
        k1 == k2,
        p1 == p2,
    ensures
        frame(k1, p1) == frame(k2, p2),
{
}

/// Law: a tampered byte string never passes for the original artifact.
/// Any change to an artifact's persisted frame either fails decoding or
/// yields a different artifact — never silent acceptance of the
/// original.
pub proof fn lemma_tamper_never_original(b: Seq<u8>, k: ArtifactKind, payload: Seq<u8>)
    requires
        b != frame(k, payload),
    ensures
        decode_spec(b) != Some((k, payload)),
{
    if decode_spec(b) == Some((k, payload)) {
        lemma_decode_canonical(b, k, payload);
    }
}

/// Encodes an artifact as its persisted frame.
pub fn encode(a: &Artifact) -> (r: Vec<u8>)
    ensures
        r@ == a.encoding(),
{
    let mut out: Vec<u8> = Vec::new();
    out.push(tag_of(a.kind));
    let len64: u64 = a.payload.len() as u64;
    let mut v: u64 = len64;
    let mut i: usize = 0;
    while i < 8
        invariant
            i <= 8,
            seq![kind_tag(a.kind)] + le_bytes(len64 as nat, 8) == out@ + le_bytes(
                v as nat,
                (8 - i) as nat,
            ),
        decreases 8 - i,
    {
        let b: u8 = (v % 256) as u8;
        proof {
            assert(le_bytes(v as nat, (8 - i) as nat) == seq![(v as nat % 256) as u8] + le_bytes(
                v as nat / 256,
                (8 - i - 1) as nat,
            ));
            assert(out@ + le_bytes(v as nat, (8 - i) as nat) =~= (out@ + seq![
                (v as nat % 256) as u8,
            ]) + le_bytes(v as nat / 256, (8 - i - 1) as nat));
        }
        out.push(b);
        v = v / 256;
        i = i + 1;
    }
    proof {
        assert(le_bytes(v as nat, 0) =~= Seq::<u8>::empty());
        assert(out@ + le_bytes(v as nat, 0) =~= out@);
        assert(out@ == seq![kind_tag(a.kind)] + le_bytes(len64 as nat, 8));
        assert(len64 as nat == a.payload@.len());
    }
    let mut j: usize = 0;
    while j < a.payload.len()
        invariant
            j <= a.payload.len(),
            out@ == seq![kind_tag(a.kind)] + le_bytes(a.payload@.len(), 8) + a.payload@.subrange(
                0,
                j as int,
            ),
        decreases a.payload.len() - j,
    {
        let byte = a.payload[j];
        proof {
            assert((seq![kind_tag(a.kind)] + le_bytes(a.payload@.len(), 8) + a.payload@.subrange(
                0,
                j as int,
            )).push(a.payload@[j as int]) =~= seq![kind_tag(a.kind)] + le_bytes(
                a.payload@.len(),
                8,
            ) + a.payload@.subrange(0, j + 1));
        }
        out.push(byte);
        j = j + 1;
    }
    proof {
        assert(a.payload@.subrange(0, a.payload@.len() as int) =~= a.payload@);
    }
    out
}

/// Decodes a persisted frame back into an artifact.  Succeeds exactly
/// on well-formed frames; a truncated file, an unknown tag and a
/// payload-size mismatch are each reported distinctly.
pub fn decode(bytes: &Vec<u8>) -> (r: Result<Artifact, CodecError>)
    ensures
        match r {
            Ok(a) => decode_spec(bytes@) == Some((a.kind, a.payload@)) && bytes@ == a.encoding(),
            Err(e) => decode_spec(bytes@) is None && (e == CodecError::Truncated <==> bytes@.len()
                < 9) && (e == CodecError::UnknownTag <==> bytes@.len() >= 9 && tag_kind(bytes@[0])
                is None) && (e == CodecError::LengthMismatch <==> bytes@.len() >= 9 && tag_kind(
                bytes@[0],
            ) is Some && le_value(bytes@.subrange(1, 9)) != bytes@.len() - 9),
        },
{
    if bytes.len() < 9 {
        return Err(CodecError::Truncated);
    }
    let kind = match kind_of(bytes[0]) {
        Some(k) => k,
        None => {
            return Err(CodecError::UnknownTag);
        },
    };
    let mut v: u64 = 0;
    let mut k: usize = 0;
    while k < 8
        invariant
            k <= 8,
            bytes@.len() >= 9,
            v as nat == le_value(bytes@.subrange(9 - k, 9)),
        decreases 8 - k,
    {
        let b = bytes[8 - k];
        proof {
            let s = bytes@.subrange(8 - k, 9);
            assert(s[0] == bytes@[8 - k as int]);
            assert(s.skip(1) =~= bytes@.subrange(9 - k, 9));
            assert(le_value(s) == bytes@[8 - k as int] + 256 * le_value(bytes@.subrange(9 - k, 9)));
            lemma_le_value_bound(bytes@.subrange(9 - k, 9));
            lemma_pow256_increases(k as nat, 7);
            lemma_pow256_values();
            assert(v < 0x100000000000000);
        }
        v = v * 256 + (b as u64);
        k = k + 1;
    }
    assert(v as nat == le_value(bytes@.subrange(1, 9)));
    let declared_ok: bool = v == (bytes.len() - 9) as u64;
    if !declared_ok {
        return Err(CodecError::LengthMismatch);
    }
    let mut payload: Vec<u8> = Vec::new();
    let mut j: usize = 0;
    while j < bytes.len() - 9
        invariant
            bytes@.len() >= 9,
            j <= bytes@.len() - 9,
            payload@ == bytes@.subrange(9, 9 + j),
        decreases bytes.len() - 9 - j,
    {
        let byte = bytes[9 + j];
        proof {
            assert(bytes@.subrange(9, 9 + j).push(bytes@[9 + j as int]) =~= bytes@.subrange(
                9,
                9 + (j + 1),
            ));
        }
        payload.push(byte);
        j = j + 1;
    }
    let a = Artifact { kind, payload };
    proof {
        assert(a.payload@ =~= bytes@.subrange(9, bytes@.len() as int));
        assert(decode_spec(bytes@) == Some((a.kind, a.payload@)));
        lemma_decode_canonical(bytes@, a.kind, a.payload@);
    }
    Ok(a)
}

} // verus!
