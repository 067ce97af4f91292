//! The proof bytes that the verifier contracts take, made from the proofs that
//! the zkVMs produce.
use vstd::prelude::*;
use vstd::string::StringExecFns;

use crate::bytes;
use crate::prover;
use crate::prover::{hex_decode, ProverError};

verus! {

/// A proof of the SP1 zkVM, by kind: the wrapped kinds carry their proof as hex
/// text and the hash of the verifying key that it was made for.
#[derive(Debug, Clone)]
pub enum Sp1Proof {
    Groth16 { encoded_proof: String, vkey_hash: [u8; 32] },
    Plonk { encoded_proof: String, vkey_hash: [u8; 32] },
    Compressed,
    Core,
}

/// The on-chain form of a wrapped SP1 proof: nothing where the proof text is
/// empty, else the first four bytes of the key hash followed by the decoded
/// proof; `None` where the text is not hex.
pub open spec fn spec_wrapped_onchain(encoded_proof: Seq<char>, vkey_hash: Seq<u8>) -> Option<
    Seq<u8>,
> {
    if encoded_proof.len() == 0 {
        Some(Seq::empty())
    } else {
        match prover::spec_hex_decode(vstd::utf8::encode_utf8(encoded_proof)) {
            Some(b) => Some(vkey_hash.subrange(0, 4) + b),
            None => None,
        }
    }
}

/// The on-chain form of an SP1 proof; the unwrapped kinds have none (empty).
pub open spec fn spec_sp1_onchain(p: Sp1Proof) -> Option<Seq<u8>> {
    match p {
        Sp1Proof::Groth16 { encoded_proof, vkey_hash } => spec_wrapped_onchain(
            encoded_proof@,
            vkey_hash@,
        ),
        Sp1Proof::Plonk { encoded_proof, vkey_hash } => spec_wrapped_onchain(
            encoded_proof@,
            vkey_hash@,
        ),
        _ => Some(Seq::empty()),
    }
}

fn wrapped_onchain(encoded_proof: &String, vkey_hash: &[u8; 32]) -> (r: Result<
    Vec<u8>,
    ProverError,
>)
    ensures
        match spec_wrapped_onchain(encoded_proof@, vkey_hash@) {
            Some(b) => r matches Ok(v) && v@ == b,
            None => r matches Err(ProverError::ProofNotHex),
        },
{
    let text = encoded_proof.as_str();
    if text.unicode_len() == 0 {
        return Ok(Vec::new());
    }
    match hex_decode(text.as_bytes()) {
        Some(decoded) => {
            let mut out: Vec<u8> = Vec::new();
            out.push(vkey_hash[0]);
            out.push(vkey_hash[1]);
            out.push(vkey_hash[2]);
            out.push(vkey_hash[3]);
            let mut i: usize = 0;
            while i < decoded.len()
                invariant
                    i <= decoded@.len(),
                    out@ == vkey_hash@.subrange(0, 4) + decoded@.subrange(0, i as int),
                decreases decoded@.len() - i,
            {
                out.push(decoded[i]);
                i = i + 1;
                assert(out@ =~= vkey_hash@.subrange(0, 4) + decoded@.subrange(0, i as int));
            }
            assert(decoded@.subrange(0, decoded@.len() as int) =~= decoded@);
            Ok(out)
        },
        None => Err(ProverError::ProofNotHex),
    }
}

/// The bytes that the verifier contract takes for an SP1 proof.
pub fn sp1_onchain_proof(p: &Sp1Proof) -> (r: Result<Vec<u8>, ProverError>)
    ensures
        match spec_sp1_onchain(*p) {
            Some(b) => r matches Ok(v) && v@ == b,
            None => r matches Err(ProverError::ProofNotHex),
        },
{
    match p {
        Sp1Proof::Groth16 { encoded_proof, vkey_hash } => wrapped_onchain(encoded_proof, vkey_hash),
        Sp1Proof::Plonk { encoded_proof, vkey_hash } => wrapped_onchain(encoded_proof, vkey_hash),
        Sp1Proof::Compressed => Ok(Vec::new()),
        Sp1Proof::Core => Ok(Vec::new()),
    }
}

/// A wrapped SP1 proof whose text is not empty and decodes to bytes `b` goes
/// on chain as the first four bytes of the key hash followed by all of `b`,
/// whatever the length of `b`; an empty text gives no bytes, and the unwrapped
/// kinds give no bytes.
pub proof fn lemma_sp1_onchain_layout(p: Sp1Proof)
    ensures
        match p {
            Sp1Proof::Groth16 { encoded_proof, vkey_hash } | Sp1Proof::Plonk {
                encoded_proof,
                vkey_hash,
            } => {
                &&& encoded_proof@.len() == 0 ==> spec_sp1_onchain(p) == Some(Seq::<u8>::empty())
                &&& encoded_proof@.len() > 0 ==> match prover::spec_hex_decode(
                    vstd::utf8::encode_utf8(encoded_proof@),
                ) {
                    Some(b) => spec_sp1_onchain(p) matches Some(o) && o.len() == 4 + b.len() && (
                    forall|i: int| 0 <= i < 4 ==> o[i] == vkey_hash[i]) && (forall|i: int|
                        0 <= i < b.len() ==> o[4 + i] == b[i]),
                    None => spec_sp1_onchain(p) is None,
                }
            },
            _ => spec_sp1_onchain(p) == Some(Seq::<u8>::empty()),
        },
{
}

/// Calls `bincode::deserialize::<Vec<u8>>`, with the error mapped to `None`.
/// Trusted: bincode's default format reads a byte vector as its length, a
/// little-endian `u64`, then that many bytes, and leaves trailing bytes unread.
#[verifier::external_body]
fn bincode_byte_vec(encoded: &[u8]) -> (r: Option<Vec<u8>>)
    ensures
        match r {
            Some(v) => encoded@.len() >= 8 && 8 + bytes::le_value(encoded@.subrange(0, 8))
                <= encoded@.len() && v@ == encoded@.subrange(
                8,
                8 + bytes::le_value(encoded@.subrange(0, 8)) as int,
            ),
            None => !(encoded@.len() >= 8 && 8 + bytes::le_value(encoded@.subrange(0, 8))
                <= encoded@.len()),
        },
{
    bincode::deserialize::<Vec<u8>>(encoded).ok()
}

/// The eight 32-byte big-endian words that a Pico proof is read as: its first
/// eight 32-byte chunks, the last of which may be shorter and is then padded
/// with leading zeros. A proof of no more than seven chunks has none.
pub open spec fn spec_pico_words(p: Seq<u8>) -> Option<Seq<u8>> {
    if p.len() <= 224 {
        None
    } else {
        let tail = if p.len() >= 256 {
            32
        } else {
            p.len() - 224
        };
        Some(
            Seq::new(
                256,
                |i: int|
                    if i < 224 + 32 - tail {
                        if i < 224 {
                            p[i]
                        } else {
                            0u8
                        }
                    } else {
                        p[i - (32 - tail)]
                    },
            ),
        )
    }
}

/// The eight proof words of a Pico proof are 256 bytes: a proof of at least 256
/// bytes gives its first 256 bytes; a shorter one (more than 224 bytes) gives its
/// first 224 bytes, then zeros, then its remaining bytes at the end; a proof of
/// at most 224 bytes has no eight words.
pub proof fn lemma_pico_words_layout(p: Seq<u8>)
    ensures
        p.len() <= 224 <==> spec_pico_words(p) is None,
        p.len() >= 256 ==> spec_pico_words(p) == Some(p.subrange(0, 256)),
        224 < p.len() < 256 ==> (spec_pico_words(p) matches Some(w) && w.len() == 256 && w.subrange(
            0,
            224,
        ) == p.subrange(0, 224) && (forall|i: int| 224 <= i < 480 - p.len() ==> w[i] == 0) && w.subrange(
            480 - p.len(),
            256,
        ) == p.subrange(224, p.len() as int)),
{
    if p.len() >= 256 {
        assert(spec_pico_words(p).unwrap() =~= p.subrange(0, 256));
    }
    if 224 < p.len() < 256 {
        let w = spec_pico_words(p).unwrap();
        assert(w.subrange(0, 224) =~= p.subrange(0, 224));
        assert(w.subrange(480 - p.len(), 256) =~= p.subrange(224, p.len() as int));
    }
}

/// The ABI encoding of the eight proof words of a Pico proof.
pub fn pico_proof_words(raw: &[u8]) -> (r: Result<Vec<u8>, ProverError>)
    ensures
        match spec_pico_words(raw@) {
            Some(b) => r matches Ok(v) && v@ == b,
            None => r matches Err(ProverError::ProofElementCount),
        },
{
    let n = raw.len();
    if n <= 224 {
        return Err(ProverError::ProofElementCount);
    }
    let tail: usize = if n >= 256 {
        32
    } else {
        n - 224
    };
    let pad: usize = 32 - tail;
    let ghost want = spec_pico_words(raw@).unwrap();
    let mut out: Vec<u8> = Vec::new();
    let mut i: usize = 0;
    while i < 256
        invariant
            n == raw@.len(),
            224 < n,
            tail == (if n >= 256 {
                32
            } else {
                n - 224
            }),
            pad == 32 - tail,
            want == spec_pico_words(raw@).unwrap(),
            want.len() == 256,
            i <= 256,
            out@ == want.subrange(0, i as int),
        decreases 256 - i,
    {
        let b: u8 = if i < 224 + pad {
            if i < 224 {
                raw[i]
            } else {
                0u8
            }
        } else {
            raw[i - pad]
        };
        out.push(b);
        i = i + 1;
        assert(out@ =~= want.subrange(0, i as int));
    }
    assert(want.subrange(0, 256) =~= want);
    Ok(out)
}

/// The bytes that the verifier contract takes for a Pico proof, from the proof
/// as the prover encoded it: nothing where the encoding holds no proof, else the
/// proof's eight words. Of the encoding this reads the proof bytes at its
/// start; the verifying key that follows them is not read.
pub fn pico_onchain_proof(encoded_proof: &[u8]) -> (r: Result<Vec<u8>, ProverError>)
    ensures
        encoded_proof@.len() < 8 || bytes::le_value(encoded_proof@.subrange(0, 8)) == 0 ==> (r matches Ok(
            v,
        ) && v@.len() == 0),
        encoded_proof@.len() >= 8 && bytes::le_value(encoded_proof@.subrange(0, 8)) != 0 ==> {
            let len = bytes::le_value(encoded_proof@.subrange(0, 8));
            if 8 + len > encoded_proof@.len() {
                r matches Err(ProverError::ProofUndecodable)
            } else {
                match spec_pico_words(encoded_proof@.subrange(8, 8 + len as int)) {
                    Some(b) => r matches Ok(v) && v@ == b,
                    None => r matches Err(ProverError::ProofElementCount),
                }
            }
        },
{
    if crate::config::check_encoded_proof_is_empty(encoded_proof) {
        proof {
            if encoded_proof@.len() >= 8 {
                let head = encoded_proof@.subrange(0, 8);
                lemma_le_value_zero(head);
                assert forall|i: int| 0 <= i < 8 implies head[i] == 0 by {
                    assert(head[i] == encoded_proof@[i]);
                }
            }
        }
        return Ok(Vec::new());
    }
    proof {
        let head = encoded_proof@.subrange(0, 8);
        lemma_le_value_zero(head);
        assert forall|i: int| 0 <= i < 8 implies head[i] == #[trigger] encoded_proof@[i] by {}
    }
    match bincode_byte_vec(encoded_proof) {
        Some(p) => pico_proof_words(p.as_slice()),
        None => Err(ProverError::ProofUndecodable),
    }
}

/// Bytes read least significant first are worth zero exactly when each is zero.
pub proof fn lemma_le_value_zero(b: Seq<u8>)
    ensures
        (bytes::le_value(b) == 0) == (forall|i: int| 0 <= i < b.len() ==> b[i] == 0),
    decreases b.len(),
{
    if b.len() > 0 {
        lemma_le_value_zero(b.skip(1));
        if bytes::le_value(b) == 0 {
            assert forall|i: int| 0 <= i < b.len() implies b[i] == 0 by {
                if i > 0 {
                    assert(b.skip(1)[i - 1] == b[i]);
                }
            }
        }
        if forall|i: int| 0 <= i < b.len() ==> b[i] == 0 {
            assert forall|i: int| 0 <= i < b.skip(1).len() implies b.skip(1)[i] == 0 by {
                assert(b.skip(1)[i] == b[i + 1]);
            }
        }
    }
}

} // verus!
