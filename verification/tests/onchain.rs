use snp_attestation::onchain::{pico_onchain_proof, pico_proof_words, sp1_onchain_proof, Sp1Proof};
use snp_attestation::prover::ProverError;

#[test]
fn sp1_wrapped_proofs_take_four_key_hash_bytes() {
    let mut vkey_hash = [0u8; 32];
    vkey_hash[..4].copy_from_slice(&[0xde, 0xad, 0xbe, 0xef]);
    let p = Sp1Proof::Groth16 { encoded_proof: "0102ff".to_string(), vkey_hash };
    assert_eq!(sp1_onchain_proof(&p).unwrap(), vec![0xde, 0xad, 0xbe, 0xef, 1, 2, 0xff]);
    let p = Sp1Proof::Plonk { encoded_proof: "0xAA".to_string(), vkey_hash };
    assert_eq!(sp1_onchain_proof(&p).unwrap(), vec![0xde, 0xad, 0xbe, 0xef, 0xaa]);
}

#[test]
fn sp1_empty_and_unwrapped_proofs_give_nothing() {
    let p = Sp1Proof::Groth16 { encoded_proof: String::new(), vkey_hash: [1; 32] };
    assert_eq!(sp1_onchain_proof(&p).unwrap(), Vec::<u8>::new());
    assert_eq!(sp1_onchain_proof(&Sp1Proof::Compressed).unwrap(), Vec::<u8>::new());
    assert_eq!(sp1_onchain_proof(&Sp1Proof::Core).unwrap(), Vec::<u8>::new());
}

#[test]
fn sp1_proof_text_must_be_hex() {
    let p = Sp1Proof::Groth16 { encoded_proof: "xyz0".to_string(), vkey_hash: [1; 32] };
    assert!(matches!(sp1_onchain_proof(&p), Err(ProverError::ProofNotHex)));
}

#[test]
fn pico_words_from_full_and_short_proofs() {
    let raw: Vec<u8> = (0..300u32).map(|i| i as u8).collect();
    assert_eq!(pico_proof_words(&raw).unwrap(), raw[..256].to_vec());
    let raw: Vec<u8> = (0..230u32).map(|i| i as u8).collect();
    let words = pico_proof_words(&raw).unwrap();
    assert_eq!(words.len(), 256);
    assert_eq!(&words[..224], &raw[..224]);
    assert_eq!(&words[224..250], &[0u8; 26]);
    assert_eq!(&words[250..], &raw[224..]);
    assert!(matches!(pico_proof_words(&raw[..224]), Err(ProverError::ProofElementCount)));
}

fn bincode_vec(bytes: &[u8]) -> Vec<u8> {
    let mut out = (bytes.len() as u64).to_le_bytes().to_vec();
    out.extend_from_slice(bytes);
    out
}

#[test]
fn pico_onchain_proof_reads_the_encoded_proof() {
    assert_eq!(pico_onchain_proof(&[]).unwrap(), Vec::<u8>::new());
    assert_eq!(pico_onchain_proof(&bincode_vec(&[])).unwrap(), Vec::<u8>::new());
    let raw: Vec<u8> = (0..256u32).map(|i| (i * 7) as u8).collect();
    let mut encoded = bincode_vec(&raw);
    encoded.extend_from_slice(&[1, 2, 3]);
    assert_eq!(pico_onchain_proof(&encoded).unwrap(), raw);
    assert!(matches!(pico_onchain_proof(&bincode_vec(&[5; 100])), Err(ProverError::ProofElementCount)));
    let mut short = bincode_vec(&raw);
    short.truncate(100);
    assert!(matches!(pico_onchain_proof(&short), Err(ProverError::ProofUndecodable)));
}
