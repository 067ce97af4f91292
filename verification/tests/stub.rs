use snp_attestation::stub::{
    keccak256, ProcessorType, StubError, VerificationResult, VerifierInput, VerifierJournal,
    ZkCoProcessorType,
};

fn sample_journal() -> VerifierJournal {
    VerifierJournal {
        result: VerificationResult::RootCertNotTrusted,
        timestamp: 0x0102030405060708,
        processorModel: 1,
        reportHash: [0xaa; 32],
        certs: vec![[1u8; 32], [2u8; 32]],
        certSerials: vec![[3u8; 20], [4u8; 20]],
    }
}

#[test]
fn journal_layout_is_fixed_header_then_words() {
    let bytes = sample_journal().encode();
    assert_eq!(bytes.len(), 14 + 52 * 2 + 32);
    assert_eq!(bytes[0], 1);
    assert_eq!(&bytes[1..9], &[1, 2, 3, 4, 5, 6, 7, 8]);
    assert_eq!(bytes[9], 1);
    assert_eq!(&bytes[10..14], &[0, 0, 0, 2]);
    assert_eq!(&bytes[14..46], &[1u8; 32]);
    assert_eq!(&bytes[46..78], &[2u8; 32]);
    assert_eq!(&bytes[78..98], &[3u8; 20]);
    assert_eq!(&bytes[98..118], &[4u8; 20]);
    assert_eq!(&bytes[118..150], &[0xaa; 32]);
}

#[test]
fn journal_decode_inverts_encode() {
    let j = sample_journal();
    let back = VerifierJournal::decode(&j.encode()).unwrap();
    assert_eq!(back.result, j.result);
    assert_eq!(back.timestamp, j.timestamp);
    assert_eq!(back.processorModel, j.processorModel);
    assert_eq!(back.reportHash, j.reportHash);
    assert_eq!(back.certs, j.certs);
    assert_eq!(back.certSerials, j.certSerials);
}

#[test]
fn journal_decode_ignores_trailing_bytes() {
    let mut bytes = sample_journal().encode();
    let n = bytes.len();
    bytes.extend_from_slice(&[9, 9, 9]);
    let back = VerifierJournal::decode(&bytes).unwrap();
    assert_eq!(back.encode(), bytes[..n].to_vec());
}

#[test]
fn journal_decode_errors() {
    assert_eq!(
        VerifierJournal::decode(&[0u8; 13]).unwrap_err(),
        StubError::JournalTooShort { got: 13 }
    );
    let mut bytes = sample_journal().encode();
    bytes[0] = 7;
    assert_eq!(
        VerifierJournal::decode(&bytes).unwrap_err(),
        StubError::UnknownVerificationResult { value: 7 }
    );
    let bytes = sample_journal().encode();
    assert_eq!(
        VerifierJournal::decode(&bytes[..100]).unwrap_err(),
        StubError::JournalTooShortForCerts { needed: 150, cert_size: 2, got: 100 }
    );
}

#[test]
fn journal_without_certs() {
    let j = VerifierJournal {
        result: VerificationResult::Success,
        timestamp: 5,
        processorModel: 0,
        reportHash: [7; 32],
        certs: vec![],
        certSerials: vec![],
    };
    let bytes = j.encode();
    assert_eq!(bytes.len(), 46);
    let back = VerifierJournal::decode(&bytes).unwrap();
    assert_eq!(back.result, VerificationResult::Success);
    assert_eq!(back.reportHash, [7; 32]);
}

#[test]
fn verifier_input_decode_inverts_encode() {
    let input = VerifierInput {
        timestamp: 1_700_000_000,
        rawReport: vec![1, 2, 3, 4, 5],
        vekDerChain: vec![vec![0x30, 0x82], vec![], vec![9; 40]],
    };
    let bytes = input.encode();
    let back = VerifierInput::decode(&bytes).unwrap();
    assert_eq!(back.timestamp, input.timestamp);
    assert_eq!(back.rawReport, input.rawReport);
    assert_eq!(back.vekDerChain, input.vekDerChain);
}

#[test]
fn verifier_input_abi_layout() {
    let input = VerifierInput { timestamp: 1, rawReport: vec![0xab], vekDerChain: vec![] };
    let bytes = input.encode();
    // a dynamic tuple: its offset, then the head (timestamp, two offsets), then the tails
    assert_eq!(bytes.len(), 32 * 7);
    assert_eq!(bytes[31], 0x20);
    assert_eq!(bytes[63], 1);
    assert_eq!(bytes[95], 0x60);
    assert_eq!(bytes[127], 0xa0);
    assert_eq!(bytes[159], 1);
    assert_eq!(bytes[160], 0xab);
    assert_eq!(bytes[223], 0);
}

#[test]
fn verifier_input_decode_rejects_garbage() {
    assert_eq!(VerifierInput::decode(&[1, 2, 3]).unwrap_err(), StubError::VerifierInputDecode);
}

#[test]
fn keccak256_known_digests() {
    assert_eq!(
        keccak256(b""),
        [
            0xc5, 0xd2, 0x46, 0x01, 0x86, 0xf7, 0x23, 0x3c, 0x92, 0x7e, 0x7d, 0xb2, 0xdc, 0xc7,
            0x03, 0xc0, 0xe5, 0x00, 0xb6, 0x53, 0xca, 0x82, 0x27, 0x3b, 0x7b, 0xfa, 0xd8, 0x04,
            0x5d, 0x85, 0xa4, 0x70
        ]
    );
    assert_eq!(
        keccak256(b"abc"),
        [
            0x4e, 0x03, 0x65, 0x7a, 0xea, 0x45, 0xa9, 0x4f, 0xc7, 0xd4, 0x7b, 0xa8, 0x26, 0xc8,
            0xd6, 0x67, 0xc0, 0xd1, 0xe6, 0xe3, 0x3a, 0x64, 0xa0, 0x36, 0xec, 0x44, 0xf5, 0x8f,
            0xa1, 0x2d, 0x6c, 0x45
        ]
    );
}

#[test]
fn processor_type_codes_and_names() {
    assert_eq!(ProcessorType::Milan.code(), 0);
    assert_eq!(ProcessorType::Siena.code(), 3);
    assert_eq!(ProcessorType::from_code(2).unwrap(), ProcessorType::Bergamo);
    assert_eq!(ProcessorType::from_code(4).unwrap_err(), StubError::UnknownProcessorModel);
    assert_eq!(ProcessorType::Genoa.to_str().unwrap(), "Genoa");
    assert_eq!(ProcessorType::Invalid.to_str().unwrap_err(), StubError::UnknownProcessorModel);
    assert_eq!(ProcessorType::from_str("Siena").unwrap(), ProcessorType::Siena);
    assert_eq!(ProcessorType::from_str("siena").unwrap_err(), StubError::UnknownProcessorName);
    for p in [ProcessorType::Milan, ProcessorType::Genoa, ProcessorType::Bergamo, ProcessorType::Siena] {
        assert_eq!(ProcessorType::from_code(p.code()).unwrap(), p);
        assert_eq!(ProcessorType::from_str(p.to_str().unwrap()).unwrap(), p);
    }
}

#[test]
fn co_processor_codes_follow_the_contract() {
    assert_eq!(ZkCoProcessorType::NoCoProcessor.code(), 0);
    assert_eq!(ZkCoProcessorType::RiscZero.code(), 1);
    assert_eq!(ZkCoProcessorType::Succinct.code(), 2);
    assert_eq!(ZkCoProcessorType::Pico.code(), 3);
    assert_eq!(ZkCoProcessorType::from_code(2), Some(ZkCoProcessorType::Succinct));
    assert_eq!(ZkCoProcessorType::from_code(4), None);
    assert_eq!(VerificationResult::from_code(2), Some(VerificationResult::InvalidTimestamp));
    assert_eq!(VerificationResult::from_code(3), None);
}
