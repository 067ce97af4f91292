use snp_attestation::codec::CustomCodec;
use snp_attestation::contract::{
    contract_processor_type, contract_zk_type, verifier_journal, verifier_result,
    ContractError, ContractVerifierJournal,
};
use snp_attestation::stub::{ProcessorType, VerificationResult, VerifierInput, VerifierJournal, ZkCoProcessorType};

#[test]
fn contract_enums_carry_the_same_values() {
    assert_eq!(contract_zk_type(ZkCoProcessorType::Succinct), Ok(ZkCoProcessorType::Succinct));
    assert_eq!(contract_zk_type(ZkCoProcessorType::Invalid), Err(ContractError::InvalidZkCoProcessorType));
    assert_eq!(contract_processor_type(ProcessorType::Genoa), Ok(ProcessorType::Genoa));
    assert_eq!(contract_processor_type(ProcessorType::Invalid), Err(ContractError::InvalidProcessorType));
    assert_eq!(verifier_result(0), Ok(VerificationResult::Success));
    assert_eq!(verifier_result(3), Err(ContractError::InvalidVerificationResult));
}

#[test]
fn contract_journal_becomes_the_verifier_journal() {
    let j = ContractVerifierJournal {
        result: 2,
        timestamp: 9,
        processorModel: 3,
        reportHash: [4; 32],
        certs: vec![[5; 32]],
        certSerials: vec![[6; 20]],
    };
    let v = verifier_journal(j).unwrap();
    assert_eq!(v.result, VerificationResult::InvalidTimestamp);
    assert_eq!(v.timestamp, 9);
    assert_eq!(v.certs, vec![[5; 32]]);
    let bad = ContractVerifierJournal {
        result: 200,
        timestamp: 0,
        processorModel: 0,
        reportHash: [0; 32],
        certs: vec![],
        certSerials: vec![],
    };
    assert!(matches!(verifier_journal(bad), Err(ContractError::InvalidVerificationResult)));
}

#[test]
fn guest_codec_round_trips() {
    let input = VerifierInput { timestamp: 3, rawReport: vec![1; 10], vekDerChain: vec![vec![2; 3]] };
    let back = CustomCodec::decode_input(&CustomCodec::encode_input(&input)).unwrap();
    assert_eq!(back.rawReport, input.rawReport);
    assert_eq!(back.vekDerChain, input.vekDerChain);
    let j = VerifierJournal {
        result: VerificationResult::Success,
        timestamp: 3,
        processorModel: 0,
        reportHash: [1; 32],
        certs: vec![],
        certSerials: vec![],
    };
    let back = CustomCodec::decode_output(&CustomCodec::encode_output(&j)).unwrap();
    assert_eq!(back.reportHash, j.reportHash);
}
