use snp_attestation::config::{
    BoundlessProofType, ProgramPico, PicoEnv, RiscZeroProverConfig, RiscZeroProvingStrategy,
};
use snp_attestation::prover::{
    boundless_credentials, boundless_request, decode_private_key, finish_verifier_input,
    fulfillment_journal, gather_results, upload_image, worker_count, FulfillmentData, ProverError,
};

fn cfg() -> RiscZeroProverConfig {
    RiscZeroProverConfig {
        strategy: RiscZeroProvingStrategy::Boundless,
        rpc_url: Some("https://rpc".to_string()),
        private_key: Some("0xabcd".to_string()),
        verifier_program_url: None,
        proof_type: BoundlessProofType::Groth16,
        min_price: None,
        max_price: Some(9),
        timeout: Some(100),
        ramp_up_period: Some(3),
    }
}

#[test]
fn credentials_need_both_settings() {
    let (u, k) = boundless_credentials(&cfg()).unwrap();
    assert_eq!(u, "https://rpc");
    assert_eq!(k, "0xabcd");
    let mut c = cfg();
    c.private_key = None;
    assert!(matches!(boundless_credentials(&c), Err(ProverError::MissingBoundlessPrivateKey)));
    c.rpc_url = None;
    assert!(matches!(boundless_credentials(&c), Err(ProverError::MissingBoundlessRpcUrl)));
}

#[test]
fn private_key_hex_decoding() {
    assert_eq!(decode_private_key("0x01ab").unwrap(), vec![0x01, 0xab]);
    assert_eq!(decode_private_key("0x0x01AB").unwrap(), vec![0x01, 0xab]);
    assert_eq!(decode_private_key("01ab").unwrap(), vec![0x01, 0xab]);
    assert_eq!(decode_private_key("").unwrap(), Vec::<u8>::new());
    assert!(matches!(decode_private_key("0x1"), Err(ProverError::PrivateKeyNotHex)));
    assert!(matches!(decode_private_key("zz"), Err(ProverError::PrivateKeyNotHex)));
}

#[test]
fn boundless_request_from_the_config() {
    let r = boundless_request(&cfg(), Some("https://elf"));
    assert_eq!(r.program_url, Some("https://elf".to_string()));
    assert!(r.groth16);
    assert_eq!(r.offer.min_price, None);
    assert_eq!(r.offer.max_price, Some(9));
    assert_eq!(r.offer.lock_timeout, Some(100));
    assert_eq!(r.offer.timeout, Some(1300));
    assert_eq!(r.offer.ramp_up_period, Some(3));
    assert_eq!(r.offer.lock_collateral, 10_000_000_000_000_000_000);
    assert_eq!(r.client_min_price, 100_000);
    assert_eq!(r.client_max_price, 9);
    let mut c = cfg();
    c.proof_type = BoundlessProofType::Merkle;
    c.timeout = None;
    let r = boundless_request(&c, None);
    assert!(!r.groth16);
    assert_eq!(r.program_url, None);
    assert_eq!(r.offer.timeout, None);
    assert_eq!(r.offer.lock_timeout, None);
}

#[test]
fn fulfillment_journals() {
    let j = fulfillment_journal(FulfillmentData::ImageIdAndJournal { image_id: [0; 32], journal: vec![1, 2] });
    assert_eq!(j.unwrap(), vec![1, 2]);
    assert!(matches!(fulfillment_journal(FulfillmentData::NoData), Err(ProverError::FulfillmentWithoutJournal)));
    assert!(matches!(fulfillment_journal(FulfillmentData::Other), Err(ProverError::UnexpectedFulfillmentData)));
}

#[test]
fn program_id_mismatch_fails_unless_skipped() {
    assert!(matches!(
        finish_verifier_input(1, vec![1], vec![], true, true, false, Some(false), false),
        Err(ProverError::ProgramIdMismatch)
    ));
    let v = finish_verifier_input(1, vec![1], vec![vec![2]], true, true, false, Some(false), true).unwrap();
    assert_eq!(v.timestamp, 1);
    assert_eq!(v.rawReport, vec![1]);
    assert_eq!(v.vekDerChain, vec![vec![2]]);
    assert!(finish_verifier_input(1, vec![1], vec![], true, true, false, Some(true), false).is_ok());
    assert!(finish_verifier_input(1, vec![1], vec![], true, true, false, None, false).is_ok());
}

#[test]
fn chain_not_valid_at_the_timestamp_fails_unless_skipped() {
    assert!(matches!(
        finish_verifier_input(1, vec![1], vec![], true, false, false, None, false),
        Err(ProverError::ChainNotValidAtTimestamp)
    ));
    assert!(matches!(
        finish_verifier_input(1, vec![1], vec![], true, false, false, Some(false), false),
        Err(ProverError::ChainNotValidAtTimestamp)
    ));
    assert!(finish_verifier_input(1, vec![1], vec![], true, false, true, None, false).is_ok());
    assert!(matches!(
        finish_verifier_input(1, vec![1], vec![], true, false, true, Some(false), false),
        Err(ProverError::ProgramIdMismatch)
    ));
}

#[test]
fn chain_that_does_not_verify_always_fails() {
    assert!(matches!(
        finish_verifier_input(1, vec![1], vec![], false, true, true, None, true),
        Err(ProverError::ChainNotVerified)
    ));
    assert!(matches!(
        finish_verifier_input(1, vec![1], vec![], false, false, false, Some(false), false),
        Err(ProverError::ChainNotVerified)
    ));
}

#[test]
fn workers_and_gathering() {
    assert_eq!(worker_count(8, 3), 3);
    assert_eq!(worker_count(2, 3), 2);
    assert_eq!(worker_count(4, 0), 0);
    let ok: Vec<Option<Result<u32, String>>> = vec![Some(Ok(1)), Some(Ok(2)), Some(Ok(3))];
    assert_eq!(gather_results(ok).unwrap(), vec![1, 2, 3]);
    let bad: Vec<Option<Result<u32, String>>> =
        vec![Some(Ok(1)), Some(Err("second".to_string())), Some(Err("third".to_string()))];
    assert_eq!(gather_results(bad).unwrap_err(), "second");
    let none: Vec<Option<Result<u32, String>>> = vec![];
    assert_eq!(gather_results(none).unwrap(), Vec::<u32>::new());
}

static ELF: [u8; 1] = [0];

#[test]
fn pico_upload_is_not_offered() {
    let p = ProgramPico::new(&ELF, &PicoEnv { dev_mode: None, strategy: None });
    assert!(matches!(upload_image(&p), Err(ProverError::PicoUploadReserved)));
}
