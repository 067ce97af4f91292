use snp_attestation::cli::{
    is_blank_str, BackendSubcommand, BoundlessProofTypeCli, CliError, ContractArgs, PicoArgs,
    PicoProvingStrategyCli, ProveBackend, ProveRisc0Args, Risc0Args, Risc0ProvingStrategyCli,
    SharedProverArgs, Sp1Args, Sp1ProvingStrategyCli, UploadBackend, UploadPicoArgs, UploadSp1Args,
};
use snp_attestation::config::{
    BoundlessProofType, PicoProvingStrategy, ProverSystemConfig, RiscZeroProvingStrategy,
    SP1ProvingStrategy,
};

fn sp1_args(dev: bool, strategy: Sp1ProvingStrategyCli) -> Sp1Args {
    Sp1Args {
        shared: SharedProverArgs { dev },
        strategy,
        sp1_private_key: Some("0xkey".to_string()),
        sp1_rpc_url: None,
    }
}

fn risc0_args() -> Risc0Args {
    Risc0Args {
        shared: SharedProverArgs { dev: false },
        strategy: Risc0ProvingStrategyCli::default(),
        boundless_rpc_url: Some("https://rpc".to_string()),
        boundless_private_key: None,
        verifier_program_url: None,
        proof_type: BoundlessProofTypeCli::Merkle,
        min_price: Some(7),
        max_price: None,
        timeout: Some(60),
        ramp_up_period: None,
    }
}

fn pico_args(elf_url: Option<&str>) -> PicoArgs {
    PicoArgs {
        shared: SharedProverArgs { dev: false },
        strategy: PicoProvingStrategyCli::default(),
        pico_rpc_url: None,
        prover_key: Some("pk".to_string()),
        elf_url: elf_url.map(|u| u.to_string()),
        input_url: None,
        max_fee: Some(5),
        min_stake: None,
        duration: 86400,
        poll_interval: 30,
    }
}

#[test]
fn cli_defaults() {
    assert_eq!(Sp1ProvingStrategyCli::default(), Sp1ProvingStrategyCli::Network);
    assert_eq!(Risc0ProvingStrategyCli::default(), Risc0ProvingStrategyCli::Boundless);
    assert_eq!(PicoProvingStrategyCli::default(), PicoProvingStrategyCli::Marketplace);
    assert_eq!(BoundlessProofTypeCli::default(), BoundlessProofTypeCli::Groth16);
}

#[test]
fn sp1_config_and_dev_override() {
    let cmd = BackendSubcommand::Sp1(sp1_args(false, Sp1ProvingStrategyCli::Local));
    match cmd.prover_config(0).unwrap() {
        ProverSystemConfig::Succinct(c) => {
            assert_eq!(c.strategy, SP1ProvingStrategy::Local);
            assert_eq!(c.private_key, Some("0xkey".to_string()));
            assert_eq!(c.rpc_url, None);
        }
        _ => panic!("expected an SP1 configuration"),
    }
    let cmd = BackendSubcommand::Sp1(sp1_args(true, Sp1ProvingStrategyCli::Network));
    match cmd.prover_config(0).unwrap() {
        ProverSystemConfig::Succinct(c) => assert_eq!(c.strategy, SP1ProvingStrategy::Dev),
        _ => panic!("expected an SP1 configuration"),
    }
}

#[test]
fn risc0_config_carries_the_offer_settings() {
    let cmd = BackendSubcommand::Risc0(risc0_args());
    match cmd.prover_config(0).unwrap() {
        ProverSystemConfig::RiscZero(c) => {
            assert_eq!(c.strategy, RiscZeroProvingStrategy::Boundless);
            assert_eq!(c.proof_type, BoundlessProofType::Merkle);
            assert_eq!(c.min_price, Some(7));
            assert_eq!(c.timeout, Some(60));
            assert_eq!(c.rpc_url, Some("https://rpc".to_string()));
        }
        _ => panic!("expected a RISC0 configuration"),
    }
}

#[test]
fn pico_marketplace_needs_an_elf_url() {
    let cmd = BackendSubcommand::Pico(pico_args(None));
    assert!(matches!(cmd.prover_config(1000), Err(CliError::ElfUrlRequired)));
    let cmd = BackendSubcommand::Pico(pico_args(Some(" \t ")));
    assert!(matches!(cmd.prover_config(1000), Err(CliError::ElfUrlRequired)));
    let cmd = BackendSubcommand::Pico(pico_args(Some("ipfs://elf")));
    match cmd.prover_config(1000).unwrap() {
        ProverSystemConfig::Pico(c) => {
            assert_eq!(c.proving_strategy, PicoProvingStrategy::Marketplace);
            let m = c.marketplace.unwrap();
            assert_eq!(m.elf_url, "ipfs://elf");
            assert_eq!(m.deadline, 1000 + 86400);
            assert_eq!(m.nonce, 1000);
            assert_eq!(m.poll_interval, Some(30));
            assert_eq!(m.max_fee, Some(5));
            assert_eq!(m.private_key, Some("pk".to_string()));
        }
        _ => panic!("expected a Pico configuration"),
    }
}

#[test]
fn pico_local_has_no_marketplace() {
    let mut a = pico_args(None);
    a.strategy = PicoProvingStrategyCli::Local;
    match BackendSubcommand::Pico(a).prover_config(0).unwrap() {
        ProverSystemConfig::Pico(c) => {
            assert_eq!(c.proving_strategy, PicoProvingStrategy::Local);
            assert!(c.marketplace.is_none());
        }
        _ => panic!("expected a Pico configuration"),
    }
}

#[test]
fn blank_text() {
    assert!(is_blank_str(""));
    assert!(is_blank_str(" \n\t\u{3000}"));
    assert!(!is_blank_str(" a "));
}

#[test]
fn contract_args() {
    let none = ContractArgs { contract: None, rpc_url: Some("http://localhost:8545".to_string()), private_key: None };
    assert!(none.empty());
    assert!(none.stub_target().is_none());
    let full = ContractArgs {
        contract: Some([0x11; 20]),
        rpc_url: Some("http://localhost:8545".to_string()),
        private_key: Some("k".to_string()),
    };
    assert!(!full.empty());
    let (addr, url, key) = full.stub_target().unwrap();
    assert_eq!(addr, [0x11; 20]);
    assert_eq!(url, "http://localhost:8545");
    assert_eq!(key, Some("k".to_string()));
}

#[test]
fn upload_backend_accessors() {
    let up = UploadBackend::Sp1(UploadSp1Args { backend: sp1_args(false, Sp1ProvingStrategyCli::Dev), out: Some("id.json".to_string()) });
    assert_eq!(up.out(), Some(&"id.json".to_string()));
    assert!(matches!(up.as_backend(), BackendSubcommand::Sp1(a) if a.strategy == Sp1ProvingStrategyCli::Dev));
    let up = UploadBackend::Pico(UploadPicoArgs { backend: pico_args(None), out: None });
    assert_eq!(up.out(), None);
    assert!(matches!(up.as_backend(), BackendSubcommand::Pico(a) if a.duration == 86400));
}

#[test]
fn prove_backend_accessors() {
    let pb = ProveBackend::Risc0(ProveRisc0Args {
        backend: risc0_args(),
        report: "report.json".to_string(),
        out: None,
        contract: ContractArgs { contract: None, rpc_url: None, private_key: None },
        submit_on_chain: true,
    });
    assert_eq!(pb.report(), "report.json");
    assert_eq!(pb.out(), None);
    assert!(pb.submit_on_chain());
    assert!(pb.contract().empty());
    assert!(matches!(pb.as_backend(), BackendSubcommand::Risc0(a) if a.min_price == Some(7)));
}
