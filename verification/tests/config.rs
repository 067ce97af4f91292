use snp_attestation::stub::ZkCoProcessorType;
use snp_attestation::config::{
    check_encoded_proof_is_empty, digest_bytes, ProverSystemConfig, BoundlessProofType, PicoEnv, PicoProverConfig,
    PicoProvingStrategy, ProgramPico, ProgramRisc0, RiscZeroEnv, RiscZeroProverConfig,
    RiscZeroProvingStrategy, SP1ProverConfig, SP1ProvingStrategy, Sp1Env, DEFAULT_COLLATERAL_WEI,
    DEFAULT_MAX_PRICE_WEI, DEFAULT_MIN_PRICE_WEI,
};

fn s(x: &str) -> Option<String> {
    Some(x.to_string())
}

fn empty_risc0_env() -> RiscZeroEnv {
    RiscZeroEnv {
        strategy: None,
        rpc_url: None,
        private_key: None,
        verifier_program_url: None,
        min_price: None,
        max_price: None,
        timeout: None,
        ramp_up_period: None,
    }
}

#[test]
fn risc0_defaults_from_an_empty_environment() {
    let cfg = RiscZeroProverConfig::from_env(&empty_risc0_env());
    assert_eq!(cfg.strategy, RiscZeroProvingStrategy::Boundless);
    assert_eq!(cfg.proof_type, BoundlessProofType::Groth16);
    assert_eq!(cfg.min_price, None);
    assert_eq!(cfg.effective_min_price(), 100_000);
    assert_eq!(cfg.effective_max_price(), 1_000_000);
    assert_eq!(cfg.effective_collateral(), 10_000_000_000_000_000_000);
    assert_eq!(cfg.effective_timeout(), None);
    assert_eq!(cfg.poll_interval(), 5);
    assert_eq!(DEFAULT_MIN_PRICE_WEI, 100_000);
    assert_eq!(DEFAULT_MAX_PRICE_WEI, 1_000_000);
    assert_eq!(DEFAULT_COLLATERAL_WEI, 10_000_000_000_000_000_000);
}

#[test]
fn risc0_settings_from_the_environment() {
    let mut env = empty_risc0_env();
    env.strategy = s("local");
    env.rpc_url = s("https://rpc");
    env.min_price = s("42");
    env.max_price = s("4x2");
    env.timeout = s("3600");
    env.ramp_up_period = s("-1");
    let cfg = RiscZeroProverConfig::from_env(&env);
    assert_eq!(cfg.strategy, RiscZeroProvingStrategy::Local);
    assert_eq!(cfg.rpc_url, s("https://rpc"));
    assert_eq!(cfg.min_price, Some(42));
    assert_eq!(cfg.max_price, None);
    assert_eq!(cfg.timeout, Some(3600));
    assert_eq!(cfg.ramp_up_period, None);
    assert_eq!(cfg.effective_min_price(), 42);
    assert_eq!(cfg.effective_timeout(), Some((3600, 4200)));
    env.strategy = s("dev");
    assert_eq!(RiscZeroProverConfig::from_env(&env).strategy, RiscZeroProvingStrategy::Dev);
    env.strategy = s("DEV");
    assert_eq!(RiscZeroProverConfig::from_env(&env).strategy, RiscZeroProvingStrategy::Boundless);
}

#[test]
fn sp1_settings_prefer_the_sp1_names() {
    let env = Sp1Env {
        prover: s("cpu"),
        private_key: None,
        network_private_key: s("nk"),
        rpc_url: s("r1"),
        network_rpc_url: s("r2"),
    };
    let cfg = SP1ProverConfig::from_env(&env);
    assert_eq!(cfg.strategy, SP1ProvingStrategy::Local);
    assert_eq!(cfg.private_key, s("nk"));
    assert_eq!(cfg.rpc_url, s("r1"));
    let env = Sp1Env { prover: s("mock"), private_key: None, network_private_key: None, rpc_url: None, network_rpc_url: None };
    assert_eq!(SP1ProverConfig::from_env(&env).strategy, SP1ProvingStrategy::Dev);
    let env = Sp1Env { prover: None, private_key: None, network_private_key: None, rpc_url: None, network_rpc_url: None };
    assert_eq!(SP1ProverConfig::from_env(&env).strategy, SP1ProvingStrategy::Network);
}

#[test]
fn pico_strategy_from_the_environment() {
    let cfg = PicoProverConfig::from_env(&PicoEnv { dev_mode: s("1"), strategy: s("marketplace") });
    assert_eq!(cfg.proving_strategy, PicoProvingStrategy::Dev);
    assert!(cfg.marketplace.is_none());
    let cfg = PicoProverConfig::from_env(&PicoEnv { dev_mode: s("0"), strategy: s("marketplace") });
    assert_eq!(cfg.proving_strategy, PicoProvingStrategy::Marketplace);
    let cfg = PicoProverConfig::from_env(&PicoEnv { dev_mode: None, strategy: s("dev") });
    assert_eq!(cfg.proving_strategy, PicoProvingStrategy::Dev);
    let cfg = PicoProverConfig::from_env(&PicoEnv { dev_mode: None, strategy: None });
    assert_eq!(cfg.proving_strategy, PicoProvingStrategy::Local);
}

static ELF: [u8; 4] = [0x7f, b'E', b'L', b'F'];

#[test]
fn programs_keep_their_image_and_take_a_new_config() {
    let p = ProgramRisc0::new(&ELF, [1, 2, 3, 4, 5, 6, 7, 8], &empty_risc0_env());
    assert_eq!(p.elf(), &ELF[..]);
    assert_eq!(p.image_id(), [1, 2, 3, 4, 5, 6, 7, 8]);
    assert_eq!(p.config().strategy, RiscZeroProvingStrategy::Boundless);
    let mut cfg = p.config().clone();
    cfg.strategy = RiscZeroProvingStrategy::Dev;
    let q = p.with_config(cfg);
    assert_eq!(q.config().strategy, RiscZeroProvingStrategy::Dev);
    assert_eq!(q.image_id(), p.image_id());

    let pico = ProgramPico::new(&ELF, &PicoEnv { dev_mode: None, strategy: None });
    assert_eq!(pico.elf(), &ELF[..]);
    let other = pico.with_config(PicoProverConfig { proving_strategy: PicoProvingStrategy::Dev, marketplace: None });
    assert_eq!(other.config().proving_strategy, PicoProvingStrategy::Dev);
    assert_eq!(other.elf(), &ELF[..]);
}

#[test]
fn encoded_pico_proof_emptiness() {
    assert!(check_encoded_proof_is_empty(&[]));
    assert!(check_encoded_proof_is_empty(&[1, 2, 3, 4, 5, 6, 7]));
    assert!(check_encoded_proof_is_empty(&[0, 0, 0, 0, 0, 0, 0, 0, 9]));
    assert!(!check_encoded_proof_is_empty(&[1, 0, 0, 0, 0, 0, 0, 0]));
    assert!(!check_encoded_proof_is_empty(&[0, 0, 0, 0, 0, 0, 0, 1]));
}

#[test]
fn digest_words_are_laid_out_least_significant_byte_first() {
    let bytes = digest_bytes(&[0x04030201, 0x08070605, 0, 0, 0, 0, 0, 0xffeeddcc]);
    assert_eq!(&bytes[..8], &[1, 2, 3, 4, 5, 6, 7, 8]);
    assert_eq!(&bytes[28..], &[0xcc, 0xdd, 0xee, 0xff]);
    let p = ProgramRisc0::new(&ELF, [0x04030201, 0, 0, 0, 0, 0, 0, 1], &empty_risc0_env());
    let id = p.program_id();
    assert_eq!(&id[..4], &[1, 2, 3, 4]);
    assert_eq!(&id[28..], &[1, 0, 0, 0]);
    assert_eq!(p.verify_proof_id(), id);
}

#[test]
fn zk_type_follows_the_prover_system() {
    let sp1 = SP1ProverConfig::from_env(&Sp1Env { prover: None, private_key: None, network_private_key: None, rpc_url: None, network_rpc_url: None });
    assert_eq!(ProverSystemConfig::Succinct(sp1).zk_type(), ZkCoProcessorType::Succinct);
    let r0 = RiscZeroProverConfig::from_env(&empty_risc0_env());
    assert_eq!(ProverSystemConfig::RiscZero(r0).zk_type(), ZkCoProcessorType::RiscZero);
    let pico = PicoProverConfig::from_env(&PicoEnv { dev_mode: None, strategy: None });
    assert_eq!(ProverSystemConfig::Pico(pico).zk_type(), ZkCoProcessorType::Pico);
}
