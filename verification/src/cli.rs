//! Command-line settings of the attestation prover and how they become a
//! prover configuration.
use vstd::prelude::*;

use crate::config::{
    clone_opt, BoundlessProofType, MarketplaceConfig, PicoProverConfig, PicoProvingStrategy,
    ProverSystemConfig, RiscZeroProverConfig, RiscZeroProvingStrategy, SP1ProverConfig,
    SP1ProvingStrategy,
};

verus! {

/// Errors of the command-line settings.
#[derive(Debug)]
pub enum CliError {
    /// "--elf-url is required for marketplace strategy"
    ElfUrlRequired,
}

/// Proof type for Boundless proving (CLI enum).
#[derive(Debug, Clone, Copy, PartialEq, Eq, Structural)]
pub enum BoundlessProofTypeCli {
    Groth16,
    Merkle,
}

impl Default for BoundlessProofTypeCli {
    fn default() -> (r: Self)
        ensures
            r == BoundlessProofTypeCli::Groth16,
    {
        BoundlessProofTypeCli::Groth16
    }
}

#[derive(Debug, Clone, Copy, PartialEq, Eq, Structural)]
pub enum Sp1ProvingStrategyCli {
    Dev,
    Local,
    Network,
}

impl Default for Sp1ProvingStrategyCli {
    fn default() -> (r: Self)
        ensures
            r == Sp1ProvingStrategyCli::Network,
    {
        Sp1ProvingStrategyCli::Network
    }
}

#[derive(Debug, Clone, Copy, PartialEq, Eq, Structural)]
pub enum Risc0ProvingStrategyCli {
    Dev,
    Local,
    Boundless,
}

impl Default for Risc0ProvingStrategyCli {
    fn default() -> (r: Self)
        ensures
            r == Risc0ProvingStrategyCli::Boundless,
    {
        Risc0ProvingStrategyCli::Boundless
    }
}

#[derive(Debug, Clone, Copy, PartialEq, Eq, Structural)]
pub enum PicoProvingStrategyCli {
    Dev,
    Local,
    Marketplace,
}

impl Default for PicoProvingStrategyCli {
    fn default() -> (r: Self)
        ensures
            r == PicoProvingStrategyCli::Marketplace,
    {
        PicoProvingStrategyCli::Marketplace
    }
}

/// Shared arguments common to all prover backends.
#[derive(Debug, Clone, Copy)]
pub struct SharedProverArgs {
    /// Enable development mode for mock proof generation (compatibility override).
    pub dev: bool,
}

/// SP1-specific prover arguments.
#[derive(Debug, Clone)]
pub struct Sp1Args {
    pub shared: SharedProverArgs,
    /// SP1 proving strategy: dev, local, or network.
    pub strategy: Sp1ProvingStrategyCli,
    /// Private key for SP1 network prover.
    pub sp1_private_key: Option<String>,
    /// RPC URL for SP1 prover network.
    pub sp1_rpc_url: Option<String>,
}

/// RISC0-specific prover arguments.
#[derive(Debug, Clone)]
pub struct Risc0Args {
    pub shared: SharedProverArgs,
    /// RISC0 proving strategy: dev, local, or boundless.
    pub strategy: Risc0ProvingStrategyCli,
    /// Boundless RPC URL for RISC0 proving.
    pub boundless_rpc_url: Option<String>,
    /// Boundless wallet private key (hex-encoded).
    pub boundless_private_key: Option<String>,
    /// Verifier program URL for pre-uploaded ELF (optional, uploads to IPFS if not set).
    pub verifier_program_url: Option<String>,
    /// Proof type for Boundless proving (groth16 or merkle).
    pub proof_type: BoundlessProofTypeCli,
    /// Minimum price in wei per cycle.
    pub min_price: Option<u128>,
    /// Maximum price in wei per cycle.
    pub max_price: Option<u128>,
    /// Timeout in seconds.
    pub timeout: Option<u32>,
    /// Ramp-up period in seconds.
    pub ramp_up_period: Option<u32>,
}

/// Pico-specific prover arguments (the fee multiplier, a float, stays with the
/// command line).
#[derive(Debug, Clone)]
pub struct PicoArgs {
    pub shared: SharedProverArgs,
    /// Pico proving strategy: dev, local, or marketplace.
    pub strategy: PicoProvingStrategyCli,
    /// Base chain RPC URL for Brevis marketplace.
    pub pico_rpc_url: Option<String>,
    /// Wallet private key for Brevis marketplace transactions (hex-encoded).
    pub prover_key: Option<String>,
    /// URL where the Pico ELF binary is hosted (e.g., IPFS).
    pub elf_url: Option<String>,
    /// URL where input data is hosted (optional, for large inputs).
    pub input_url: Option<String>,
    /// Maximum fee in BREV tokens (wei). Auto-estimated if not set.
    pub max_fee: Option<u128>,
    /// Minimum prover stake required (wei). Queried on-chain if not set.
    pub min_stake: Option<u128>,
    /// Request duration in seconds (default: 86400 = 24h).
    pub duration: u64,
    /// Poll interval in seconds for marketplace proof status (default: 30).
    pub poll_interval: u64,
}

/// Backend selection as a subcommand, with each variant carrying its own arguments.
#[derive(Debug, Clone)]
pub enum BackendSubcommand {
    /// Use the SP1 zkVM for proof generation.
    Sp1(Sp1Args),
    /// Use the RISC0 zkVM for proof generation.
    Risc0(Risc0Args),
    /// Use the Pico zkVM for proof generation.
    Pico(PicoArgs),
}

fn copy_sp1_args(a: &Sp1Args) -> (r: Sp1Args)
    ensures
        r == *a,
{
    Sp1Args {
        shared: a.shared,
        strategy: a.strategy,
        sp1_private_key: clone_opt(&a.sp1_private_key),
        sp1_rpc_url: clone_opt(&a.sp1_rpc_url),
    }
}

fn copy_risc0_args(a: &Risc0Args) -> (r: Risc0Args)
    ensures
        r == *a,
{
    Risc0Args {
        shared: a.shared,
        strategy: a.strategy,
        boundless_rpc_url: clone_opt(&a.boundless_rpc_url),
        boundless_private_key: clone_opt(&a.boundless_private_key),
        verifier_program_url: clone_opt(&a.verifier_program_url),
        proof_type: a.proof_type,
        min_price: a.min_price,
        max_price: a.max_price,
        timeout: a.timeout,
        ramp_up_period: a.ramp_up_period,
    }
}

fn copy_pico_args(a: &PicoArgs) -> (r: PicoArgs)
    ensures
        r == *a,
{
    PicoArgs {
        shared: a.shared,
        strategy: a.strategy,
        pico_rpc_url: clone_opt(&a.pico_rpc_url),
        prover_key: clone_opt(&a.prover_key),
        elf_url: clone_opt(&a.elf_url),
        input_url: clone_opt(&a.input_url),
        max_fee: a.max_fee,
        min_stake: a.min_stake,
        duration: a.duration,
        poll_interval: a.poll_interval,
    }
}

/// A Unicode white-space character (the `White_Space` property, as
/// `char::is_whitespace` tests it).
pub open spec fn is_white_space(c: char) -> bool {
    let u = c as u32;
    (9 <= u <= 13) || u == 32 || u == 0x85 || u == 0xa0 || u == 0x1680 || (0x2000 <= u <= 0x200a)
        || u == 0x2028 || u == 0x2029 || u == 0x202f || u == 0x205f || u == 0x3000
}

/// Text that is empty once white space is trimmed from both ends.
pub open spec fn is_blank(s: Seq<char>) -> bool {
    forall|i: int| 0 <= i < s.len() ==> is_white_space(#[trigger] s[i])
}

/// Whether the text is empty once white space is trimmed.
pub fn is_blank_str(s: &str) -> (r: bool)
    ensures
        r == is_blank(s@),
{
    let n = s.unicode_len();
    for i in 0..n
        invariant
            n == s@.len(),
            forall|k: int| 0 <= k < i ==> is_white_space(#[trigger] s@[k]),
    {
        let c = s.get_char(i);
        let u = c as u32;
        let ws = (9 <= u && u <= 13) || u == 32 || u == 0x85 || u == 0xa0 || u == 0x1680 || (0x2000
            <= u && u <= 0x200a) || u == 0x2028 || u == 0x2029 || u == 0x202f || u == 0x205f
            || u == 0x3000;
        if !ws {
            return false;
        }
    }
    true
}

/// The SP1 strategy that the arguments select (`--dev` overrides).
pub open spec fn spec_sp1_strategy_of(args: Sp1Args) -> SP1ProvingStrategy {
    if args.shared.dev {
        SP1ProvingStrategy::Dev
    } else {
        match args.strategy {
            Sp1ProvingStrategyCli::Dev => SP1ProvingStrategy::Dev,
            Sp1ProvingStrategyCli::Local => SP1ProvingStrategy::Local,
            Sp1ProvingStrategyCli::Network => SP1ProvingStrategy::Network,
        }
    }
}

/// The RISC Zero strategy that the arguments select (`--dev` overrides).
pub open spec fn spec_risc0_strategy_of(args: Risc0Args) -> RiscZeroProvingStrategy {
    if args.shared.dev {
        RiscZeroProvingStrategy::Dev
    } else {
        match args.strategy {
            Risc0ProvingStrategyCli::Dev => RiscZeroProvingStrategy::Dev,
            Risc0ProvingStrategyCli::Local => RiscZeroProvingStrategy::Local,
            Risc0ProvingStrategyCli::Boundless => RiscZeroProvingStrategy::Boundless,
        }
    }
}

/// The Pico strategy that the arguments select (`--dev` overrides).
pub open spec fn spec_pico_strategy_of(args: PicoArgs) -> PicoProvingStrategy {
    if args.shared.dev {
        PicoProvingStrategy::Dev
    } else {
        match args.strategy {
            PicoProvingStrategyCli::Dev => PicoProvingStrategy::Dev,
            PicoProvingStrategyCli::Local => PicoProvingStrategy::Local,
            PicoProvingStrategyCli::Marketplace => PicoProvingStrategy::Marketplace,
        }
    }
}

/// The configuration that the arguments select, where the selection can be
/// made at time `now` (seconds since the epoch).
pub open spec fn spec_prover_config(
    cmd: BackendSubcommand,
    now: u64,
    r: Result<ProverSystemConfig, CliError>,
) -> bool {
    match cmd {
        BackendSubcommand::Sp1(a) => r matches Ok(ProverSystemConfig::Succinct(c)) && c.strategy
            == spec_sp1_strategy_of(a) && c.private_key == a.sp1_private_key && c.rpc_url
            == a.sp1_rpc_url,
        BackendSubcommand::Risc0(a) => r matches Ok(ProverSystemConfig::RiscZero(c)) && c.strategy
            == spec_risc0_strategy_of(a) && c.rpc_url == a.boundless_rpc_url && c.private_key
            == a.boundless_private_key && c.verifier_program_url == a.verifier_program_url
            && c.proof_type == (match a.proof_type {
            BoundlessProofTypeCli::Merkle => BoundlessProofType::Merkle,
            BoundlessProofTypeCli::Groth16 => BoundlessProofType::Groth16,
        }) && c.min_price == a.min_price && c.max_price == a.max_price && c.timeout == a.timeout
            && c.ramp_up_period == a.ramp_up_period,
        BackendSubcommand::Pico(a) => {
            if spec_pico_strategy_of(a) != PicoProvingStrategy::Marketplace {
                r matches Ok(ProverSystemConfig::Pico(c)) && c.proving_strategy
                    == spec_pico_strategy_of(a) && c.marketplace is None
            } else if a.elf_url is None || is_blank(a.elf_url.unwrap()@) {
                r matches Err(CliError::ElfUrlRequired)
            } else {
                r matches Ok(ProverSystemConfig::Pico(c)) && c.proving_strategy
                    == PicoProvingStrategy::Marketplace && c.marketplace is Some && ({
                    let m = c.marketplace.unwrap();
                    &&& m.rpc_url == a.pico_rpc_url
                    &&& m.private_key == a.prover_key
                    &&& m.elf_url == a.elf_url.unwrap()
                    &&& m.input_url == a.input_url
                    &&& m.brevis_market_address is None
                    &&& m.brev_token_address is None
                    &&& m.staking_controller_address is None
                    &&& m.max_fee == a.max_fee
                    &&& m.min_stake == a.min_stake
                    &&& m.deadline == now + a.duration
                    &&& m.nonce == now
                    &&& m.version is None
                    &&& m.poll_interval == Some(a.poll_interval)
                })
            }
        },
    }
}

/// SP1 arguments always give an SP1 configuration; its strategy is Dev under
/// `--dev`, and otherwise the one named by `--strategy`.
pub proof fn lemma_sp1_cli_strategy(a: Sp1Args, now: u64, r: Result<ProverSystemConfig, CliError>)
    requires
        spec_prover_config(BackendSubcommand::Sp1(a), now, r),
    ensures
        r matches Ok(ProverSystemConfig::Succinct(c)) && (a.shared.dev ==> c.strategy
            == SP1ProvingStrategy::Dev) && (!a.shared.dev && a.strategy == Sp1ProvingStrategyCli::Dev
            ==> c.strategy == SP1ProvingStrategy::Dev) && (!a.shared.dev && a.strategy
            == Sp1ProvingStrategyCli::Local ==> c.strategy == SP1ProvingStrategy::Local) && (
        !a.shared.dev && a.strategy == Sp1ProvingStrategyCli::Network ==> c.strategy
            == SP1ProvingStrategy::Network),
{
}

/// RISC0 arguments always give a RISC0 configuration; its strategy is Dev under
/// `--dev`, and otherwise the one named by `--strategy`; its proof type is the
/// one named by `--proof-type`.
pub proof fn lemma_risc0_cli_strategy(a: Risc0Args, now: u64, r: Result<ProverSystemConfig, CliError>)
    requires
        spec_prover_config(BackendSubcommand::Risc0(a), now, r),
    ensures
        r matches Ok(ProverSystemConfig::RiscZero(c)) && (a.shared.dev ==> c.strategy
            == RiscZeroProvingStrategy::Dev) && (!a.shared.dev && a.strategy
            == Risc0ProvingStrategyCli::Dev ==> c.strategy == RiscZeroProvingStrategy::Dev) && (
        !a.shared.dev && a.strategy == Risc0ProvingStrategyCli::Local ==> c.strategy
            == RiscZeroProvingStrategy::Local) && (!a.shared.dev && a.strategy
            == Risc0ProvingStrategyCli::Boundless ==> c.strategy
            == RiscZeroProvingStrategy::Boundless) && (a.proof_type == BoundlessProofTypeCli::Groth16
            ==> c.proof_type == BoundlessProofType::Groth16) && (a.proof_type
            == BoundlessProofTypeCli::Merkle ==> c.proof_type == BoundlessProofType::Merkle),
{
}

/// Pico arguments give a Pico configuration whose strategy is Dev under `--dev`
/// and otherwise the one named by `--strategy`; they fail only for the
/// marketplace strategy without an ELF URL that holds more than white space.
pub proof fn lemma_pico_cli_strategy(a: PicoArgs, now: u64, r: Result<ProverSystemConfig, CliError>)
    requires
        spec_prover_config(BackendSubcommand::Pico(a), now, r),
    ensures
        r is Err <==> (!a.shared.dev && a.strategy == PicoProvingStrategyCli::Marketplace && (
        a.elf_url is None || is_blank(a.elf_url.unwrap()@))),
        r is Err ==> r matches Err(CliError::ElfUrlRequired),
        r is Ok ==> (r matches Ok(ProverSystemConfig::Pico(c)) && (a.shared.dev
            ==> c.proving_strategy == PicoProvingStrategy::Dev) && (!a.shared.dev && a.strategy
            == PicoProvingStrategyCli::Dev ==> c.proving_strategy == PicoProvingStrategy::Dev) && (
        !a.shared.dev && a.strategy == PicoProvingStrategyCli::Local ==> c.proving_strategy
            == PicoProvingStrategy::Local) && (!a.shared.dev && a.strategy
            == PicoProvingStrategyCli::Marketplace ==> c.proving_strategy
            == PicoProvingStrategy::Marketplace) && (c.marketplace is Some
            <==> c.proving_strategy == PicoProvingStrategy::Marketplace)),
{
}

impl BackendSubcommand {
    /// Creates a prover configuration based on the selected backend; `now` is
    /// the current time in seconds since the epoch (the marketplace request's
    /// nonce, and the start of its duration).
    pub fn prover_config(&self, now: u64) -> (r: Result<ProverSystemConfig, CliError>)
        requires
            self matches BackendSubcommand::Pico(a) ==> (!a.shared.dev && a.strategy
                == PicoProvingStrategyCli::Marketplace && (a.elf_url matches Some(u) && !is_blank(
                u@,
            )) ==> now + a.duration <= u64::MAX),
        ensures
            spec_prover_config(*self, now, r),
    {
        match self {
            BackendSubcommand::Sp1(args) => {
                let strategy = if args.shared.dev {
                    SP1ProvingStrategy::Dev
                } else {
                    match args.strategy {
                        Sp1ProvingStrategyCli::Dev => SP1ProvingStrategy::Dev,
                        Sp1ProvingStrategyCli::Local => SP1ProvingStrategy::Local,
                        Sp1ProvingStrategyCli::Network => SP1ProvingStrategy::Network,
                    }
                };
                Ok(
                    ProverSystemConfig::Succinct(
                        SP1ProverConfig {
                            strategy,
                            private_key: clone_opt(&args.sp1_private_key),
                            rpc_url: clone_opt(&args.sp1_rpc_url),
                        },
                    ),
                )
            },
            BackendSubcommand::Risc0(args) => {
                let strategy = if args.shared.dev {
                    RiscZeroProvingStrategy::Dev
                } else {
                    match args.strategy {
                        Risc0ProvingStrategyCli::Dev => RiscZeroProvingStrategy::Dev,
                        Risc0ProvingStrategyCli::Local => RiscZeroProvingStrategy::Local,
                        Risc0ProvingStrategyCli::Boundless => RiscZeroProvingStrategy::Boundless,
                    }
                };
                let proof_type = match args.proof_type {
                    BoundlessProofTypeCli::Merkle => BoundlessProofType::Merkle,
                    BoundlessProofTypeCli::Groth16 => BoundlessProofType::Groth16,
                };
                Ok(
                    ProverSystemConfig::RiscZero(
                        RiscZeroProverConfig {
                            strategy,
                            rpc_url: clone_opt(&args.boundless_rpc_url),
                            private_key: clone_opt(&args.boundless_private_key),
                            verifier_program_url: clone_opt(&args.verifier_program_url),
                            proof_type,
                            min_price: args.min_price,
                            max_price: args.max_price,
                            timeout: args.timeout,
                            ramp_up_period: args.ramp_up_period,
                        },
                    ),
                )
            },
            BackendSubcommand::Pico(args) => {
                let proving_strategy = if args.shared.dev {
                    PicoProvingStrategy::Dev
                } else {
                    match args.strategy {
                        PicoProvingStrategyCli::Dev => PicoProvingStrategy::Dev,
                        PicoProvingStrategyCli::Local => PicoProvingStrategy::Local,
                        PicoProvingStrategyCli::Marketplace => PicoProvingStrategy::Marketplace,
                    }
                };
                let marketplace = if proving_strategy == PicoProvingStrategy::Marketplace {
                    let elf_url = match &args.elf_url {
                        Some(url) => {
                            if is_blank_str(url.as_str()) {
                                return Err(CliError::ElfUrlRequired);
                            }
                            url.clone()
                        },
                        None => {
                            return Err(CliError::ElfUrlRequired);
                        },
                    };
                    Some(
                        MarketplaceConfig {
                            rpc_url: clone_opt(&args.pico_rpc_url),
                            private_key: clone_opt(&args.prover_key),
                            elf_url,
                            input_url: clone_opt(&args.input_url),
                            brevis_market_address: None,
                            brev_token_address: None,
                            staking_controller_address: None,
                            max_fee: args.max_fee,
                            min_stake: args.min_stake,
                            deadline: now + args.duration,
                            nonce: now,
                            version: None,
                            poll_interval: Some(args.poll_interval),
                        },
                    )
                } else {
                    None
                };
                Ok(ProverSystemConfig::Pico(PicoProverConfig { proving_strategy, marketplace }))
            },
        }
    }
}

/// Command-line arguments for configuring smart contract interaction.
#[derive(Debug, Clone)]
pub struct ContractArgs {
    /// The address of the SEVAgentAttestation contract.
    pub contract: Option<[u8; 20]>,
    /// The RPC URL to connect to the Ethereum network.
    pub rpc_url: Option<String>,
    pub private_key: Option<String>,
}

impl ContractArgs {
    /// Checks if the contract configuration is incomplete.
    pub fn empty(&self) -> (r: bool)
        ensures
            r == (self.contract is None || self.rpc_url is None),
    {
        self.contract.is_none() || self.rpc_url.is_none()
    }

    /// What a contract stub is dialled with: nothing where the configuration is
    /// incomplete, else the address, the RPC URL and the optional signing key.
    pub fn stub_target(&self) -> (r: Option<([u8; 20], String, Option<String>)>)
        ensures
            match (self.contract, self.rpc_url) {
                (Some(a), Some(u)) => r matches Some((ra, ru, rk)) && ra == a && ru == u && rk
                    == self.private_key,
                _ => r is None,
            },
    {
        if self.empty() {
            return None;
        }
        match (&self.contract, &self.rpc_url) {
            (Some(a), Some(u)) => Some((*a, u.clone(), clone_opt(&self.private_key))),
            _ => None,
        }
    }
}

#[derive(Debug, Clone)]
pub struct UploadSp1Args {
    pub backend: Sp1Args,
    /// Output file path for storing the program identifier.
    pub out: Option<String>,
}

#[derive(Debug, Clone)]
pub struct UploadRisc0Args {
    pub backend: Risc0Args,
    /// Output file path for storing the program identifier.
    pub out: Option<String>,
}

#[derive(Debug, Clone)]
pub struct UploadPicoArgs {
    pub backend: PicoArgs,
    /// Output file path for storing the program identifier.
    pub out: Option<String>,
}

#[derive(Debug, Clone)]
pub enum UploadBackend {
    /// Use the SP1 zkVM.
    Sp1(UploadSp1Args),
    /// Use the RISC0 zkVM.
    Risc0(UploadRisc0Args),
    /// Use the Pico zkVM.
    Pico(UploadPicoArgs),
}

impl UploadBackend {
    /// The output path of whichever backend was chosen.
    pub fn out(&self) -> (r: Option<&String>)
        ensures
            r == match self {
                UploadBackend::Sp1(a) => match a.out {
                    Some(p) => Some(&p),
                    None => None,
                },
                UploadBackend::Risc0(a) => match a.out {
                    Some(p) => Some(&p),
                    None => None,
                },
                UploadBackend::Pico(a) => match a.out {
                    Some(p) => Some(&p),
                    None => None,
                },
            },
    {
        match self {
            UploadBackend::Sp1(a) => a.out.as_ref(),
            UploadBackend::Risc0(a) => a.out.as_ref(),
            UploadBackend::Pico(a) => a.out.as_ref(),
        }
    }

    /// The backend arguments of whichever backend was chosen.
    pub fn as_backend(&self) -> (r: BackendSubcommand)
        ensures
            r == match self {
                UploadBackend::Sp1(a) => BackendSubcommand::Sp1(a.backend),
                UploadBackend::Risc0(a) => BackendSubcommand::Risc0(a.backend),
                UploadBackend::Pico(a) => BackendSubcommand::Pico(a.backend),
            },
    {
        match self {
            UploadBackend::Sp1(a) => BackendSubcommand::Sp1(copy_sp1_args(&a.backend)),
            UploadBackend::Risc0(a) => BackendSubcommand::Risc0(copy_risc0_args(&a.backend)),
            UploadBackend::Pico(a) => BackendSubcommand::Pico(copy_pico_args(&a.backend)),
        }
    }
}

/// The upload command: which backend, and where to write the program identifier.
#[derive(Debug, Clone)]
pub struct UploadCli {
    /// Zero-knowledge proof backend.
    pub backend: UploadBackend,
}

/// The prove command with the SP1 zkVM.
#[derive(Debug, Clone)]
pub struct ProveSp1Args {
    pub backend: Sp1Args,
    /// Path of the attestation report.
    pub report: String,
    /// Output file path for the proof.
    pub out: Option<String>,
    pub contract: ContractArgs,
    pub submit_on_chain: bool,
}

/// The prove command with the RISC0 zkVM.
#[derive(Debug, Clone)]
pub struct ProveRisc0Args {
    pub backend: Risc0Args,
    /// Path of the attestation report.
    pub report: String,
    /// Output file path for the proof.
    pub out: Option<String>,
    pub contract: ContractArgs,
    pub submit_on_chain: bool,
}

/// The prove command with the Pico zkVM.
#[derive(Debug, Clone)]
pub struct ProvePicoArgs {
    pub backend: PicoArgs,
    /// Path of the attestation report.
    pub report: String,
    /// Output file path for the proof.
    pub out: Option<String>,
    pub contract: ContractArgs,
    pub submit_on_chain: bool,
}

/// The prove command's backend, with its arguments.
#[derive(Debug, Clone)]
pub enum ProveBackend {
    /// Use the SP1 zkVM for proof generation.
    Sp1(ProveSp1Args),
    /// Use the RISC0 zkVM for proof generation.
    Risc0(ProveRisc0Args),
    /// Use the Pico zkVM for proof generation.
    Pico(ProvePicoArgs),
}

impl ProveBackend {
    /// The backend arguments of whichever backend was chosen.
    pub fn as_backend(&self) -> (r: BackendSubcommand)
        ensures
            r == match self {
                ProveBackend::Sp1(a) => BackendSubcommand::Sp1(a.backend),
                ProveBackend::Risc0(a) => BackendSubcommand::Risc0(a.backend),
                ProveBackend::Pico(a) => BackendSubcommand::Pico(a.backend),
            },
    {
        match self {
            ProveBackend::Sp1(a) => BackendSubcommand::Sp1(copy_sp1_args(&a.backend)),
            ProveBackend::Risc0(a) => BackendSubcommand::Risc0(copy_risc0_args(&a.backend)),
            ProveBackend::Pico(a) => BackendSubcommand::Pico(copy_pico_args(&a.backend)),
        }
    }

    /// The report path of whichever backend was chosen.
    pub fn report(&self) -> (r: &String)
        ensures
            *r == match self {
                ProveBackend::Sp1(a) => a.report,
                ProveBackend::Risc0(a) => a.report,
                ProveBackend::Pico(a) => a.report,
            },
    {
        match self {
            ProveBackend::Sp1(a) => &a.report,
            ProveBackend::Risc0(a) => &a.report,
            ProveBackend::Pico(a) => &a.report,
        }
    }

    /// The output path of whichever backend was chosen.
    pub fn out(&self) -> (r: Option<&String>)
        ensures
            r == match self {
                ProveBackend::Sp1(a) => match a.out {
                    Some(p) => Some(&p),
                    None => None,
                },
                ProveBackend::Risc0(a) => match a.out {
                    Some(p) => Some(&p),
                    None => None,
                },
                ProveBackend::Pico(a) => match a.out {
                    Some(p) => Some(&p),
                    None => None,
                },
            },
    {
        match self {
            ProveBackend::Sp1(a) => a.out.as_ref(),
            ProveBackend::Risc0(a) => a.out.as_ref(),
            ProveBackend::Pico(a) => a.out.as_ref(),
        }
    }

    /// The contract arguments of whichever backend was chosen.
    pub fn contract(&self) -> (r: &ContractArgs)
        ensures
            *r == match self {
                ProveBackend::Sp1(a) => a.contract,
                ProveBackend::Risc0(a) => a.contract,
                ProveBackend::Pico(a) => a.contract,
            },
    {
        match self {
            ProveBackend::Sp1(a) => &a.contract,
            ProveBackend::Risc0(a) => &a.contract,
            ProveBackend::Pico(a) => &a.contract,
        }
    }

    /// Whether the proof is to be submitted on chain.
    pub fn submit_on_chain(&self) -> (r: bool)
        ensures
            r == match self {
                ProveBackend::Sp1(a) => a.submit_on_chain,
                ProveBackend::Risc0(a) => a.submit_on_chain,
                ProveBackend::Pico(a) => a.submit_on_chain,
            },
    {
        match self {
            ProveBackend::Sp1(a) => a.submit_on_chain,
            ProveBackend::Risc0(a) => a.submit_on_chain,
            ProveBackend::Pico(a) => a.submit_on_chain,
        }
    }
}

/// The prove command.
#[derive(Debug, Clone)]
pub struct ProveCli {
    /// Zero-knowledge proof backend.
    pub backend: ProveBackend,
}

} // verus!
