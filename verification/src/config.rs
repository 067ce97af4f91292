//! Configuration of the three zkVM provers (RISC Zero, SP1, Pico): proving
//! strategies, the settings read from the environment, and the offer values of
//! Boundless proof requests.
use alloy_primitives::utils::parse_units;
use vstd::prelude::*;
use vstd::string::StringSliceAdditionalSpecFns;

use crate::stub::ZkCoProcessorType;
use crate::text;

verus! {

/// Whether the optional text is present and equal to `lit`.
pub open spec fn spec_opt_is(s: Option<String>, lit: Seq<char>) -> bool {
    s matches Some(x) && x@ == lit
}

/// Whether the optional text is present and equal to `lit`.
pub fn opt_is(s: &Option<String>, lit: &str) -> (r: bool)
    ensures
        r == spec_opt_is(*s, lit@),
{
    match s {
        Some(x) => text::str_eq(x.as_str(), lit),
        None => false,
    }
}

/// The `u128` that an optional setting's text gives, if any.
pub open spec fn spec_opt_u128(s: Option<String>) -> Option<u128> {
    match s {
        Some(x) => text::spec_parse_u128(vstd::utf8::encode_utf8(x@)),
        None => None,
    }
}

/// The `u32` that an optional setting's text gives, if any.
pub open spec fn spec_opt_u32(s: Option<String>) -> Option<u32> {
    match s {
        Some(x) => text::spec_parse_u32(vstd::utf8::encode_utf8(x@)),
        None => None,
    }
}

fn opt_u128(s: &Option<String>) -> (r: Option<u128>)
    ensures
        r == spec_opt_u128(*s),
{
    match s {
        Some(x) => text::parse_u128(x.as_str()),
        None => None,
    }
}

fn opt_u32(s: &Option<String>) -> (r: Option<u32>)
    ensures
        r == spec_opt_u32(*s),
{
    match s {
        Some(x) => text::parse_u32(x.as_str()),
        None => None,
    }
}

/// A copy of an optional text.
pub fn clone_opt(s: &Option<String>) -> (r: Option<String>)
    ensures
        r == *s,
{
    match s {
        Some(x) => Some(x.clone()),
        None => None,
    }
}

/// The first of two optional settings that is present.
fn first_present(a: &Option<String>, b: &Option<String>) -> (r: Option<String>)
    ensures
        r == (if a is Some {
            *a
        } else {
            *b
        }),
{
    if a.is_some() {
        clone_opt(a)
    } else {
        clone_opt(b)
    }
}

/// Text made of ASCII characters only. (`parse_units` cuts the decimal part of
/// an amount at a byte position, which is a character boundary in such text.)
pub open spec fn is_ascii_text(s: Seq<char>) -> bool {
    forall|i: int| 0 <= i < s.len() ==> (s[i] as u32) < 128
}

/// The wei amount that `amount` of `units` stands for, where it parses and fits in a `u128`.
pub uninterp spec fn units_in_wei(amount: Seq<char>, units: Seq<char>) -> Option<u128>;

/// Calls `alloy_primitives::utils::parse_units` ("parses a decimal number and
/// multiplies it with 10^units") and converts the result to `u128`, giving
/// `None` on a parse error or where the value does not fit.
/// Trusted: the result is the named value; for the three amounts that the
/// offer defaults use, it is that amount times 10^9 (gwei) or 10^18 (ether).
#[verifier::external_body]
fn parse_units_wei(amount: &str, units: &str) -> (r: Option<u128>)
    requires
        is_ascii_text(amount@),
    ensures
        r == units_in_wei(amount@, units@),
        amount@ == "0.0001"@ && units@ == "gwei"@ ==> r == Some(100_000u128),
        amount@ == "0.001"@ && units@ == "gwei"@ ==> r == Some(1_000_000u128),
        amount@ == "10"@ && units@ == "ether"@ ==> r == Some(10_000_000_000_000_000_000u128),
{
    match parse_units(amount, units) {
        Ok(value) => u128::try_from(value).ok(),
        Err(_) => None,
    }
}

/// Proof type for Boundless network proving.
#[derive(Debug, Clone, Copy, PartialEq, Eq, Structural)]
pub enum BoundlessProofType {
    /// Groth16 proof - on-chain verifiable.
    Groth16,
    /// Merkle proof.
    Merkle,
}

impl Default for BoundlessProofType {
    fn default() -> (r: Self)
        ensures
            r == BoundlessProofType::Groth16,
    {
        BoundlessProofType::Groth16
    }
}

/// Where RISC Zero proofs are made.
#[derive(Debug, Clone, Copy, PartialEq, Eq, Structural)]
pub enum RiscZeroProvingStrategy {
    Dev,
    Local,
    Boundless,
}

impl Default for RiscZeroProvingStrategy {
    fn default() -> (r: Self)
        ensures
            r == RiscZeroProvingStrategy::Boundless,
    {
        RiscZeroProvingStrategy::Boundless
    }
}

/// The environment settings that the RISC Zero prover reads, as text.
pub struct RiscZeroEnv {
    /// RISC0_STRATEGY
    pub strategy: Option<String>,
    /// BOUNDLESS_RPC_URL
    pub rpc_url: Option<String>,
    /// BOUNDLESS_PRIVATE_KEY
    pub private_key: Option<String>,
    /// BOUNDLESS_VERIFIER_PROGRAM_URL
    pub verifier_program_url: Option<String>,
    /// BOUNDLESS_MIN_PRICE
    pub min_price: Option<String>,
    /// BOUNDLESS_MAX_PRICE
    pub max_price: Option<String>,
    /// BOUNDLESS_TIMEOUT
    pub timeout: Option<String>,
    /// BOUNDLESS_RAMP_UP_PERIOD
    pub ramp_up_period: Option<String>,
}

#[derive(Debug, Clone)]
pub struct RiscZeroProverConfig {
    pub strategy: RiscZeroProvingStrategy,
    /// Boundless RPC URL (env: BOUNDLESS_RPC_URL)
    pub rpc_url: Option<String>,
    /// Wallet private key hex (env: BOUNDLESS_PRIVATE_KEY)
    pub private_key: Option<String>,
    /// Optional verifier program URL for pre-uploaded ELF (env: BOUNDLESS_VERIFIER_PROGRAM_URL)
    pub verifier_program_url: Option<String>,
    /// Proof type: Groth16 or Merkle (default: Groth16)
    pub proof_type: BoundlessProofType,
    /// Minimum price in wei per cycle
    pub min_price: Option<u128>,
    /// Maximum price in wei per cycle
    pub max_price: Option<u128>,
    /// Timeout in seconds
    pub timeout: Option<u32>,
    /// Ramp-up period in seconds
    pub ramp_up_period: Option<u32>,
}

/// Default minimum price: 0.0001 gwei, in wei.
pub const DEFAULT_MIN_PRICE_WEI: u128 = 100_000;

/// Default maximum price: 0.001 gwei, in wei.
pub const DEFAULT_MAX_PRICE_WEI: u128 = 1_000_000;

/// Default collateral: 10 ether, in wei.
pub const DEFAULT_COLLATERAL_WEI: u128 = 10_000_000_000_000_000_000;

/// Seconds added to the timeout for the full request timeout.
pub const DEFAULT_TIMEOUT_BUFFER: u32 = 600;

/// Seconds between polls while waiting for fulfillment.
pub const DEFAULT_POLL_INTERVAL_SECS: u64 = 5;

/// The strategy that the RISC0_STRATEGY setting selects.
pub open spec fn spec_risc0_strategy(s: Option<String>) -> RiscZeroProvingStrategy {
    if spec_opt_is(s, "dev"@) {
        RiscZeroProvingStrategy::Dev
    } else if spec_opt_is(s, "local"@) {
        RiscZeroProvingStrategy::Local
    } else {
        RiscZeroProvingStrategy::Boundless
    }
}

impl RiscZeroProverConfig {
    /// The configuration that the environment settings give: the strategy from
    /// RISC0_STRATEGY ("dev", "local", otherwise Boundless), the texts as they
    /// are, the numbers where their text parses, and a Groth16 proof type.
    pub fn from_env(env: &RiscZeroEnv) -> (r: RiscZeroProverConfig)
        ensures
            r.strategy == spec_risc0_strategy(env.strategy),
            r.rpc_url == env.rpc_url,
            r.private_key == env.private_key,
            r.verifier_program_url == env.verifier_program_url,
            r.proof_type == BoundlessProofType::Groth16,
            r.min_price == spec_opt_u128(env.min_price),
            r.max_price == spec_opt_u128(env.max_price),
            r.timeout == spec_opt_u32(env.timeout),
            r.ramp_up_period == spec_opt_u32(env.ramp_up_period),
    {
        let strategy = if opt_is(&env.strategy, "dev") {
            RiscZeroProvingStrategy::Dev
        } else if opt_is(&env.strategy, "local") {
            RiscZeroProvingStrategy::Local
        } else {
            RiscZeroProvingStrategy::Boundless
        };
        RiscZeroProverConfig {
            strategy,
            rpc_url: clone_opt(&env.rpc_url),
            private_key: clone_opt(&env.private_key),
            verifier_program_url: clone_opt(&env.verifier_program_url),
            proof_type: BoundlessProofType::default(),
            min_price: opt_u128(&env.min_price),
            max_price: opt_u128(&env.max_price),
            timeout: opt_u32(&env.timeout),
            ramp_up_period: opt_u32(&env.ramp_up_period),
        }
    }

    /// Get effective min price in wei (config or default: 0.0001 gwei).
    pub fn effective_min_price(&self) -> (r: u128)
        ensures
            r == match self.min_price {
                Some(p) => p,
                None => DEFAULT_MIN_PRICE_WEI,
            },
    {
        match self.min_price {
            Some(p) => p,
            None => {
                proof {
                    reveal_strlit("0.0001");
                }
                let v = parse_units_wei("0.0001", "gwei");
                v.unwrap()
            },
        }
    }

    /// Get effective max price in wei (config or default: 0.001 gwei).
    pub fn effective_max_price(&self) -> (r: u128)
        ensures
            r == match self.max_price {
                Some(p) => p,
                None => DEFAULT_MAX_PRICE_WEI,
            },
    {
        match self.max_price {
            Some(p) => p,
            None => {
                proof {
                    reveal_strlit("0.001");
                }
                let v = parse_units_wei("0.001", "gwei");
                v.unwrap()
            },
        }
    }

    /// Get effective collateral in wei (default: 10 ETH).
    pub fn effective_collateral(&self) -> (r: u128)
        ensures
            r == DEFAULT_COLLATERAL_WEI,
    {
        proof {
            reveal_strlit("10");
        }
        let v = parse_units_wei("10", "ether");
        v.unwrap()
    }

    /// Get effective timeout with buffer: the lock timeout and the timeout.
    pub fn effective_timeout(&self) -> (r: Option<(u32, u32)>)
        requires
            self.timeout matches Some(t) ==> t + DEFAULT_TIMEOUT_BUFFER <= u32::MAX,
        ensures
            r == match self.timeout {
                Some(t) => Some((t, (t + DEFAULT_TIMEOUT_BUFFER) as u32)),
                None => None,
            },
    {
        match self.timeout {
            Some(t) => Some((t, t + DEFAULT_TIMEOUT_BUFFER)),
            None => None,
        }
    }

    /// Get poll interval, in seconds, for waiting on fulfillment.
    pub fn poll_interval(&self) -> (r: u64)
        ensures
            r == DEFAULT_POLL_INTERVAL_SECS,
    {
        DEFAULT_POLL_INTERVAL_SECS
    }
}

/// A RISC Zero program: its ELF image, its image ID, and how it is proved.
#[derive(Clone)]
pub struct ProgramRisc0 {
    elf: &'static [u8],
    image_id: [u32; 8],
    config: RiscZeroProverConfig,
}

impl ProgramRisc0 {
    /// The ELF image.
    pub closed spec fn spec_elf(&self) -> Seq<u8> {
        self.elf@
    }

    /// The image ID.
    pub closed spec fn spec_image_id(&self) -> Seq<u32> {
        self.image_id@
    }

    /// The configuration.
    pub closed spec fn spec_config(&self) -> RiscZeroProverConfig {
        self.config
    }

    /// A program with the configuration that the environment settings give.
    pub fn new(elf: &'static [u8], image_id: [u32; 8], env: &RiscZeroEnv) -> (r: ProgramRisc0)
        ensures
            r.spec_elf() == elf@,
            r.spec_image_id() == image_id@,
            r.spec_config().strategy == spec_risc0_strategy(env.strategy),
            r.spec_config().rpc_url == env.rpc_url,
            r.spec_config().private_key == env.private_key,
            r.spec_config().verifier_program_url == env.verifier_program_url,
            r.spec_config().proof_type == BoundlessProofType::Groth16,
            r.spec_config().min_price == spec_opt_u128(env.min_price),
            r.spec_config().max_price == spec_opt_u128(env.max_price),
            r.spec_config().timeout == spec_opt_u32(env.timeout),
            r.spec_config().ramp_up_period == spec_opt_u32(env.ramp_up_period),
    {
        ProgramRisc0 { elf, image_id, config: RiscZeroProverConfig::from_env(env) }
    }

    /// The same program with another configuration.
    pub fn with_config(&self, config: RiscZeroProverConfig) -> (r: ProgramRisc0)
        ensures
            r.spec_elf() == self.spec_elf(),
            r.spec_image_id() == self.spec_image_id(),
            r.spec_config() == config,
    {
        ProgramRisc0 { elf: self.elf, image_id: self.image_id, config }
    }

    pub fn elf(&self) -> (r: &'static [u8])
        ensures
            r@ == self.spec_elf(),
    {
        self.elf
    }

    pub fn image_id(&self) -> (r: [u32; 8])
        ensures
            r@ == self.spec_image_id(),
    {
        self.image_id
    }

    pub fn config(&self) -> (r: &RiscZeroProverConfig)
        ensures
            *r == self.spec_config(),
    {
        &self.config
    }

    /// The program's identifier: the bytes of its image ID.
    pub fn program_id(&self) -> (r: [u8; 32])
        ensures
            r@ == le_word_bytes(self.spec_image_id()),
    {
        digest_bytes(&self.image_id)
    }

    /// The identifier that proofs of the program are verified against: the
    /// program's identifier.
    pub fn verify_proof_id(&self) -> (r: [u8; 32])
        ensures
            r@ == le_word_bytes(self.spec_image_id()),
    {
        self.program_id()
    }
}

/// Byte `k` (0 to 3) of a 32-bit word, least significant first.
pub open spec fn word_byte(w: u32, k: int) -> u8 {
    if k == 0 {
        w as u8
    } else if k == 1 {
        (w >> 8u32) as u8
    } else if k == 2 {
        (w >> 16u32) as u8
    } else {
        (w >> 24u32) as u8
    }
}

/// The bytes of a digest held as 32-bit words: the words in order, each least
/// significant byte first (the layout of the words in memory on the
/// little-endian hosts that the provers run on).
pub open spec fn le_word_bytes(words: Seq<u32>) -> Seq<u8> {
    Seq::new(4 * words.len(), |j: int| word_byte(words[j / 4], j % 4))
}

/// The 32 bytes of a digest held as eight 32-bit words.
pub fn digest_bytes(words: &[u32; 8]) -> (r: [u8; 32])
    ensures
        r@ == le_word_bytes(words@),
{
    let mut out = [0u8; 32];
    for i in 0..8
        invariant
            out@.len() == 32,
            words@.len() == 8,
            forall|j: int| 0 <= j < 4 * i ==> out@[j] == word_byte(words@[j / 4], j % 4),
    {
        let w = words[i];
        out[4 * i] = w as u8;
        out[4 * i + 1] = (w >> 8u32) as u8;
        out[4 * i + 2] = (w >> 16u32) as u8;
        out[4 * i + 3] = (w >> 24u32) as u8;
        assert forall|j: int| 4 * i <= j < 4 * i + 4 implies out@[j] == word_byte(
            words@[j / 4],
            j % 4,
        ) by {
            assert(j / 4 == i);
        }
    }
    assert(out@ =~= le_word_bytes(words@));
    out
}

/// Where SP1 proofs are made.
#[derive(Debug, Clone, Copy, PartialEq, Eq, Structural)]
pub enum SP1ProvingStrategy {
    Dev,
    Local,
    Network,
}

impl Default for SP1ProvingStrategy {
    fn default() -> (r: Self)
        ensures
            r == SP1ProvingStrategy::Network,
    {
        SP1ProvingStrategy::Network
    }
}

/// The environment settings that the SP1 prover reads, as text.
pub struct Sp1Env {
    /// SP1_PROVER
    pub prover: Option<String>,
    /// SP1_PRIVATE_KEY
    pub private_key: Option<String>,
    /// NETWORK_PRIVATE_KEY
    pub network_private_key: Option<String>,
    /// SP1_RPC_URL
    pub rpc_url: Option<String>,
    /// NETWORK_RPC_URL
    pub network_rpc_url: Option<String>,
}

#[derive(Debug, Clone)]
pub struct SP1ProverConfig {
    pub strategy: SP1ProvingStrategy,
    pub private_key: Option<String>,
    pub rpc_url: Option<String>,
}

/// The strategy that the SP1_PROVER setting selects.
pub open spec fn spec_sp1_strategy(s: Option<String>) -> SP1ProvingStrategy {
    if spec_opt_is(s, "mock"@) || spec_opt_is(s, "dev"@) {
        SP1ProvingStrategy::Dev
    } else if spec_opt_is(s, "local"@) || spec_opt_is(s, "cpu"@) {
        SP1ProvingStrategy::Local
    } else {
        SP1ProvingStrategy::Network
    }
}

impl SP1ProverConfig {
    /// The configuration that the environment settings give: the strategy from
    /// SP1_PROVER ("mock" or "dev", "local" or "cpu", otherwise Network); the key
    /// and URL from the SP1_ setting, or else the NETWORK_ one.
    pub fn from_env(env: &Sp1Env) -> (r: SP1ProverConfig)
        ensures
            r.strategy == spec_sp1_strategy(env.prover),
            r.private_key == (if env.private_key is Some {
                env.private_key
            } else {
                env.network_private_key
            }),
            r.rpc_url == (if env.rpc_url is Some {
                env.rpc_url
            } else {
                env.network_rpc_url
            }),
    {
        let strategy = if opt_is(&env.prover, "mock") || opt_is(&env.prover, "dev") {
            SP1ProvingStrategy::Dev
        } else if opt_is(&env.prover, "local") || opt_is(&env.prover, "cpu") {
            SP1ProvingStrategy::Local
        } else {
            SP1ProvingStrategy::Network
        };
        SP1ProverConfig {
            strategy,
            private_key: first_present(&env.private_key, &env.network_private_key),
            rpc_url: first_present(&env.rpc_url, &env.network_rpc_url),
        }
    }
}

/// Where Pico proofs are made.
#[derive(Debug, Clone, Copy, PartialEq, Eq, Structural)]
pub enum PicoProvingStrategy {
    Dev,
    Local,
    Marketplace,
}

impl Default for PicoProvingStrategy {
    fn default() -> (r: Self)
        ensures
            r == PicoProvingStrategy::Local,
    {
        PicoProvingStrategy::Local
    }
}

/// Stands for the marketplace settings where none are given.
#[derive(Debug, Clone, Copy)]
pub struct MarketplaceConfigPlaceholder;

/// Settings of a proof request to the Brevis prover marketplace.
/// (The fee multiplier, a float, stays with the command line.)
#[derive(Debug, Clone)]
pub struct MarketplaceConfig {
    pub rpc_url: Option<String>,
    pub private_key: Option<String>,
    pub elf_url: String,
    pub input_url: Option<String>,
    pub brevis_market_address: Option<[u8; 20]>,
    pub brev_token_address: Option<[u8; 20]>,
    pub staking_controller_address: Option<[u8; 20]>,
    pub max_fee: Option<u128>,
    pub min_stake: Option<u128>,
    pub deadline: u64,
    pub nonce: u64,
    pub version: Option<String>,
    pub poll_interval: Option<u64>,
}

#[derive(Debug, Clone)]
pub struct PicoProverConfig {
    pub proving_strategy: PicoProvingStrategy,
    pub marketplace: Option<MarketplaceConfig>,
}

/// The environment settings that the Pico prover reads, as text.
pub struct PicoEnv {
    /// PICO_DEV_MODE
    pub dev_mode: Option<String>,
    /// PICO_STRATEGY
    pub strategy: Option<String>,
}

/// The strategy that PICO_DEV_MODE and PICO_STRATEGY select.
pub open spec fn spec_pico_strategy(env: PicoEnv) -> PicoProvingStrategy {
    if spec_opt_is(env.dev_mode, "1"@) {
        PicoProvingStrategy::Dev
    } else if spec_opt_is(env.strategy, "marketplace"@) {
        PicoProvingStrategy::Marketplace
    } else if spec_opt_is(env.strategy, "dev"@) {
        PicoProvingStrategy::Dev
    } else {
        PicoProvingStrategy::Local
    }
}

impl PicoProverConfig {
    /// The configuration that the environment settings give: Dev where
    /// PICO_DEV_MODE is "1", otherwise the strategy from PICO_STRATEGY
    /// ("marketplace", "dev", otherwise Local); no marketplace settings.
    pub fn from_env(env: &PicoEnv) -> (r: PicoProverConfig)
        ensures
            r.proving_strategy == spec_pico_strategy(*env),
            r.marketplace is None,
    {
        let proving_strategy = if opt_is(&env.dev_mode, "1") {
            PicoProvingStrategy::Dev
        } else if opt_is(&env.strategy, "marketplace") {
            PicoProvingStrategy::Marketplace
        } else if opt_is(&env.strategy, "dev") {
            PicoProvingStrategy::Dev
        } else {
            PicoProvingStrategy::Local
        };
        PicoProverConfig { proving_strategy, marketplace: None }
    }
}

/// A Pico program: its ELF image and how it is proved.
#[derive(Clone)]
pub struct ProgramPico {
    elf: &'static [u8],
    config: PicoProverConfig,
}

impl ProgramPico {
    /// The ELF image.
    pub closed spec fn spec_elf(&self) -> Seq<u8> {
        self.elf@
    }

    /// The configuration.
    pub closed spec fn spec_config(&self) -> PicoProverConfig {
        self.config
    }

    /// A program with the configuration that the environment settings give.
    pub fn new(elf: &'static [u8], env: &PicoEnv) -> (r: ProgramPico)
        ensures
            r.spec_elf() == elf@,
            r.spec_config().proving_strategy == spec_pico_strategy(*env),
            r.spec_config().marketplace is None,
    {
        ProgramPico { elf, config: PicoProverConfig::from_env(env) }
    }

    /// The same program with another configuration.
    pub fn with_config(&self, config: PicoProverConfig) -> (r: ProgramPico)
        ensures
            r.spec_elf() == self.spec_elf(),
            r.spec_config() == config,
    {
        ProgramPico { elf: self.elf, config }
    }

    pub fn elf(&self) -> (r: &'static [u8])
        ensures
            r@ == self.spec_elf(),
    {
        self.elf
    }

    pub fn config(&self) -> (r: &PicoProverConfig)
        ensures
            *r == self.spec_config(),
    {
        &self.config
    }
}

/// Whether an encoded Pico proof holds no proof: bincode writes the proof's
/// length as the first 8 bytes (little-endian); fewer than 8 bytes, or a length
/// of 0, means none.
pub fn check_encoded_proof_is_empty(encoded_proof: &[u8]) -> (r: bool)
    ensures
        r == (encoded_proof@.len() < 8 || (forall|i: int| 0 <= i < 8 ==> encoded_proof@[i] == 0)),
{
    if encoded_proof.len() < 8 {
        return true;
    }
    let mut i: usize = 0;
    while i < 8
        invariant
            i <= 8,
            8 <= encoded_proof@.len(),
            forall|k: int| 0 <= k < i ==> encoded_proof@[k] == 0,
        decreases 8 - i,
    {
        if encoded_proof[i] != 0 {
            return false;
        }
        i = i + 1;
    }
    true
}

/// The zkVM that proves attestations, with its configuration.
#[derive(Debug, Clone)]
pub enum ProverSystemConfig {
    Succinct(SP1ProverConfig),
    RiscZero(RiscZeroProverConfig),
    Pico(PicoProverConfig),
}

impl ProverSystemConfig {
    /// The co-processor type of the verifier program that the prover runs on
    /// this zkVM.
    pub fn zk_type(&self) -> (r: ZkCoProcessorType)
        ensures
            r == match self {
                ProverSystemConfig::Succinct(_) => ZkCoProcessorType::Succinct,
                ProverSystemConfig::RiscZero(_) => ZkCoProcessorType::RiscZero,
                ProverSystemConfig::Pico(_) => ZkCoProcessorType::Pico,
            },
    {
        match self {
            ProverSystemConfig::Succinct(_) => ZkCoProcessorType::Succinct,
            ProverSystemConfig::RiscZero(_) => ZkCoProcessorType::RiscZero,
            ProverSystemConfig::Pico(_) => ZkCoProcessorType::Pico,
        }
    }
}

/// SP1_PROVER selects the SP1 strategy by its text: "mock" and "dev" give Dev,
/// "local" and "cpu" give Local, any other text, or none, gives Network.
pub proof fn lemma_sp1_strategy_texts(s: Option<String>)
    ensures
        s matches Some(x) && (x@ == "mock"@ || x@ == "dev"@) ==> spec_sp1_strategy(s)
            == SP1ProvingStrategy::Dev,
        s matches Some(x) && (x@ == "local"@ || x@ == "cpu"@) ==> spec_sp1_strategy(s)
            == SP1ProvingStrategy::Local,
        s matches Some(x) && x@ != "mock"@ && x@ != "dev"@ && x@ != "local"@ && x@ != "cpu"@
            ==> spec_sp1_strategy(s) == SP1ProvingStrategy::Network,
        s is None ==> spec_sp1_strategy(s) == SP1ProvingStrategy::Network,
{
    reveal_strlit("mock");
    reveal_strlit("dev");
    reveal_strlit("local");
    reveal_strlit("cpu");
    assert("local"@.len() != "mock"@.len() && "local"@.len() != "dev"@.len());
    assert("cpu"@.len() != "mock"@.len() && "cpu"@[0] != "dev"@[0]);
}

/// RISC0_STRATEGY selects the RISC Zero strategy by its text: "dev" gives Dev,
/// "local" gives Local, any other text, or none, gives Boundless.
pub proof fn lemma_risc0_strategy_texts(s: Option<String>)
    ensures
        s matches Some(x) && x@ == "dev"@ ==> spec_risc0_strategy(s)
            == RiscZeroProvingStrategy::Dev,
        s matches Some(x) && x@ == "local"@ ==> spec_risc0_strategy(s)
            == RiscZeroProvingStrategy::Local,
        s matches Some(x) && x@ != "dev"@ && x@ != "local"@ ==> spec_risc0_strategy(s)
            == RiscZeroProvingStrategy::Boundless,
        s is None ==> spec_risc0_strategy(s) == RiscZeroProvingStrategy::Boundless,
{
    reveal_strlit("dev");
    reveal_strlit("local");
    assert("local"@.len() != "dev"@.len());
}

/// PICO_DEV_MODE "1" selects Dev whatever PICO_STRATEGY says; otherwise
/// PICO_STRATEGY "marketplace" gives Marketplace, "dev" gives Dev, and any other
/// text, or none, gives Local.
pub proof fn lemma_pico_strategy_texts(env: PicoEnv)
    ensures
        env.dev_mode matches Some(d) && d@ == "1"@ ==> spec_pico_strategy(env)
            == PicoProvingStrategy::Dev,
        !(env.dev_mode matches Some(d) && d@ == "1"@) && (env.strategy matches Some(x) && x@
            == "marketplace"@) ==> spec_pico_strategy(env) == PicoProvingStrategy::Marketplace,
        !(env.dev_mode matches Some(d) && d@ == "1"@) && (env.strategy matches Some(x) && x@
            == "dev"@) ==> spec_pico_strategy(env) == PicoProvingStrategy::Dev,
        !(env.dev_mode matches Some(d) && d@ == "1"@) && (env.strategy matches Some(x) && x@
            != "marketplace"@ && x@ != "dev"@) ==> spec_pico_strategy(env)
            == PicoProvingStrategy::Local,
        !(env.dev_mode matches Some(d) && d@ == "1"@) && env.strategy is None
            ==> spec_pico_strategy(env) == PicoProvingStrategy::Local,
{
    reveal_strlit("1");
    reveal_strlit("marketplace");
    reveal_strlit("dev");
    assert("dev"@.len() != "marketplace"@.len());
}

} // verus!
