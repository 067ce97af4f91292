//! Command-line settings of the generic zk prover tool, and the prover
//! configuration that they select. The configuration carries the key and URL
//! texts; whether they parse into the prover's types is an input.
use vstd::prelude::*;
use vstd::string::StringExecFns;

use crate::config::clone_opt;
use crate::stub::{VerifierInput, ZkCoProcessorType};

verus! {

/// The zkVM named on the command line.
#[derive(Debug, Clone, Copy, PartialEq, Eq, Structural)]
pub enum VmArg {
    Sp1,
    Risc0,
}

/// The zkVM that a prover runs.
#[derive(Debug, Clone, Copy, PartialEq, Eq, Structural)]
pub enum ZkVmSelection {
    Sp1,
    Risc0,
}

impl VmArg {
    /// The zkVM that the argument selects.
    pub fn selection(self) -> (r: ZkVmSelection)
        ensures
            r == match self {
                VmArg::Sp1 => ZkVmSelection::Sp1,
                VmArg::Risc0 => ZkVmSelection::Risc0,
            },
    {
        match self {
            VmArg::Sp1 => ZkVmSelection::Sp1,
            VmArg::Risc0 => ZkVmSelection::Risc0,
        }
    }
}

/// The co-processor type under which the on-chain verifier accepts the zkVM's proofs.
pub fn zk_type(vm: VmArg) -> (r: ZkCoProcessorType)
    ensures
        r == match vm {
            VmArg::Risc0 => ZkCoProcessorType::RiscZero,
            VmArg::Sp1 => ZkCoProcessorType::Succinct,
        },
{
    match vm {
        VmArg::Risc0 => ZkCoProcessorType::RiscZero,
        VmArg::Sp1 => ZkCoProcessorType::Succinct,
    }
}

/// Where proofs are made.
#[derive(Debug, Clone, Copy, PartialEq, Eq, Structural)]
pub enum BackendArg {
    Mock,
    Cpu,
    Network,
}

/// Command-line arguments for configuring zero-knowledge proof system settings.
#[derive(Debug, Clone)]
pub struct ProverArgs {
    pub vm: VmArg,
    pub backend: BackendArg,
    /// Private key for SP1 network prover
    pub sp1_private_key: Option<String>,
    /// RPC URL for SP1 network connection
    pub sp1_rpc_url: Option<String>,
    /// RPC URL for Boundless prover network
    pub boundless_rpc_url: Option<String>,
    /// Private key for Boundless prover network (hex-encoded)
    pub boundless_private_key: Option<String>,
    /// Pinata JWT for uploading RISC Zero programs
    pub risc0_pinata_jwt: Option<String>,
}

/// Storage for RISC Zero program images.
#[derive(Debug, Clone)]
pub enum Risc0StorageConfig {
    Pinata { jwt: String, api_url: Option<String>, gateway_url: Option<String> },
}

/// The proving network of a zkVM, with its key and endpoint as text.
#[derive(Debug, Clone)]
pub enum NetworkConfig {
    Sp1 { private_key: Option<String>, rpc_url: Option<String> },
    /// The remaining network settings take their defaults.
    Risc0 {
        private_key: Option<String>,
        rpc_url: Option<String>,
        storage: Option<Risc0StorageConfig>,
    },
}

/// Where a prover makes proofs.
#[derive(Debug, Clone)]
pub enum ProverBackend {
    Mock,
    Cpu,
    Network(NetworkConfig),
}

/// The zkVM and backend of a prover.
#[derive(Debug, Clone)]
pub struct ProverConfig {
    pub vm: ZkVmSelection,
    pub backend: ProverBackend,
}

impl ProverArgs {
    /// The key and URL texts of the selected zkVM's proving network: the SP1
    /// ones for SP1, the Boundless ones for RISC Zero.
    pub open spec fn spec_network_texts(&self) -> (Option<String>, Option<String>) {
        match self.vm {
            VmArg::Sp1 => (self.sp1_private_key, self.sp1_rpc_url),
            VmArg::Risc0 => (self.boundless_private_key, self.boundless_rpc_url),
        }
    }

    /// Creates a prover configuration based on the specified arguments: the
    /// network backend takes the SP1 key and URL for SP1, the Boundless key and
    /// URL (and Pinata storage where a JWT is given) for RISC Zero. The network
    /// backend parses the selected key and URL into the prover's key and URL
    /// types; `private_key_parses` and `rpc_url_parses` are the outcomes of those
    /// parses for the texts that are present. A key that does not parse fails
    /// first, then a URL that does not parse.
    pub fn prover_config(&self, private_key_parses: bool, rpc_url_parses: bool) -> (r: Result<
        ProverConfig,
        ZkCliError,
    >)
        ensures
            self.backend == BackendArg::Network && self.spec_network_texts().0 is Some
                && !private_key_parses ==> r matches Err(ZkCliError::PrivateKeyParse),
            self.backend == BackendArg::Network && !(self.spec_network_texts().0 is Some
                && !private_key_parses) && self.spec_network_texts().1 is Some && !rpc_url_parses
                ==> r matches Err(ZkCliError::RpcUrlParse),
            !(self.backend == BackendArg::Network && ((self.spec_network_texts().0 is Some
                && !private_key_parses) || (self.spec_network_texts().1 is Some
                && !rpc_url_parses))) ==> r is Ok,
            r matches Ok(c) ==> c.vm == match self.vm {
                VmArg::Sp1 => ZkVmSelection::Sp1,
                VmArg::Risc0 => ZkVmSelection::Risc0,
            },
            r matches Ok(c) ==> (self.backend == BackendArg::Mock ==> c.backend is Mock),
            r matches Ok(c) ==> (self.backend == BackendArg::Cpu ==> c.backend is Cpu),
            r matches Ok(c) ==> (self.backend == BackendArg::Network && self.vm == VmArg::Sp1
                ==> c.backend == ProverBackend::Network(
                NetworkConfig::Sp1 {
                    private_key: self.sp1_private_key,
                    rpc_url: self.sp1_rpc_url,
                },
            )),
            r matches Ok(c) ==> (self.backend == BackendArg::Network && self.vm == VmArg::Risc0
                ==> c.backend == ProverBackend::Network(
                NetworkConfig::Risc0 {
                    private_key: self.boundless_private_key,
                    rpc_url: self.boundless_rpc_url,
                    storage: match self.risc0_pinata_jwt {
                        Some(jwt) => Some(
                            Risc0StorageConfig::Pinata { jwt, api_url: None, gateway_url: None },
                        ),
                        None => None,
                    },
                },
            )),
    {
        let vm = self.vm.selection();
        let backend = match self.backend {
            BackendArg::Mock => ProverBackend::Mock,
            BackendArg::Cpu => ProverBackend::Cpu,
            BackendArg::Network => match vm {
                ZkVmSelection::Sp1 => {
                    if self.sp1_private_key.is_some() && !private_key_parses {
                        return Err(ZkCliError::PrivateKeyParse);
                    }
                    if self.sp1_rpc_url.is_some() && !rpc_url_parses {
                        return Err(ZkCliError::RpcUrlParse);
                    }
                    ProverBackend::Network(
                        NetworkConfig::Sp1 {
                            private_key: clone_opt(&self.sp1_private_key),
                            rpc_url: clone_opt(&self.sp1_rpc_url),
                        },
                    )
                },
                ZkVmSelection::Risc0 => {
                    let mut storage = None;
                    if let Some(risc0_pinata_jwt) = &self.risc0_pinata_jwt {
                        storage = Some(
                            Risc0StorageConfig::Pinata {
                                jwt: risc0_pinata_jwt.clone(),
                                api_url: None,
                                gateway_url: None,
                            },
                        );
                    }
                    if self.boundless_private_key.is_some() && !private_key_parses {
                        return Err(ZkCliError::PrivateKeyParse);
                    }
                    if self.boundless_rpc_url.is_some() && !rpc_url_parses {
                        return Err(ZkCliError::RpcUrlParse);
                    }
                    ProverBackend::Network(
                        NetworkConfig::Risc0 {
                            private_key: clone_opt(&self.boundless_private_key),
                            rpc_url: clone_opt(&self.boundless_rpc_url),
                            storage,
                        },
                    )
                },
            },
        };
        Ok(ProverConfig { vm, backend })
    }
}

/// The program-id command: prints the verifier program's identifier for a zkVM.
#[derive(Debug, Clone)]
pub struct ProgramIdCli {
    pub prover: ProverArgs,
}

/// The upload command: uploads the verifier program for a zkVM.
#[derive(Debug, Clone)]
pub struct UploadCli {
    pub prover: ProverArgs,
    /// Output file path for storing the program identifier
    pub out: Option<String>,
}

/// Errors of the zk prover tool's own checks.
#[derive(Debug)]
pub enum ZkCliError {
    /// "Remote program variant VM ... does not match --vm ..."
    VariantVmMismatch { variant: ZkVmSelection, requested: ZkVmSelection },
    /// "RISC0 remote program JSON requires artifact_uri; use upload instead"
    ArtifactUriRequired,
    /// The selected zkVM's network private key does not parse.
    PrivateKeyParse,
    /// The selected zkVM's network RPC URL does not parse.
    RpcUrlParse,
}

/// The name of a zkVM, as error messages show it.
pub open spec fn vm_name(vm: ZkVmSelection) -> Seq<char> {
    match vm {
        ZkVmSelection::Sp1 => "Sp1"@,
        ZkVmSelection::Risc0 => "Risc0"@,
    }
}

/// The message of an error.
pub open spec fn error_message(e: ZkCliError) -> Seq<char> {
    match e {
        ZkCliError::VariantVmMismatch { variant, requested } => "Remote program variant VM "@
            + vm_name(variant) + " does not match --vm "@ + vm_name(requested),
        ZkCliError::ArtifactUriRequired => "RISC0 remote program JSON requires artifact_uri; use upload instead"@,
        ZkCliError::PrivateKeyParse => "invalid network private key"@,
        ZkCliError::RpcUrlParse => "invalid network RPC URL"@,
    }
}

fn vm_name_text(vm: ZkVmSelection) -> (r: &'static str)
    ensures
        r@ == vm_name(vm),
{
    match vm {
        ZkVmSelection::Sp1 => "Sp1",
        ZkVmSelection::Risc0 => "Risc0",
    }
}

impl ZkCliError {
    /// The error's message.
    pub fn message(&self) -> (r: String)
        ensures
            r@ == error_message(*self),
    {
        match self {
            ZkCliError::VariantVmMismatch { variant, requested } => {
                let m = String::from_str("Remote program variant VM ");
                let m = m.concat(vm_name_text(*variant));
                let m = m.concat(" does not match --vm ");
                m.concat(vm_name_text(*requested))
            },
            ZkCliError::ArtifactUriRequired => String::from_str(
                "RISC0 remote program JSON requires artifact_uri; use upload instead",
            ),
            ZkCliError::PrivateKeyParse => String::from_str("invalid network private key"),
            ZkCliError::RpcUrlParse => String::from_str("invalid network RPC URL"),
        }
    }
}

/// A published program variant is proved only with the zkVM it was built for.
pub fn check_variant_vm(variant: ZkVmSelection, requested: ZkVmSelection) -> (r: Result<
    (),
    ZkCliError,
>)
    ensures
        variant == requested ==> r is Ok,
        variant != requested ==> (r matches Err(
            ZkCliError::VariantVmMismatch { variant: v, requested: q },
        ) && v == variant && q == requested),
{
    if variant != requested {
        return Err(ZkCliError::VariantVmMismatch { variant, requested });
    }
    Ok(())
}

/// An attestation report with the VEK certificate chain that came with it, if
/// any (as the report file holds them).
#[derive(Debug, Clone)]
pub struct AttestationReportWithVekCertChain {
    pub report: Vec<u8>,
    pub vek_certs: Option<Vec<Vec<u8>>>,
}

/// The verifier input for a report read from disk: the report as it is, and its
/// VEK certificate chain (none where absent) in reverse order, so that the chain
/// runs from the VEK towards the root.
pub fn verifier_input_from_parts(
    report_with_cert_chain: AttestationReportWithVekCertChain,
    timestamp: u64,
) -> (r: VerifierInput)
    ensures
        r.timestamp == timestamp,
        r.rawReport@ == report_with_cert_chain.report@,
        r.vekDerChain@ == match report_with_cert_chain.vek_certs {
            Some(c) => c@.reverse(),
            None => Seq::<Vec<u8>>::empty(),
        },
{
    let report = report_with_cert_chain.report;
    let mut certs = match report_with_cert_chain.vek_certs {
        Some(c) => c,
        None => Vec::new(),
    };
    let ghost orig = certs@;
    let mut chain: Vec<Vec<u8>> = Vec::new();
    while certs.len() > 0
        invariant
            orig.len() == chain@.len() + certs@.len(),
            certs@ == orig.subrange(0, certs@.len() as int),
            chain@ == orig.subrange(certs@.len() as int, orig.len() as int).reverse(),
        decreases certs@.len(),
    {
        let ghost k = certs@.len();
        let c = certs.pop().unwrap();
        chain.push(c);
        assert(orig.subrange(k - 1, orig.len() as int).reverse() =~= orig.subrange(
            k as int,
            orig.len() as int,
        ).reverse().push(orig[k - 1]));
        assert(certs@ =~= orig.subrange(0, certs@.len() as int));
    }
    assert(orig.subrange(0, orig.len() as int) =~= orig);
    VerifierInput { timestamp, rawReport: report, vekDerChain: chain }
}

/// A program's identifier on a zkVM.
#[derive(Debug, Clone, Copy)]
pub enum ProgramId {
    Sp1 { vk_hash: [u8; 32] },
    Risc0 { image_id: [u8; 32] },
}

/// A program published for remote proving, as its variant file describes it.
#[derive(Debug, Clone, Copy)]
pub enum RemoteProgramVariant {
    Sp1 { vk_hash: [u8; 32] },
}

/// The identifier as 32 bytes, whichever zkVM it is for.
pub fn program_id_b256(program_id: ProgramId) -> (r: [u8; 32])
    ensures
        r == match program_id {
            ProgramId::Sp1 { vk_hash } => vk_hash,
            ProgramId::Risc0 { image_id } => image_id,
        },
{
    match program_id {
        ProgramId::Sp1 { vk_hash } => vk_hash,
        ProgramId::Risc0 { image_id } => image_id,
    }
}

/// The remote variant of a program: an SP1 program is named by its key hash; a
/// RISC0 program also needs the address of its image, which only an upload gives.
pub fn remote_program_variant(program_id: ProgramId) -> (r: Result<
    RemoteProgramVariant,
    ZkCliError,
>)
    ensures
        match program_id {
            ProgramId::Sp1 { vk_hash } => r == Ok::<RemoteProgramVariant, ZkCliError>(
                RemoteProgramVariant::Sp1 { vk_hash },
            ),
            ProgramId::Risc0 { .. } => r matches Err(ZkCliError::ArtifactUriRequired),
        },
{
    match program_id {
        ProgramId::Sp1 { vk_hash } => Ok(RemoteProgramVariant::Sp1 { vk_hash }),
        ProgramId::Risc0 { .. } => Err(ZkCliError::ArtifactUriRequired),
    }
}

} // verus!
