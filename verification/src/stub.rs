//! The data the zkVM verifier program reads and commits to: the processor and
//! result codes, the verifier input, and the byte layout of the verifier journal.
use alloy_primitives::Bytes;
use alloy_sol_types::SolValue;
use tiny_keccak::{Hasher, Keccak};
use vstd::prelude::*;

use crate::bytes;
use crate::bytes::{push_be_u32, push_be_u64, read_be_u32, read_be_u64};
use crate::text::str_eq;

verus! {

/// Errors of the verifier's data formats.
#[derive(Debug, PartialEq, Eq, Structural)]
pub enum StubError {
    /// A processor code outside the known AMD EPYC models.
    UnknownProcessorModel,
    /// A processor name outside the known AMD EPYC models.
    UnknownProcessorName,
    /// Bytes that are not the ABI encoding of a verifier input.
    VerifierInputDecode,
    /// A journal shorter than its fixed-size header.
    JournalTooShort { got: usize },
    /// A journal whose result byte is not a known verification result.
    UnknownVerificationResult { value: u8 },
    /// A journal shorter than its certificate count asks for.
    JournalTooShortForCerts { needed: u64, cert_size: u32, got: usize },
}

/// AMD EPYC processor models, as the on-chain verifier numbers them.
#[derive(Debug, Clone, Copy, PartialEq, Eq, Structural)]
pub enum ProcessorType {
    /// 7003 series AMD EPYC Processor
    Milan,
    /// 9004 series AMD EPYC Processor
    Genoa,
    /// 97x4 series AMD EPYC Processor
    Bergamo,
    /// 8004 series AMD EPYC Processor
    Siena,
    /// Stands for a decoded byte outside the known models.
    Invalid,
}

impl ProcessorType {
    /// The byte that stands for the model (255 for `Invalid`).
    pub open spec fn spec_code(self) -> u8 {
        match self {
            ProcessorType::Milan => 0,
            ProcessorType::Genoa => 1,
            ProcessorType::Bergamo => 2,
            ProcessorType::Siena => 3,
            ProcessorType::Invalid => 255,
        }
    }

    /// The model's name, for the known models.
    pub open spec fn spec_name(self) -> Option<Seq<char>> {
        match self {
            ProcessorType::Milan => Some("Milan"@),
            ProcessorType::Genoa => Some("Genoa"@),
            ProcessorType::Bergamo => Some("Bergamo"@),
            ProcessorType::Siena => Some("Siena"@),
            ProcessorType::Invalid => None,
        }
    }

    /// The byte that stands for the model.
    pub fn code(&self) -> (r: u8)
        ensures
            r == self.spec_code(),
    {
        match self {
            ProcessorType::Milan => 0,
            ProcessorType::Genoa => 1,
            ProcessorType::Bergamo => 2,
            ProcessorType::Siena => 3,
            ProcessorType::Invalid => 255,
        }
    }

    /// The model that a byte stands for.
    pub fn from_code(value: u8) -> (r: Result<ProcessorType, StubError>)
        ensures
            value <= 3 ==> (r matches Ok(p) && p.spec_code() == value),
            value > 3 ==> r == Err::<ProcessorType, StubError>(StubError::UnknownProcessorModel),
    {
        match value {
            0 => Ok(ProcessorType::Milan),
            1 => Ok(ProcessorType::Genoa),
            2 => Ok(ProcessorType::Bergamo),
            3 => Ok(ProcessorType::Siena),
            _ => Err(StubError::UnknownProcessorModel),
        }
    }

    /// The model's name; an error for a byte outside the known models.
    pub fn to_str(&self) -> (r: Result<&'static str, StubError>)
        ensures
            match self.spec_name() {
                Some(name) => r matches Ok(s) && s@ == name,
                None => r == Err::<&'static str, StubError>(StubError::UnknownProcessorModel),
            },
    {
        match self {
            ProcessorType::Milan => Ok("Milan"),
            ProcessorType::Genoa => Ok("Genoa"),
            ProcessorType::Bergamo => Ok("Bergamo"),
            ProcessorType::Siena => Ok("Siena"),
            ProcessorType::Invalid => Err(StubError::UnknownProcessorModel),
        }
    }

    /// The model of the given name; an error for any other text.
    pub fn from_str(s: &str) -> (r: Result<ProcessorType, StubError>)
        ensures
            r matches Ok(p) ==> p.spec_name() == Some(s@),
            r is Err <==> (s@ != "Milan"@ && s@ != "Genoa"@ && s@ != "Bergamo"@ && s@
                != "Siena"@),
            r is Err ==> r == Err::<ProcessorType, StubError>(StubError::UnknownProcessorName),
    {
        if str_eq(s, "Milan") {
            Ok(ProcessorType::Milan)
        } else if str_eq(s, "Genoa") {
            Ok(ProcessorType::Genoa)
        } else if str_eq(s, "Bergamo") {
            Ok(ProcessorType::Bergamo)
        } else if str_eq(s, "Siena") {
            Ok(ProcessorType::Siena)
        } else {
            Err(StubError::UnknownProcessorName)
        }
    }
}

/// Outcome of verifying an attestation, as recorded in the journal.
#[derive(Debug, Clone, Copy, PartialEq, Eq, Structural)]
pub enum VerificationResult {
    /// Attestation successfully verified
    Success,
    /// Root certificate is not in the trusted set
    RootCertNotTrusted,
    /// Attestation timestamp is outside acceptable range
    InvalidTimestamp,
    /// Stands for a decoded byte outside the known results.
    Invalid,
}

impl VerificationResult {
    /// The byte that stands for the result (255 for `Invalid`).
    pub open spec fn spec_code(self) -> u8 {
        match self {
            VerificationResult::Success => 0,
            VerificationResult::RootCertNotTrusted => 1,
            VerificationResult::InvalidTimestamp => 2,
            VerificationResult::Invalid => 255,
        }
    }

    /// The byte that stands for the result.
    pub fn code(&self) -> (r: u8)
        ensures
            r == self.spec_code(),
    {
        match self {
            VerificationResult::Success => 0,
            VerificationResult::RootCertNotTrusted => 1,
            VerificationResult::InvalidTimestamp => 2,
            VerificationResult::Invalid => 255,
        }
    }

    /// The result that a byte stands for; `None` outside the known results.
    pub fn from_code(value: u8) -> (r: Option<VerificationResult>)
        ensures
            value <= 2 ==> (r matches Some(v) && v.spec_code() == value),
            value > 2 ==> r is None,
    {
        match value {
            0 => Some(VerificationResult::Success),
            1 => Some(VerificationResult::RootCertNotTrusted),
            2 => Some(VerificationResult::InvalidTimestamp),
            _ => None,
        }
    }
}

/// The zk co-processors that the on-chain verifier accepts proofs from.
#[derive(Debug, Clone, Copy, PartialEq, Eq, Structural)]
pub enum ZkCoProcessorType {
    /// No co-processor (`None` in the contract's enum).
    NoCoProcessor,
    RiscZero,
    Succinct,
    Pico,
    /// Stands for a decoded byte outside the known co-processors.
    Invalid,
}

impl ZkCoProcessorType {
    /// The byte that stands for the co-processor (255 for `Invalid`).
    pub open spec fn spec_code(self) -> u8 {
        match self {
            ZkCoProcessorType::NoCoProcessor => 0,
            ZkCoProcessorType::RiscZero => 1,
            ZkCoProcessorType::Succinct => 2,
            ZkCoProcessorType::Pico => 3,
            ZkCoProcessorType::Invalid => 255,
        }
    }

    /// The byte that stands for the co-processor.
    pub fn code(&self) -> (r: u8)
        ensures
            r == self.spec_code(),
    {
        match self {
            ZkCoProcessorType::NoCoProcessor => 0,
            ZkCoProcessorType::RiscZero => 1,
            ZkCoProcessorType::Succinct => 2,
            ZkCoProcessorType::Pico => 3,
            ZkCoProcessorType::Invalid => 255,
        }
    }

    /// The co-processor that a byte stands for; `None` outside the known ones.
    pub fn from_code(value: u8) -> (r: Option<ZkCoProcessorType>)
        ensures
            value <= 3 ==> (r matches Some(z) && z.spec_code() == value),
            value > 3 ==> r is None,
    {
        match value {
            0 => Some(ZkCoProcessorType::NoCoProcessor),
            1 => Some(ZkCoProcessorType::RiscZero),
            2 => Some(ZkCoProcessorType::Succinct),
            3 => Some(ZkCoProcessorType::Pico),
            _ => None,
        }
    }
}

/// A known processor model is told apart from every other model by its byte
/// and by its name: reading back a model's byte or name gives the model.
pub proof fn lemma_processor_type_roundtrip(p: ProcessorType, q: ProcessorType)
    requires
        p != ProcessorType::Invalid,
    ensures
        q.spec_code() == p.spec_code() ==> q == p,
        q.spec_name() == p.spec_name() ==> q == p,
{
    reveal_strlit("Milan");
    reveal_strlit("Genoa");
    reveal_strlit("Bergamo");
    reveal_strlit("Siena");
    if q.spec_name() == p.spec_name() {
        assert(p.spec_name().unwrap()[0] == q.spec_name().unwrap()[0]);
    }
}

/// A known verification result is told apart from every other by its byte.
pub proof fn lemma_verification_result_roundtrip(v: VerificationResult, w: VerificationResult)
    requires
        v != VerificationResult::Invalid,
    ensures
        w.spec_code() == v.spec_code() ==> w == v,
{
}

/// A known co-processor is told apart from every other by its byte.
pub proof fn lemma_zk_co_processor_roundtrip(z: ZkCoProcessorType, y: ZkCoProcessorType)
    requires
        z != ZkCoProcessorType::Invalid,
    ensures
        y.spec_code() == z.spec_code() ==> y == z,
{
}

/// The bytes of a sequence of 32-byte words, in order.
pub open spec fn words32(s: Seq<[u8; 32]>) -> Seq<u8>
    decreases s.len(),
{
    if s.len() == 0 {
        seq![]
    } else {
        words32(s.drop_last()) + s.last()@
    }
}

/// The bytes of a sequence of 20-byte words, in order.
pub open spec fn words20(s: Seq<[u8; 20]>) -> Seq<u8>
    decreases s.len(),
{
    if s.len() == 0 {
        seq![]
    } else {
        words20(s.drop_last()) + s.last()@
    }
}

/// The certificate count that a journal's header announces.
pub open spec fn journal_cert_count(b: Seq<u8>) -> u32 {
    bytes::from_be_u32(b.subrange(10, 14))
}

/// The length that a journal announcing `n` certificates takes.
pub open spec fn journal_len_for(n: nat) -> int {
    (14 + 52 * n + 32) as int
}

/// Which error decoding the bytes `b` as a journal gives, if any.
pub open spec fn journal_decode_error(b: Seq<u8>) -> Option<StubError> {
    if b.len() < 14 {
        Some(StubError::JournalTooShort { got: b.len() as usize })
    } else if b[0] > 2 {
        Some(StubError::UnknownVerificationResult { value: b[0] })
    } else if b.len() < journal_len_for(journal_cert_count(b) as nat) {
        Some(
            StubError::JournalTooShortForCerts {
                needed: journal_len_for(journal_cert_count(b) as nat) as u64,
                cert_size: journal_cert_count(b),
                got: b.len() as usize,
            },
        )
    } else {
        None
    }
}

/// The ABI encoding (as a `(uint64, bytes, bytes[])` tuple) of a verifier input
/// with these fields.
pub uninterp spec fn abi_encoded_verifier_input(
    timestamp: u64,
    raw_report: Seq<u8>,
    vek_der_chain: Seq<Seq<u8>>,
) -> Seq<u8>;

/// The fields that ABI-decoding `data` as a `(uint64, bytes, bytes[])` tuple gives,
/// or `None` where `data` is no such encoding.
pub uninterp spec fn abi_decoded_verifier_input(data: Seq<u8>) -> Option<(u64, Seq<u8>, Seq<Seq<u8>>)>;

/// The Keccak-256 digest of `data`.
pub uninterp spec fn keccak256_digest(data: Seq<u8>) -> Seq<u8>;

/// The byte strings of a list of byte vectors.
pub open spec fn chain_view(chain: Seq<Vec<u8>>) -> Seq<Seq<u8>> {
    chain.map_values(|c: Vec<u8>| c@)
}

/// Calls `SolValue::abi_encode` of `alloy_sol_types` on the tuple
/// `(timestamp, raw_report, vek_der_chain)` (types `uint64, bytes, bytes[]`).
/// Trusted: the result is the named encoding of exactly these arguments.
#[verifier::external_body]
fn abi_encode_input_tuple(timestamp: u64, raw_report: &Vec<u8>, vek_der_chain: &Vec<Vec<u8>>) -> (r:
    Vec<u8>)
    ensures
        r@ == abi_encoded_verifier_input(timestamp, raw_report@, chain_view(vek_der_chain@)),
{
    let chain: Vec<Bytes> = vek_der_chain.iter().map(|c| Bytes::from(c.clone())).collect();
    (timestamp, Bytes::from(raw_report.clone()), chain).abi_encode()
}

/// The fields of a decoded tuple, the byte vectors by their contents.
pub open spec fn decoded_fields(d: Option<(u64, Vec<u8>, Vec<Vec<u8>>)>) -> Option<
    (u64, Seq<u8>, Seq<Seq<u8>>),
> {
    match d {
        Some((t, rep, chain)) => Some((t, rep@, chain_view(chain@))),
        None => None,
    }
}

/// The memory that the ABI decoder charges against its limit for a verifier
/// input with these fields: the bytes of the report and of each certificate,
/// and one slice handle (at most 16 bytes) per certificate.
pub open spec fn abi_decode_footprint(rep: Seq<u8>, chain: Seq<Seq<u8>>) -> nat {
    rep.len() + total_len(chain) + 16 * chain.len()
}

/// The total length of byte strings.
pub open spec fn total_len(chain: Seq<Seq<u8>>) -> nat
    decreases chain.len(),
{
    if chain.len() == 0 {
        0
    } else {
        total_len(chain.drop_last()) + chain.last().len()
    }
}

/// The memory limit of the ABI decoder's default configuration: 1 GiB.
pub const ABI_DECODE_MEMORY_LIMIT: u64 = 1073741824;

/// Calls `SolValue::abi_decode` of `alloy_sol_types` for the tuple type
/// `(uint64, bytes, bytes[])`, with the decode error mapped to `None`.
/// Trusted: the result is the named decoding of exactly these bytes, and
/// decoding the encoding of a tuple gives that tuple back where decoding it
/// stays within the decoder's memory limit (above it the decoder refuses).
#[verifier::external_body]
fn abi_decode_input_tuple(data: &[u8]) -> (r: Option<(u64, Vec<u8>, Vec<Vec<u8>>)>)
    ensures
        match r {
            Some((t, rep, chain)) => abi_decoded_verifier_input(data@) == Some(
                (t, rep@, chain_view(chain@)),
            ),
            None => abi_decoded_verifier_input(data@) is None,
        },
        forall|t: u64, rep: Seq<u8>, chain: Seq<Seq<u8>>|
            data@ == #[trigger] abi_encoded_verifier_input(t, rep, chain) && abi_decode_footprint(
                rep,
                chain,
            ) <= ABI_DECODE_MEMORY_LIMIT ==> decoded_fields(r) == Some((t, rep, chain)),
{
    match <(u64, Bytes, Vec<Bytes>)>::abi_decode(data) {
        Ok((t, rep, chain)) => Some((t, rep.to_vec(), chain.into_iter().map(|c| c.to_vec()).collect())),
        Err(_) => None,
    }
}

/// Calls `tiny_keccak::Keccak::v256`, `update` and `finalize`.
/// Trusted: the 32 bytes written are the named digest of `data`.
#[verifier::external_body]
fn keccak_v256(data: &[u8]) -> (r: [u8; 32])
    ensures
        r@ == keccak256_digest(data@),
{
    let mut hasher = Keccak::v256();
    let mut output = [0u8; 32];
    hasher.update(data);
    hasher.finalize(&mut output);
    output
}

/// Compute keccak256 hash of the given data
pub fn keccak256(data: &[u8]) -> (r: [u8; 32])
    ensures
        r@ == keccak256_digest(data@),
{
    keccak_v256(data)
}

/// What the zkVM verifier program reads: the attestation time, the raw
/// attestation report and the VEK certificate chain in DER.
#[allow(non_snake_case)]
#[derive(Debug)]
pub struct VerifierInput {
    pub timestamp: u64,
    pub rawReport: Vec<u8>,
    pub vekDerChain: Vec<Vec<u8>>,
}

impl VerifierInput {
    /// The ABI encoding of the input.
    pub fn encode(&self) -> (r: Vec<u8>)
        ensures
            r@ == abi_encoded_verifier_input(
                self.timestamp,
                self.rawReport@,
                chain_view(self.vekDerChain@),
            ),
    {
        abi_encode_input_tuple(self.timestamp, &self.rawReport, &self.vekDerChain)
    }

    /// The input that the decoded fields give; an error where the bytes did not decode.
    pub fn from_decoded(decoded: Option<(u64, Vec<u8>, Vec<Vec<u8>>)>) -> (r: Result<
        VerifierInput,
        StubError,
    >)
        ensures
            match decoded {
                Some((t, rep, chain)) => r matches Ok(v) && v.timestamp == t && v.rawReport@
                    == rep@ && v.vekDerChain@ == chain@,
                None => r == Err::<VerifierInput, StubError>(StubError::VerifierInputDecode),
            },
    {
        match decoded {
            Some((timestamp, raw_report, chain)) => Ok(
                VerifierInput { timestamp, rawReport: raw_report, vekDerChain: chain },
            ),
            None => Err(StubError::VerifierInputDecode),
        }
    }

    /// Decodes an ABI-encoded input. The encoding of an input decodes back to it
    /// where the decoder's memory count for it stays within its limit.
    pub fn decode(input: &[u8]) -> (r: Result<VerifierInput, StubError>)
        ensures
            match r {
                Ok(v) => abi_decoded_verifier_input(input@) == Some(
                    (v.timestamp, v.rawReport@, chain_view(v.vekDerChain@)),
                ),
                Err(e) => abi_decoded_verifier_input(input@) is None && e
                    == StubError::VerifierInputDecode,
            },
            forall|t: u64, rep: Seq<u8>, chain: Seq<Seq<u8>>|
                input@ == #[trigger] abi_encoded_verifier_input(t, rep, chain)
                    && abi_decode_footprint(rep, chain) <= ABI_DECODE_MEMORY_LIMIT ==> (r matches Ok(
                    v,
                ) && v.timestamp == t && v.rawReport@ == rep && chain_view(v.vekDerChain@)
                    == chain),
    {
        let decoded = abi_decode_input_tuple(input);
        VerifierInput::from_decoded(decoded)
    }
}

/// The output a verifier program commits to for one attestation report.
#[allow(non_snake_case)]
#[derive(Debug)]
pub struct VerifierJournal {
    pub result: VerificationResult,
    pub timestamp: u64,
    pub processorModel: u8,
    pub reportHash: [u8; 32],
    pub certs: Vec<[u8; 32]>,
    /// Certificate serial numbers (uint160), 20 bytes each, most significant first.
    pub certSerials: Vec<[u8; 20]>,
}

/// The journal's byte layout (multi-byte values big-endian):
/// u8 result | u64 timestamp | u8 processorModel | u32 certSize |
/// bytes32[certSize] certs | u160[certSize] certSerials | bytes32 reportHash
pub open spec fn journal_bytes(j: VerifierJournal) -> Seq<u8> {
    seq![j.result.spec_code()] + bytes::be_u64(j.timestamp) + seq![j.processorModel] + bytes::be_u32(
        j.certs@.len() as u32,
    ) + words32(j.certs@) + words20(j.certSerials@) + j.reportHash@
}

/// The bytes `b` hold the journal `j`: its fields stand at their places in `b`.
pub open spec fn journal_decodes_to(b: Seq<u8>, j: VerifierJournal) -> bool {
    let n = journal_cert_count(b) as int;
    &&& j.result.spec_code() == b[0]
    &&& j.timestamp == bytes::from_be_u64(b.subrange(1, 9))
    &&& j.processorModel == b[9]
    &&& j.certs@.len() == n
    &&& j.certSerials@.len() == n
    &&& forall|i: int| 0 <= i < n ==> #[trigger] j.certs@[i]@ == b.subrange(14 + 32 * i, 46 + 32 * i)
    &&& forall|i: int|
        0 <= i < n ==> #[trigger] j.certSerials@[i]@ == b.subrange(
            14 + 32 * n + 20 * i,
            34 + 32 * n + 20 * i,
        )
    &&& j.reportHash@ == b.subrange(14 + 52 * n, 46 + 52 * n)
}

/// A journal whose encoding decodes back to it.
pub open spec fn journal_well_formed(j: VerifierJournal) -> bool {
    &&& j.result != VerificationResult::Invalid
    &&& j.certs@.len() == j.certSerials@.len()
    &&& j.certs@.len() <= u32::MAX
}

/// Length and placement of the words in `words32`.
pub proof fn lemma_words32(s: Seq<[u8; 32]>)
    ensures
        words32(s).len() == 32 * s.len(),
        forall|i: int|
            0 <= i < s.len() ==> #[trigger] words32(s).subrange(32 * i, 32 * i + 32) == s[i]@,
    decreases s.len(),
{
    if s.len() > 0 {
        let p = s.drop_last();
        lemma_words32(p);
        assert forall|i: int| 0 <= i < s.len() implies #[trigger] words32(s).subrange(
            32 * i,
            32 * i + 32,
        ) == s[i]@ by {
            if i < p.len() {
                assert(words32(p).subrange(32 * i, 32 * i + 32) == p[i]@);
                assert(words32(s).subrange(32 * i, 32 * i + 32) =~= words32(p).subrange(
                    32 * i,
                    32 * i + 32,
                ));
            } else {
                assert(words32(s).subrange(32 * i, 32 * i + 32) =~= s.last()@);
            }
        }
    }
}

/// Length and placement of the words in `words20`.
pub proof fn lemma_words20(s: Seq<[u8; 20]>)
    ensures
        words20(s).len() == 20 * s.len(),
        forall|i: int|
            0 <= i < s.len() ==> #[trigger] words20(s).subrange(20 * i, 20 * i + 20) == s[i]@,
    decreases s.len(),
{
    if s.len() > 0 {
        let p = s.drop_last();
        lemma_words20(p);
        assert forall|i: int| 0 <= i < s.len() implies #[trigger] words20(s).subrange(
            20 * i,
            20 * i + 20,
        ) == s[i]@ by {
            if i < p.len() {
                assert(words20(p).subrange(20 * i, 20 * i + 20) == p[i]@);
                assert(words20(s).subrange(20 * i, 20 * i + 20) =~= words20(p).subrange(
                    20 * i,
                    20 * i + 20,
                ));
            } else {
                assert(words20(s).subrange(20 * i, 20 * i + 20) =~= s.last()@);
            }
        }
    }
}

/// Decoding the encoding of a well-formed journal gives that journal back:
/// no error, and every field in its place.
pub proof fn lemma_journal_decode_encode(j: VerifierJournal)
    requires
        journal_well_formed(j),
    ensures
        journal_decode_error(journal_bytes(j)) is None,
        journal_decodes_to(journal_bytes(j), j),
{
    let b = journal_bytes(j);
    let n = j.certs@.len() as int;
    let c = words32(j.certs@);
    let s = words20(j.certSerials@);
    lemma_words32(j.certs@);
    lemma_words20(j.certSerials@);
    let head = seq![j.result.spec_code()] + bytes::be_u64(j.timestamp) + seq![j.processorModel] + bytes::be_u32(
        n as u32,
    );
    assert(head.len() == 14);
    assert(n <= u32::MAX);
    assert(b =~= head + c + s + j.reportHash@);
    assert(b.subrange(1, 9) =~= bytes::be_u64(j.timestamp));
    assert(b.subrange(10, 14) =~= bytes::be_u32(n as u32));
    bytes::lemma_from_be_u64_of_be_u64(j.timestamp);
    bytes::lemma_from_be_u32_of_be_u32(n as u32);
    assert(journal_cert_count(b) == n);
    assert(b.len() == journal_len_for(n as nat));
    assert forall|i: int| 0 <= i < n implies #[trigger] j.certs@[i]@ == b.subrange(
        14 + 32 * i,
        46 + 32 * i,
    ) by {
        assert(b.subrange(14 + 32 * i, 46 + 32 * i) =~= c.subrange(32 * i, 32 * i + 32));
    }
    assert forall|i: int| 0 <= i < n implies #[trigger] j.certSerials@[i]@ == b.subrange(
        14 + 32 * n + 20 * i,
        34 + 32 * n + 20 * i,
    ) by {
        assert(b.subrange(14 + 32 * n + 20 * i, 34 + 32 * n + 20 * i) =~= s.subrange(
            20 * i,
            20 * i + 20,
        ));
    }
    assert(b.subrange(14 + 52 * n, 46 + 52 * n) =~= j.reportHash@);
}

/// A journal read from bytes is well formed, and encoding it gives back the
/// bytes that it was read from, up to the end of its report hash.
pub proof fn lemma_journal_encode_decode(b: Seq<u8>, j: VerifierJournal)
    requires
        journal_decode_error(b) is None,
        journal_decodes_to(b, j),
    ensures
        journal_well_formed(j),
        journal_bytes(j) == b.subrange(0, journal_len_for(journal_cert_count(b) as nat)),
{
    let n = journal_cert_count(b) as int;
    let e = journal_bytes(j);
    lemma_words32(j.certs@);
    lemma_words20(j.certSerials@);
    let c = words32(j.certs@);
    let s = words20(j.certSerials@);
    bytes::lemma_be_u64_of_from_be_u64(b.subrange(1, 9));
    bytes::lemma_be_u32_of_from_be_u32(b.subrange(10, 14));
    assert(c =~= b.subrange(14, 14 + 32 * n)) by {
        assert forall|k: int| 0 <= k < 32 * n implies c[k] == b[14 + k] by {
            let i = k / 32;
            assert(0 <= i < n && 32 * i <= k < 32 * i + 32) by (nonlinear_arith)
                requires
                    0 <= k < 32 * n,
                    i == k / 32,
            ;
            assert(c.subrange(32 * i, 32 * i + 32)[k - 32 * i] == c[k]);
            assert(b.subrange(14 + 32 * i, 46 + 32 * i)[k - 32 * i] == b[14 + k]);
            assert(j.certs@[i]@ == b.subrange(14 + 32 * i, 46 + 32 * i));
        }
    }
    assert(s =~= b.subrange(14 + 32 * n, 14 + 52 * n)) by {
        assert forall|k: int| 0 <= k < 20 * n implies s[k] == b[14 + 32 * n + k] by {
            let i = k / 20;
            assert(0 <= i < n && 20 * i <= k < 20 * i + 20) by (nonlinear_arith)
                requires
                    0 <= k < 20 * n,
                    i == k / 20,
            ;
            assert(s.subrange(20 * i, 20 * i + 20)[k - 20 * i] == s[k]);
            assert(b.subrange(14 + 32 * n + 20 * i, 34 + 32 * n + 20 * i)[k - 20 * i] == b[14
                + 32 * n + k]);
            assert(j.certSerials@[i]@ == b.subrange(14 + 32 * n + 20 * i, 34 + 32 * n + 20 * i));
        }
    }
    assert(j.result != VerificationResult::Invalid);
    assert(j.certs@.len() as u32 == journal_cert_count(b));
    assert(e =~= b.subrange(0, journal_len_for(n as nat)));
}

/// Appends the bytes of `src` to `out`.
fn push_all(out: &mut Vec<u8>, src: &[u8])
    ensures
        final(out)@ == old(out)@ + src@,
{
    let n = src.len();
    for i in 0..n
        invariant
            n == src@.len(),
            out@ == old(out)@ + src@.take(i as int),
    {
        out.push(src[i]);
        assert(src@.take(i + 1) =~= src@.take(i as int).push(src@[i as int]));
    }
    assert(src@.take(n as int) =~= src@);
}

/// The 32 bytes at `input[at..at + 32]`.
fn read_array32(input: &[u8], at: usize) -> (r: [u8; 32])
    requires
        at + 32 <= input@.len(),
    ensures
        r@ == input@.subrange(at as int, at + 32),
{
    let len = input.len();
    let mut arr = [0u8; 32];
    for t in 0..32
        invariant
            len == input@.len(),
            at + 32 <= input@.len(),
            arr@.len() == 32,
            forall|k: int| 0 <= k < t ==> arr@[k] == input@[at + k],
    {
        arr[t] = input[at + t];
    }
    assert(arr@ =~= input@.subrange(at as int, at + 32));
    arr
}

/// The 20 bytes at `input[at..at + 20]`.
fn read_array20(input: &[u8], at: usize) -> (r: [u8; 20])
    requires
        at + 20 <= input@.len(),
    ensures
        r@ == input@.subrange(at as int, at + 20),
{
    let len = input.len();
    let mut arr = [0u8; 20];
    for t in 0..20
        invariant
            len == input@.len(),
            at + 20 <= input@.len(),
            arr@.len() == 20,
            forall|k: int| 0 <= k < t ==> arr@[k] == input@[at + k],
    {
        arr[t] = input[at + t];
    }
    assert(arr@ =~= input@.subrange(at as int, at + 20));
    arr
}

impl VerifierJournal {
    /// Encode the journal as raw bytes concatenation (big-endian for multi-byte values):
    ///   u8 result | u64 timestamp | u8 processorModel | u32 certSize |
    ///   bytes32[certSize] certs | u160[certSize] certSerials | bytes32 reportHash
    pub fn encode(&self) -> (r: Vec<u8>)
        ensures
            r@ == journal_bytes(*self),
    {
        let cert_size = self.certs.len() as u32;
        let mut buf: Vec<u8> = Vec::new();
        buf.push(self.result.code());
        push_be_u64(&mut buf, self.timestamp);
        buf.push(self.processorModel);
        push_be_u32(&mut buf, cert_size);
        let ghost head = buf@;
        let n = self.certs.len();
        for i in 0..n
            invariant
                n == self.certs@.len(),
                buf@ == head + words32(self.certs@.take(i as int)),
        {
            let cert: &[u8; 32] = &self.certs[i];
            push_all(&mut buf, cert.as_slice());
            assert(self.certs@.take(i + 1).drop_last() =~= self.certs@.take(i as int));
        }
        assert(self.certs@.take(n as int) =~= self.certs@);
        let ghost mid = buf@;
        let m = self.certSerials.len();
        for i in 0..m
            invariant
                m == self.certSerials@.len(),
                buf@ == mid + words20(self.certSerials@.take(i as int)),
        {
            let serial: &[u8; 20] = &self.certSerials[i];
            push_all(&mut buf, serial.as_slice());
            assert(self.certSerials@.take(i + 1).drop_last() =~= self.certSerials@.take(
                i as int,
            ));
        }
        assert(self.certSerials@.take(m as int) =~= self.certSerials@);
        push_all(&mut buf, self.reportHash.as_slice());
        assert(buf@ =~= journal_bytes(*self));
        buf
    }

    /// Decode the journal from raw bytes concatenation (inverse of encode).
    /// Bytes after the report hash are ignored.
    pub fn decode(input: &[u8]) -> (r: Result<VerifierJournal, StubError>)
        ensures
            match r {
                Ok(j) => journal_decode_error(input@) is None && journal_decodes_to(input@, j),
                Err(e) => journal_decode_error(input@) == Some(e),
            },
    {
        if input.len() < 14 {
            return Err(StubError::JournalTooShort { got: input.len() });
        }
        let result_byte = input[0];
        let result = match result_byte {
            0 => VerificationResult::Success,
            1 => VerificationResult::RootCertNotTrusted,
            2 => VerificationResult::InvalidTimestamp,
            _ => {
                return Err(StubError::UnknownVerificationResult { value: result_byte });
            },
        };
        let timestamp = read_be_u64(input, 1);
        let processor_model = input[9];
        let cert_size = read_be_u32(input, 10);
        let needed: u64 = 14 + 52 * (cert_size as u64) + 32;
        if (input.len() as u64) < needed {
            return Err(
                StubError::JournalTooShortForCerts {
                    needed,
                    cert_size,
                    got: input.len(),
                },
            );
        }
        let n = cert_size as usize;
        let len = input.len();
        let ghost b = input@;
        let mut certs: Vec<[u8; 32]> = Vec::new();
        for k in 0..n
            invariant
                b == input@,
                len == b.len(),
                n == cert_size,
                journal_len_for(n as nat) <= b.len(),
                certs@.len() == k,
                forall|i: int| 0 <= i < k ==> #[trigger] certs@[i]@ == b.subrange(14 + 32 * i, 46 + 32 * i),
        {
            assert(14 + 32 * k + 32 <= journal_len_for(n as nat)) by (nonlinear_arith)
                requires
                    k < n,
            ;
            let arr = read_array32(input, 14 + 32 * k);
            certs.push(arr);
        }
        let mut cert_serials: Vec<[u8; 20]> = Vec::new();
        for k in 0..n
            invariant
                b == input@,
                len == b.len(),
                n == cert_size,
                journal_len_for(n as nat) <= b.len(),
                cert_serials@.len() == k,
                forall|i: int|
                    0 <= i < k ==> #[trigger] cert_serials@[i]@ == b.subrange(
                        14 + 32 * n + 20 * i,
                        34 + 32 * n + 20 * i,
                    ),
        {
            assert(14 + 32 * n + 20 * k + 20 <= journal_len_for(n as nat)) by (nonlinear_arith)
                requires
                    k < n,
            ;
            let arr = read_array20(input, 14 + 32 * n + 20 * k);
            cert_serials.push(arr);
        }
        let report_hash = read_array32(input, 14 + 52 * n);
        Ok(
            VerifierJournal {
                result,
                timestamp,
                processorModel: processor_model,
                reportHash: report_hash,
                certs,
                certSerials: cert_serials,
            },
        )
    }
}

} // verus!
