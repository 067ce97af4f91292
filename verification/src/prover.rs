//! The decisions of the attestation prover around its outside services: what a
//! Boundless proof request asks for, what the fulfillment yields, how the
//! verifier input is finished, and how parallel task results are gathered.
use alloy_primitives::hex;
use vstd::prelude::*;
use vstd::slice::slice_subrange;
use vstd::string::StringExecFns;

use crate::config::{ProgramPico, RiscZeroProverConfig, DEFAULT_TIMEOUT_BUFFER};
use crate::stub::VerifierInput;

verus! {

/// Errors of the prover's decisions.
#[derive(Debug)]
pub enum ProverError {
    /// "missing BOUNDLESS_RPC_URL"
    MissingBoundlessRpcUrl,
    /// "missing BOUNDLESS_PRIVATE_KEY"
    MissingBoundlessPrivateKey,
    /// "Failed to decode private key (must be hex-encoded)"
    PrivateKeyNotHex,
    /// "Fulfillment has no journal data"
    FulfillmentWithoutJournal,
    /// "Unexpected fulfillment data type"
    UnexpectedFulfillmentData,
    /// "Program ID verification failed ... Set SKIP_CONTRACT_PROGRAM_ID_CHECK=true to ignore this check."
    ProgramIdMismatch,
    /// The certificate chain does not parse or does not verify.
    ChainNotVerified,
    /// The certificate chain is not valid at the attestation time.
    ChainNotValidAtTimestamp,
    /// The proof text of an SP1 proof is not hex.
    ProofNotHex,
    /// "Failed to deserialize proof"
    ProofUndecodable,
    /// "Expected exactly 8 proof elements"
    ProofElementCount,
    /// "Pico marketplace upload is reserved for the next task; only local/dev Pico proving is supported in this refactor."
    PicoUploadReserved,
}

/// Whether a proof is to be verified on chain (Groth16) or aggregated (Composite).
#[derive(Debug, Clone, Copy, PartialEq, Eq, Structural)]
pub enum RawProofType {
    Groth16,
    Composite,
}

/// A proof as the prover produces it: the serialized proof and the journal it
/// commits to.
#[derive(Debug)]
pub struct RawProof {
    pub encoded_proof: Vec<u8>,
    pub journal: Vec<u8>,
}

/// The endpoint and key text that a Boundless request needs.
pub fn boundless_credentials(cfg: &RiscZeroProverConfig) -> (r: Result<
    (String, String),
    ProverError,
>)
    ensures
        match cfg.rpc_url {
            None => r matches Err(ProverError::MissingBoundlessRpcUrl),
            Some(url) => match cfg.private_key {
                None => r matches Err(ProverError::MissingBoundlessPrivateKey),
                Some(key) => r matches Ok((u, k)) && u == url && k == key,
            },
        },
{
    let rpc_url = match &cfg.rpc_url {
        Some(u) => u.clone(),
        None => {
            return Err(ProverError::MissingBoundlessRpcUrl);
        },
    };
    let private_key = match &cfg.private_key {
        Some(k) => k.clone(),
        None => {
            return Err(ProverError::MissingBoundlessPrivateKey);
        },
    };
    Ok((rpc_url, private_key))
}

/// The value of a hexadecimal digit (either case), if the byte is one.
pub open spec fn hex_digit(c: u8) -> Option<u8> {
    if 48 <= c <= 57 {
        Some((c - 48) as u8)
    } else if 97 <= c <= 102 {
        Some((c - 87) as u8)
    } else if 65 <= c <= 70 {
        Some((c - 55) as u8)
    } else {
        None
    }
}

/// The text without one leading `0x` or `0X`.
pub open spec fn strip_hex_prefix(s: Seq<u8>) -> Seq<u8> {
    if s.len() >= 2 && s[0] == 48 && (s[1] == 120 || s[1] == 88) {
        s.skip(2)
    } else {
        s
    }
}

/// The bytes that a hex text decodes to: the text has an even length, and after
/// one optional `0x`/`0X` prefix holds only hex digits, two per byte, high first.
pub open spec fn spec_hex_decode(s: Seq<u8>) -> Option<Seq<u8>> {
    let t = strip_hex_prefix(s);
    if s.len() % 2 != 0 {
        None
    } else if exists|i: int| 0 <= i < t.len() && hex_digit(#[trigger] t[i]) is None {
        None
    } else {
        Some(
            Seq::new(
                t.len() / 2,
                |i: int| (hex_digit(t[2 * i]).unwrap() * 16 + hex_digit(t[2 * i + 1]).unwrap()) as u8,
            ),
        )
    }
}

/// Calls `alloy_primitives::hex::decode` (the `const_hex` crate), with the
/// error mapped to `None`. Trusted: as its documentation says, it accepts an
/// even-length text of hex digits of either case after an optional `0x`
/// prefix, and gives two digits per byte.
#[verifier::external_body]
pub(crate) fn hex_decode(input: &[u8]) -> (r: Option<Vec<u8>>)
    ensures
        match r {
            Some(v) => spec_hex_decode(input@) == Some(v@),
            None => spec_hex_decode(input@) is None,
        },
{
    hex::decode(input).ok()
}

/// The text without any leading repetitions of `0x`.
pub open spec fn trim_0x(s: Seq<u8>) -> Seq<u8>
    decreases s.len(),
{
    if s.len() >= 2 && s[0] == 48 && s[1] == 120 {
        trim_0x(s.skip(2))
    } else {
        s
    }
}

/// The private key bytes that a hex text gives, once all leading `0x` are trimmed.
pub fn decode_private_key(key_hex: &str) -> (r: Result<Vec<u8>, ProverError>)
    ensures
        match spec_hex_decode(trim_0x(vstd::utf8::encode_utf8(key_hex@))) {
            Some(b) => r matches Ok(v) && v@ == b,
            None => r matches Err(ProverError::PrivateKeyNotHex),
        },
{
    let bytes = key_hex.as_bytes();
    let n = bytes.len();
    let mut k: usize = 0;
    assert(bytes@.skip(0) =~= bytes@);
    while n - k >= 2 && bytes[k] == 48 && bytes[k + 1] == 120
        invariant
            n == bytes@.len(),
            k <= n,
            trim_0x(bytes@) == trim_0x(bytes@.skip(k as int)),
        decreases n - k,
    {
        assert(bytes@.skip(k as int).skip(2) =~= bytes@.skip(k + 2));
        k = k + 2;
    }
    assert(trim_0x(bytes@.skip(k as int)) == bytes@.skip(k as int));
    let rest = slice_subrange(bytes, k, n);
    assert(rest@ =~= bytes@.skip(k as int));
    match hex_decode(rest) {
        Some(v) => Ok(v),
        None => Err(ProverError::PrivateKeyNotHex),
    }
}

/// The offer of a Boundless proof request.
#[derive(Debug, Clone, Copy)]
pub struct BoundlessOffer {
    pub min_price: Option<u128>,
    pub max_price: Option<u128>,
    pub lock_timeout: Option<u32>,
    pub timeout: Option<u32>,
    pub ramp_up_period: Option<u32>,
    pub lock_collateral: u128,
}

/// What a Boundless proof request asks for, besides its input.
#[derive(Debug)]
pub struct BoundlessRequest {
    /// The program by URL, or else the ELF image is uploaded.
    pub program_url: Option<String>,
    /// Ask for a Groth16 proof.
    pub groth16: bool,
    pub offer: BoundlessOffer,
    /// Price bounds per cycle of the client's offer layer.
    pub client_min_price: u128,
    pub client_max_price: u128,
}

/// The request that the configuration asks for: prices only where set, the
/// lock timeout and the timeout with two buffers added, the default collateral,
/// a Groth16 proof where the proof type is Groth16.
pub fn boundless_request(cfg: &RiscZeroProverConfig, program_url: Option<&str>) -> (r:
    BoundlessRequest)
    requires
        cfg.timeout matches Some(t) ==> t + 2 * DEFAULT_TIMEOUT_BUFFER <= u32::MAX,
    ensures
        match program_url {
            Some(u) => r.program_url matches Some(p) && p@ == u@,
            None => r.program_url is None,
        },
        r.groth16 == (cfg.proof_type == crate::config::BoundlessProofType::Groth16),
        r.offer.min_price == cfg.min_price,
        r.offer.max_price == cfg.max_price,
        r.offer.lock_timeout == match cfg.timeout {
            Some(t) => Some(t),
            None => None::<u32>,
        },
        r.offer.timeout == match cfg.timeout {
            Some(t) => Some((t + 2 * DEFAULT_TIMEOUT_BUFFER) as u32),
            None => None::<u32>,
        },
        r.offer.ramp_up_period == cfg.ramp_up_period,
        r.offer.lock_collateral == crate::config::DEFAULT_COLLATERAL_WEI,
        r.client_min_price == match cfg.min_price {
            Some(p) => p,
            None => crate::config::DEFAULT_MIN_PRICE_WEI,
        },
        r.client_max_price == match cfg.max_price {
            Some(p) => p,
            None => crate::config::DEFAULT_MAX_PRICE_WEI,
        },
{
    let program_url = match program_url {
        Some(u) => Some(String::from_str(u)),
        None => None,
    };
    let (lock_timeout, timeout) = match cfg.effective_timeout() {
        Some((lock_timeout, timeout)) => (Some(lock_timeout), Some(timeout + 600)),
        None => (None, None),
    };
    let offer = BoundlessOffer {
        min_price: cfg.min_price,
        max_price: cfg.max_price,
        lock_timeout,
        timeout,
        ramp_up_period: cfg.ramp_up_period,
        lock_collateral: cfg.effective_collateral(),
    };
    BoundlessRequest {
        program_url,
        groth16: cfg.proof_type == crate::config::BoundlessProofType::Groth16,
        offer,
        client_min_price: cfg.effective_min_price(),
        client_max_price: cfg.effective_max_price(),
    }
}

/// The data that a fulfilled Boundless request carries.
#[derive(Debug)]
pub enum FulfillmentData {
    ImageIdAndJournal { image_id: [u8; 32], journal: Vec<u8> },
    NoData,
    Other,
}

/// The journal of a fulfillment; an error where it carries none.
pub fn fulfillment_journal(data: FulfillmentData) -> (r: Result<Vec<u8>, ProverError>)
    ensures
        match data {
            FulfillmentData::ImageIdAndJournal { journal, .. } => r matches Ok(j) && j@
                == journal@,
            FulfillmentData::NoData => r matches Err(ProverError::FulfillmentWithoutJournal),
            FulfillmentData::Other => r matches Err(ProverError::UnexpectedFulfillmentData),
        },
{
    match data {
        FulfillmentData::ImageIdAndJournal { journal, .. } => Ok(journal),
        FulfillmentData::NoData => Err(ProverError::FulfillmentWithoutJournal),
        FulfillmentData::Other => Err(ProverError::UnexpectedFulfillmentData),
    }
}

/// The verifier input, once the certificate chain has been checked: the chain
/// in DER (`vek_der_chain`), whether it parses and verifies up to its root,
/// whether it is valid at `timestamp`, and the outcome of comparing the
/// verifier's program ID with the contract's (`None` where no contract was
/// given). A chain that does not verify always fails; then a chain not valid at
/// the timestamp fails unless `skip_time_validity_check`; then a program ID
/// mismatch fails unless `skip_program_id_check`.
pub fn finish_verifier_input(
    timestamp: u64,
    raw_report: Vec<u8>,
    vek_der_chain: Vec<Vec<u8>>,
    chain_verifies: bool,
    chain_valid_at_timestamp: bool,
    skip_time_validity_check: bool,
    program_ids_match: Option<bool>,
    skip_program_id_check: bool,
) -> (r: Result<VerifierInput, ProverError>)
    ensures
        !chain_verifies ==> r matches Err(ProverError::ChainNotVerified),
        chain_verifies && (!chain_valid_at_timestamp && !skip_time_validity_check) ==> r matches Err(
            ProverError::ChainNotValidAtTimestamp,
        ),
        chain_verifies && (chain_valid_at_timestamp || skip_time_validity_check) && (
        program_ids_match == Some(false) && !skip_program_id_check) ==> r matches Err(
            ProverError::ProgramIdMismatch,
        ),
        chain_verifies && (chain_valid_at_timestamp || skip_time_validity_check) && !(
        program_ids_match == Some(false) && !skip_program_id_check) ==> (r matches Ok(v)
            && v.timestamp == timestamp && v.rawReport@ == raw_report@ && v.vekDerChain@
            == vek_der_chain@),
{
    if !chain_verifies {
        return Err(ProverError::ChainNotVerified);
    }
    if !chain_valid_at_timestamp && !skip_time_validity_check {
        return Err(ProverError::ChainNotValidAtTimestamp);
    }
    if let Some(ids_match) = program_ids_match {
        if !ids_match && !skip_program_id_check {
            return Err(ProverError::ProgramIdMismatch);
        }
    }
    Ok(VerifierInput { timestamp, rawReport: raw_report, vekDerChain: vek_der_chain })
}

/// How many workers serve the tasks: no more than asked, no more than tasks.
pub fn worker_count(max_concurrency: usize, tasks: usize) -> (r: usize)
    ensures
        r == if max_concurrency <= tasks {
            max_concurrency
        } else {
            tasks
        },
{
    if max_concurrency <= tasks {
        max_concurrency
    } else {
        tasks
    }
}

/// The results of tasks, in task order: all values where every task succeeded,
/// otherwise the error of the first task (by index) that failed.
pub fn gather_results<T, E>(slots: Vec<Option<Result<T, E>>>) -> (r: Result<Vec<T>, E>)
    requires
        forall|i: int| 0 <= i < slots@.len() ==> #[trigger] slots@[i] is Some,
    ensures
        match r {
            Ok(values) => values@.len() == slots@.len() && forall|i: int|
                0 <= i < slots@.len() ==> slots@[i] == Some(Ok::<T, E>(#[trigger] values@[i])),
            Err(e) => exists|i: int|
                0 <= i < slots@.len() && slots@[i] == Some(Err::<T, E>(e)) && forall|j: int|
                    0 <= j < i ==> #[trigger] slots@[j] matches Some(Ok(_)),
        },
{
    let ghost all = slots@;
    let n = slots.len();
    let mut rest = slots;
    let mut values: Vec<T> = Vec::new();
    let mut i: usize = 0;
    while i < n
        invariant
            all == slots@,
            n == all.len(),
            i <= n,
            rest@ == all.skip(i as int),
            values@.len() == i,
            forall|k: int| 0 <= k < all.len() ==> #[trigger] all[k] is Some,
            forall|k: int| 0 <= k < i ==> all[k] == Some(Ok::<T, E>(#[trigger] values@[k])),
        decreases n - i,
    {
        let slot = rest.remove(0);
        proof {
            assert(slot == all[i as int]);
            assert(all.skip(i + 1) =~= all.skip(i as int).remove(0));
        }
        let res = slot.unwrap();
        assert(all[i as int] == Some(res));
        match res {
            Ok(v) => {
                values.push(v);
            },
            Err(e) => {
                assert forall|j: int| 0 <= j < i implies #[trigger] all[j] matches Some(Ok(_)) by {
                    assert(all[j] == Some(Ok::<T, E>(values@[j])));
                }
                assert(all[i as int] == Some(Err::<T, E>(e)));
                return Err(e);
            },
        }
        i = i + 1;
    }
    Ok(values)
}

/// Uploading the Pico program image to a marketplace is not offered: it always
/// fails.
pub fn upload_image(program: &ProgramPico) -> (r: Result<(), ProverError>)
    ensures
        r matches Err(ProverError::PicoUploadReserved),
{
    Err(ProverError::PicoUploadReserved)
}

} // verus!
