//! How the verifier's values cross to the on-chain verifier contract and back:
//! the contract numbers its enums by the same bytes as the verifier.
use vstd::prelude::*;

use crate::stub::{ProcessorType, VerificationResult, VerifierJournal, ZkCoProcessorType};

verus! {

/// Errors at the contract boundary.
#[derive(Debug, PartialEq, Eq, Structural)]
pub enum ContractError {
    /// "invalid ZK coprocessor type"
    InvalidZkCoProcessorType,
    /// "invalid processor type"
    InvalidProcessorType,
    /// "invalid verification result"
    InvalidVerificationResult,
}

/// The contract's co-processor type for a co-processor: the same, carried by
/// its byte; an error for a byte outside the contract's enum.
pub fn contract_zk_type(zk: ZkCoProcessorType) -> (r: Result<ZkCoProcessorType, ContractError>)
    ensures
        zk != ZkCoProcessorType::Invalid ==> r == Ok::<ZkCoProcessorType, ContractError>(zk),
        zk == ZkCoProcessorType::Invalid ==> r == Err::<ZkCoProcessorType, ContractError>(
            ContractError::InvalidZkCoProcessorType,
        ),
{
    match ZkCoProcessorType::from_code(zk.code()) {
        Some(z) => Ok(z),
        None => Err(ContractError::InvalidZkCoProcessorType),
    }
}

/// The contract's processor model for a model: the same, carried by its byte;
/// an error for a byte outside the contract's enum.
pub fn contract_processor_type(processor: ProcessorType) -> (r: Result<
    ProcessorType,
    ContractError,
>)
    ensures
        processor != ProcessorType::Invalid ==> r == Ok::<ProcessorType, ContractError>(
            processor,
        ),
        processor == ProcessorType::Invalid ==> r == Err::<ProcessorType, ContractError>(
            ContractError::InvalidProcessorType,
        ),
{
    match ProcessorType::from_code(processor.code()) {
        Ok(p) => Ok(p),
        Err(_) => Err(ContractError::InvalidProcessorType),
    }
}

/// The verification result that the contract's result byte stands for.
pub fn verifier_result(result: u8) -> (r: Result<VerificationResult, ContractError>)
    ensures
        result <= 2 ==> (r matches Ok(v) && v.spec_code() == result),
        result > 2 ==> r == Err::<VerificationResult, ContractError>(
            ContractError::InvalidVerificationResult,
        ),
{
    match VerificationResult::from_code(result) {
        Some(v) => Ok(v),
        None => Err(ContractError::InvalidVerificationResult),
    }
}

/// A journal as the contract returns it: the result by its byte.
#[allow(non_snake_case)]
#[derive(Debug)]
pub struct ContractVerifierJournal {
    pub result: u8,
    pub timestamp: u64,
    pub processorModel: u8,
    pub reportHash: [u8; 32],
    pub certs: Vec<[u8; 32]>,
    pub certSerials: Vec<[u8; 20]>,
}

/// The verifier's journal for the contract's: the same fields, the result read
/// from its byte.
pub fn verifier_journal(journal: ContractVerifierJournal) -> (r: Result<
    VerifierJournal,
    ContractError,
>)
    ensures
        journal.result <= 2 ==> (r matches Ok(j) && j.result.spec_code() == journal.result
            && j.timestamp == journal.timestamp && j.processorModel == journal.processorModel
            && j.reportHash == journal.reportHash && j.certs@ == journal.certs@ && j.certSerials@
            == journal.certSerials@),
        journal.result > 2 ==> r matches Err(ContractError::InvalidVerificationResult),
{
    let result = verifier_result(journal.result)?;
    Ok(
        VerifierJournal {
            result,
            timestamp: journal.timestamp,
            processorModel: journal.processorModel,
            reportHash: journal.reportHash,
            certs: journal.certs,
            certSerials: journal.certSerials,
        },
    )
}

} // verus!
