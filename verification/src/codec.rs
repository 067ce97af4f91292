//! The verifier program as a zkVM guest: its input and output cross the guest
//! boundary in the verifier's own byte formats.
use vstd::prelude::*;

use crate::stub;
use crate::stub::{StubError, VerifierInput, VerifierJournal};

verus! {

/// The verifier program run as a zkVM guest: its input is a `VerifierInput`,
/// its output a `VerifierJournal`.
pub struct Guest;

/// The codec of the guest's input and output.
pub struct CustomCodec;

impl CustomCodec {
    /// The input's bytes: its ABI encoding.
    pub fn encode_input(input: &VerifierInput) -> (r: Vec<u8>)
        ensures
            r@ == stub::abi_encoded_verifier_input(
                input.timestamp,
                input.rawReport@,
                stub::chain_view(input.vekDerChain@),
            ),
    {
        input.encode()
    }

    /// The input that bytes hold.
    pub fn decode_input(bytes: &[u8]) -> (r: Result<VerifierInput, StubError>)
        ensures
            match r {
                Ok(v) => stub::abi_decoded_verifier_input(bytes@) == Some(
                    (v.timestamp, v.rawReport@, stub::chain_view(v.vekDerChain@)),
                ),
                Err(e) => stub::abi_decoded_verifier_input(bytes@) is None && e
                    == StubError::VerifierInputDecode,
            },
    {
        VerifierInput::decode(bytes)
    }

    /// The journal's bytes.
    pub fn encode_output(journal: &VerifierJournal) -> (r: Vec<u8>)
        ensures
            r@ == stub::journal_bytes(*journal),
    {
        journal.encode()
    }

    /// The journal that bytes hold.
    pub fn decode_output(bytes: &[u8]) -> (r: Result<VerifierJournal, StubError>)
        ensures
            match r {
                Ok(j) => stub::journal_decode_error(bytes@) is None && stub::journal_decodes_to(bytes@, j),
                Err(e) => stub::journal_decode_error(bytes@) == Some(e),
            },
    {
        VerifierJournal::decode(bytes)
    }
}

} // verus!
