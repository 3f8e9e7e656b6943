use vstd::prelude::*;
use vstd::string::to_string_from_display_ensures;

verus! {

#[verifier::external_type_specification]
#[verifier::external_body]
pub struct ExStdError(cosmwasm_std::StdError);

#[verifier::external_type_specification]
#[verifier::external_body]
pub struct ExBech32Error(bech32::Error);

#[verifier::external_type_specification]
#[verifier::external_body]
pub struct ExDecodeError(prost::DecodeError);

#[verifier::external_type_specification]
#[verifier::external_body]
pub struct ExProtobufError(protobuf::Error);

#[verifier::external_type_specification]
#[verifier::external_body]
pub struct ExJsonError(schemars::_serde_json::Error);

/// The one failure type of every fallible operation in this library.
///
/// Failures of the state store, the address codec and the two decoders are
/// kept with their diagnostic text, as their `Display` renders it; the other
/// variants carry the structured context of the failure. `Std` also carries
/// the reason an outbound message failed validation, as a generic error of the
/// host's standard library would.
#[derive(Debug, Clone, PartialEq, Eq)]
pub enum ContractError {
    Std(String),
    Bech32(String),
    ProstProtobuf(String),
    Protobuf(String),
    BalanceNotFound { denom: String, recipient: String },
    EmptyStargateResult { query_type: String },
    InterchainQueryIsNotRegistered {
        zone_id: String,
        query_type: String,
        query_data_json_encoded: String,
    },
    MaxAddrLength { max: usize, actual: usize },
    EmptyInterchainQueryResult,
    RegisterInterchainQueryFailed(String),
    InvalidReplyID(u64),
}

pub type ContractResult<T> = Result<T, ContractError>;

impl ContractError {
    /// Wraps a state-store error, keeping its text.
    pub fn from_std_error(e: &cosmwasm_std::StdError) -> (r: ContractError)
        ensures
            r matches ContractError::Std(text) && to_string_from_display_ensures::<cosmwasm_std::StdError>(e, text),
    {
        ContractError::Std(e.to_string())
    }

    /// Wraps an address-codec error, keeping its text.
    pub fn from_bech32_error(e: &bech32::Error) -> (r: ContractError)
        ensures
            r matches ContractError::Bech32(text) && to_string_from_display_ensures::<bech32::Error>(e, text),
    {
        ContractError::Bech32(e.to_string())
    }

    /// Wraps a binary-decode error of the wire decoder, keeping its text.
    pub fn from_decode_error(e: &prost::DecodeError) -> (r: ContractError)
        ensures
            r matches ContractError::ProstProtobuf(text) && to_string_from_display_ensures::<prost::DecodeError>(e, text),
    {
        ContractError::ProstProtobuf(e.to_string())
    }

    /// Wraps a message-codec error, keeping its text.
    pub fn from_protobuf_error(e: &protobuf::Error) -> (r: ContractError)
        ensures
            r matches ContractError::Protobuf(text) && to_string_from_display_ensures::<protobuf::Error>(e, text),
    {
        ContractError::Protobuf(e.to_string())
    }

    /// Wraps a JSON-decode error of query parameters, keeping its text.
    pub fn from_json_error(e: &schemars::_serde_json::Error) -> (r: ContractError)
        ensures
            r matches ContractError::Protobuf(text) && to_string_from_display_ensures::<schemars::_serde_json::Error>(e, text),
    {
        ContractError::Protobuf(e.to_string())
    }
}

} // verus!
