use vstd::prelude::*;
use crate::commitment::{CommitmentConfig, CommitmentLevel};
use crate::keys::{signature_base58, Signature};

verus! {

/// How the data of an account is encoded in a reply.
#[derive(Clone, Copy, Debug, PartialEq, Eq, Structural)]
pub enum UiAccountEncoding {
    Binary,
    Base58,
    Base64,
    JsonParsed,
}

/// The part of an account's data that a reply holds.
#[derive(Clone, Copy, Debug, PartialEq, Eq, Structural)]
pub struct UiDataSliceConfig {
    pub offset: usize,
    pub length: usize,
}

/// The options of a request for account information.
#[derive(Clone, Copy, Debug, PartialEq, Eq, Structural)]
pub struct RpcAccountInfoConfig {
    pub encoding: Option<UiAccountEncoding>,
    pub data_slice: Option<UiDataSliceConfig>,
    pub commitment: Option<CommitmentConfig>,
    pub min_context_slot: Option<u64>,
}

impl RpcAccountInfoConfig {
    /// No option set.
    pub fn empty() -> (c: RpcAccountInfoConfig)
        ensures
            c.encoding is None,
            c.data_slice is None,
            c.commitment is None,
            c.min_context_slot is None,
    {
        RpcAccountInfoConfig {
            encoding: None,
            data_slice: None,
            commitment: None,
            min_context_slot: None,
        }
    }
}

/// The options of a request that is served from some state of the ledger.
#[derive(Clone, Copy, Debug, PartialEq, Eq, Structural)]
pub struct RpcContextConfig {
    pub commitment: Option<CommitmentConfig>,
    pub min_context_slot: Option<u64>,
}

/// The options of a request for the supply of lamports.
#[derive(Clone, Copy, Debug, PartialEq, Eq, Structural)]
pub struct RpcSupplyConfig {
    pub commitment: Option<CommitmentConfig>,
    pub exclude_non_circulating_accounts_list: bool,
}

/// The options of a request about an epoch.
#[derive(Clone, Copy, Debug, PartialEq, Eq, Structural)]
pub struct RpcEpochConfig {
    pub epoch: Option<u64>,
    pub commitment: Option<CommitmentConfig>,
    pub min_context_slot: Option<u64>,
}

/// How a transaction is encoded in a request or a reply.
#[derive(Clone, Copy, Debug, PartialEq, Eq, Structural)]
pub enum UiTransactionEncoding {
    Binary,
    Base64,
    Base58,
    Json,
    JsonParsed,
}

/// The options with which a transaction is sent.
#[derive(Clone, Copy, Debug, PartialEq, Eq, Structural)]
pub struct RpcSendTransactionConfig {
    pub skip_preflight: bool,
    pub preflight_commitment: Option<CommitmentLevel>,
    pub encoding: Option<UiTransactionEncoding>,
    pub max_retries: Option<usize>,
    pub min_context_slot: Option<u64>,
}

/// The options with which a transaction is sent by default: base64, with the
/// preflight checks made at the given commitment, nothing else set.
pub fn send_transaction_config(preflight_commitment: CommitmentLevel) -> (c: RpcSendTransactionConfig)
    ensures
        c.preflight_commitment == Some(preflight_commitment),
        c.encoding == Some(UiTransactionEncoding::Base64),
        !c.skip_preflight,
        c.max_retries is None,
        c.min_context_slot is None,
{
    RpcSendTransactionConfig {
        skip_preflight: false,
        preflight_commitment: Some(preflight_commitment),
        encoding: Some(UiTransactionEncoding::Base64),
        max_retries: None,
        min_context_slot: None,
    }
}

/// The options of a simulation that the client sets; every other option of
/// the request is left unset.
#[derive(Clone, Copy, Debug, PartialEq, Eq, Structural)]
pub struct RpcSimulateTransactionConfig {
    pub encoding: Option<UiTransactionEncoding>,
    pub replace_recent_blockhash: Option<bool>,
}

/// The options with which a transaction is simulated by default: base64,
/// with the recent blockhash replaced.
pub fn simulate_transaction_config() -> (c: RpcSimulateTransactionConfig)
    ensures
        c.encoding == Some(UiTransactionEncoding::Base64),
        c.replace_recent_blockhash == Some(true),
{
    RpcSimulateTransactionConfig {
        encoding: Some(UiTransactionEncoding::Base64),
        replace_recent_blockhash: Some(true),
    }
}

/// How the caller asks for the signatures of an address.
#[derive(Clone, Copy, Debug)]
pub struct SignaturesForAddressConfig {
    pub before: Option<Signature>,
    pub until: Option<Signature>,
    pub limit: Option<usize>,
    pub commitment: Option<CommitmentConfig>,
}

/// How the request for the signatures of an address is sent.
#[derive(Clone, Debug)]
pub struct RpcSignaturesForAddressConfig {
    pub before: Option<String>,
    pub until: Option<String>,
    pub limit: Option<usize>,
    pub commitment: Option<CommitmentConfig>,
    pub min_context_slot: Option<u64>,
}

/// The base58 text of an optional signature.
pub open spec fn optional_signature_text(s: Option<Signature>) -> Option<Seq<char>> {
    match s {
        Some(s) => Some(signature_base58(s@)),
        None => None,
    }
}

fn signature_text(s: Option<Signature>) -> (t: Option<String>)
    ensures
        match t {
            Some(t) => optional_signature_text(s) == Some(t@),
            None => s is None,
        },
{
    match s {
        Some(s) => Some(s.to_base58()),
        None => None,
    }
}

impl SignaturesForAddressConfig {
    /// The request options: the signatures written as base58 text, the rest
    /// handed on, and no minimum slot.
    pub fn to_rpc_config(&self) -> (c: RpcSignaturesForAddressConfig)
        ensures
            match c.before {
                Some(t) => optional_signature_text(self.before) == Some(t@),
                None => self.before is None,
            },
            match c.until {
                Some(t) => optional_signature_text(self.until) == Some(t@),
                None => self.until is None,
            },
            c.limit == self.limit,
            c.commitment == self.commitment,
            c.min_context_slot is None,
    {
        RpcSignaturesForAddressConfig {
            before: signature_text(self.before),
            until: signature_text(self.until),
            limit: self.limit,
            commitment: self.commitment,
            min_context_slot: None,
        }
    }
}

} // verus!
