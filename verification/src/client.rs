use vstd::prelude::*;
use crate::commitment::{CommitmentConfig, CommitmentLevel};
use crate::config::{
    RpcAccountInfoConfig, RpcContextConfig, RpcEpochConfig, RpcSupplyConfig, UiAccountEncoding,
};
use crate::error::{ClientError, ClientResult};
use crate::keys::{
    hash_from_base58, pubkey_base58, signature_base58, Pubkey, Signature,
};
use crate::provider::{Provider, DEFAULT_TIMEOUT_MS};
use crate::text::{decimal, push_decimal};

verus! {

/// A client of a Solana RPC node, with the commitment it asks for by default.
#[derive(Clone, Debug)]
pub struct WasmClient {
    provider: Provider,
    commitment_config: CommitmentConfig,
}

impl View for WasmClient {
    type V = ((Seq<char>, u32), CommitmentConfig);

    closed spec fn view(&self) -> ((Seq<char>, u32), CommitmentConfig) {
        (self.provider@, self.commitment_config)
    }
}

impl WasmClient {
    /// A client of the node at `endpoint`, whose default commitment is
    /// `confirmed`.
    pub fn new(endpoint: &str) -> (c: WasmClient)
        ensures
            c@ == ((endpoint@, DEFAULT_TIMEOUT_MS), CommitmentConfig {
                commitment: CommitmentLevel::Confirmed,
            }),
    {
        WasmClient { provider: Provider::new(endpoint), commitment_config: CommitmentConfig::confirmed() }
    }

    pub fn new_with_commitment(endpoint: &str, commitment_config: CommitmentConfig) -> (c:
        WasmClient)
        ensures
            c@ == ((endpoint@, DEFAULT_TIMEOUT_MS), commitment_config),
    {
        WasmClient { provider: Provider::new(endpoint), commitment_config }
    }

    pub fn commitment(&self) -> (level: CommitmentLevel)
        ensures
            level == self@.1.commitment,
    {
        self.commitment_config.commitment
    }

    pub fn commitment_config(&self) -> (c: CommitmentConfig)
        ensures
            c == self@.1,
    {
        self.commitment_config
    }

    /// Where the client sends its requests.
    pub fn provider(&self) -> (p: &Provider)
        ensures
            p@ == self@.0,
    {
        &self.provider
    }

    /// The commitment a request is made with: the one asked for, else the
    /// client's default.
    pub fn resolve_commitment(&self, requested: Option<CommitmentConfig>) -> (c: CommitmentConfig)
        ensures
            c == match requested {
                Some(r) => r,
                None => self@.1,
            },
    {
        match requested {
            Some(r) => r,
            None => self.commitment_config,
        }
    }

    /// The account options with which program accounts are asked for: those
    /// given, with the commitment resolved against the client's default.
    pub fn program_account_config(&self, config: RpcAccountInfoConfig) -> (c: RpcAccountInfoConfig)
        ensures
            c.commitment == Some(
                match config.commitment {
                    Some(r) => r,
                    None => self@.1,
                },
            ),
            c.encoding == config.encoding,
            c.data_slice == config.data_slice,
            c.min_context_slot == config.min_context_slot,
    {
        RpcAccountInfoConfig {
            commitment: Some(self.resolve_commitment(config.commitment)),
            encoding: config.encoding,
            data_slice: config.data_slice,
            min_context_slot: config.min_context_slot,
        }
    }

    /// The options of a request for inflation rewards: the client's default
    /// commitment and the epoch asked for.
    pub fn inflation_reward_config(&self, epoch: Option<u64>) -> (c: RpcEpochConfig)
        ensures
            c.commitment == Some(self@.1),
            c.epoch == epoch,
            c.min_context_slot is None,
    {
        RpcEpochConfig { epoch, commitment: Some(self.commitment_config), min_context_slot: None }
    }
}

/// The account options with which a single account is asked for: base64 data
/// at the given commitment.
pub fn account_info_config(commitment: CommitmentConfig) -> (c: RpcAccountInfoConfig)
    ensures
        c.encoding == Some(UiAccountEncoding::Base64),
        c.commitment == Some(commitment),
        c.data_slice is None,
        c.min_context_slot is None,
{
    RpcAccountInfoConfig {
        encoding: Some(UiAccountEncoding::Base64),
        data_slice: None,
        commitment: Some(commitment),
        min_context_slot: None,
    }
}

/// The account options with which token accounts are asked for: parsed JSON
/// data at the given commitment.
pub fn token_account_config(commitment: CommitmentConfig) -> (c: RpcAccountInfoConfig)
    ensures
        c.encoding == Some(UiAccountEncoding::JsonParsed),
        c.commitment == Some(commitment),
        c.data_slice is None,
        c.min_context_slot is None,
{
    RpcAccountInfoConfig {
        encoding: Some(UiAccountEncoding::JsonParsed),
        data_slice: None,
        commitment: Some(commitment),
        min_context_slot: None,
    }
}

/// The account options with which several accounts are asked for: only the
/// commitment is set.
pub fn multiple_accounts_config(commitment: CommitmentConfig) -> (c: RpcAccountInfoConfig)
    ensures
        c.commitment == Some(commitment),
        c.encoding is None,
        c.data_slice is None,
        c.min_context_slot is None,
{
    RpcAccountInfoConfig {
        encoding: None,
        data_slice: None,
        commitment: Some(commitment),
        min_context_slot: None,
    }
}

/// The account options with which program accounts are asked for by
/// default: base64 data, nothing else set.
pub fn program_accounts_default_config() -> (c: RpcAccountInfoConfig)
    ensures
        c.encoding == Some(UiAccountEncoding::Base64),
        c.commitment is None,
        c.data_slice is None,
        c.min_context_slot is None,
{
    RpcAccountInfoConfig {
        encoding: Some(UiAccountEncoding::Base64),
        data_slice: None,
        commitment: None,
        min_context_slot: None,
    }
}

/// The context options of a request made at the given commitment.
pub fn context_config(commitment: CommitmentConfig) -> (c: RpcContextConfig)
    ensures
        c.commitment == Some(commitment),
        c.min_context_slot is None,
{
    RpcContextConfig { commitment: Some(commitment), min_context_slot: None }
}

/// The options of a request for the supply at the given commitment, with the
/// list of non-circulating accounts.
pub fn supply_config(commitment: CommitmentConfig) -> (c: RpcSupplyConfig)
    ensures
        c.commitment == Some(commitment),
        !c.exclude_non_circulating_accounts_list,
{
    RpcSupplyConfig { commitment: Some(commitment), exclude_non_circulating_accounts_list: false }
}

pub open spec fn signature_not_found(signature: Seq<u8>) -> Seq<char> {
    "Signature "@ + signature_base58(signature) + " not found."@
}

pub open spec fn account_not_found(key: Seq<u8>) -> Seq<char> {
    "Account "@ + pubkey_base58(key) + " not found."@
}

pub open spec fn block_not_found(slot: u64) -> Seq<char> {
    "Block Not Found: slot="@ + decimal(slot as nat)
}

pub open spec fn signature_mismatch(returned: Seq<u8>, expected: Seq<u8>) -> Seq<char> {
    "RPC node returned mismatched signature "@ + signature_base58(returned) + ", expected "@
        + signature_base58(expected)
}

/// A transaction that the node found, or the error that it was not found.
pub fn transaction_or_not_found<T>(found: Option<T>, signature: &Signature) -> (r: ClientResult<T>)
    ensures
        match found {
            Some(t) => r == Ok::<T, ClientError>(t),
            None => r matches Err(e) && e@ == signature_not_found(signature@),
        },
{
    match found {
        Some(t) => Ok(t),
        None => {
            let mut message = "Signature ".to_owned();
            message.append(signature.to_base58().as_str());
            message.append(" not found.");
            Err(ClientError::new(message))
        },
    }
}

/// An account that the node found, or the error that it was not found.
pub fn account_or_not_found<A>(found: Option<A>, pubkey: &Pubkey) -> (r: ClientResult<A>)
    ensures
        match found {
            Some(a) => r == Ok::<A, ClientError>(a),
            None => r matches Err(e) && e@ == account_not_found(pubkey@),
        },
{
    match found {
        Some(a) => Ok(a),
        None => {
            let mut message = "Account ".to_owned();
            message.append(pubkey.to_base58().as_str());
            message.append(" not found.");
            Err(ClientError::new(message))
        },
    }
}

/// The time of a block the node knows, or the error that it does not.
pub fn block_time_or_not_found(timestamp: Option<i64>, slot: u64) -> (r: ClientResult<i64>)
    ensures
        match timestamp {
            Some(t) => r == Ok::<i64, ClientError>(t),
            None => r matches Err(e) && e@ == block_not_found(slot),
        },
{
    match timestamp {
        Some(t) => Ok(t),
        None => {
            let mut message = "Block Not Found: slot=".to_owned();
            push_decimal(&mut message, slot);
            Err(ClientError::new(message))
        },
    }
}

/// The latest blockhash with the last block height at which it is valid,
/// where the blockhash text could be read.
pub fn latest_blockhash_result(parsed: Option<crate::keys::Hash>, last_valid_block_height: u64) -> (r:
    ClientResult<(crate::keys::Hash, u64)>)
    ensures
        match parsed {
            Some(h) => r matches Ok(p) && p.0@ == h@ && p.1 == last_valid_block_height,
            None => r matches Err(e) && e@ == "Hash not parsable."@,
        },
{
    match parsed {
        Some(h) => Ok((h, last_valid_block_height)),
        None => Err(ClientError::from_str("Hash not parsable.")),
    }
}

/// Reads the latest blockhash from the text the node sent.
pub fn parse_latest_blockhash(blockhash: &str, last_valid_block_height: u64) -> (r: ClientResult<
    (crate::keys::Hash, u64),
>)
    ensures
        match hash_from_base58(blockhash@) {
            Some(b) => r matches Ok(p) && p.0@ == b && p.1 == last_valid_block_height,
            None => r matches Err(e) && e@ == "Hash not parsable."@,
        },
{
    latest_blockhash_result(crate::keys::Hash::from_base58(blockhash), last_valid_block_height)
}

/// The genesis hash, where its text could be read.
pub fn genesis_hash_result(parsed: Option<crate::keys::Hash>) -> (r: ClientResult<crate::keys::Hash>)
    ensures
        match parsed {
            Some(h) => r matches Ok(g) && g@ == h@,
            None => r matches Err(e) && e@ == "Hash is not parseable."@,
        },
{
    match parsed {
        Some(h) => Ok(h),
        None => Err(ClientError::from_str("Hash is not parseable.")),
    }
}

/// Reads the genesis hash from the text the node sent.
pub fn parse_genesis_hash(text: &str) -> (r: ClientResult<crate::keys::Hash>)
    ensures
        match hash_from_base58(text@) {
            Some(b) => r matches Ok(g) && g@ == b,
            None => r matches Err(e) && e@ == "Hash is not parseable."@,
        },
{
    genesis_hash_result(crate::keys::Hash::from_base58(text))
}

/// The signature of a sent transaction, checked against the one the node
/// answered with: a node that answers with another signature is reported,
/// since the transaction may or may not have reached the cluster.
pub fn checked_signature(returned: &Signature, signatures: &Vec<Signature>) -> (r: ClientResult<
    Signature,
>)
    requires
        signatures@.len() > 0,
    ensures
        returned@ == signatures@[0]@ ==> r == Ok::<Signature, ClientError>(signatures@[0]),
        returned@ != signatures@[0]@ ==> (r matches Err(e) && e@ == signature_mismatch(
            returned@,
            signatures@[0]@,
        )),
{
    let expected = signatures[0];
    if returned.same_as(&expected) {
        Ok(expected)
    } else {
        let mut message = "RPC node returned mismatched signature ".to_owned();
        message.append(returned.to_base58().as_str());
        message.append(", expected ");
        message.append(expected.to_base58().as_str());
        Err(ClientError::new(message))
    }
}

/// The values that are present, in their order.
pub open spec fn somes<T>(s: Seq<Option<T>>) -> Seq<T>
    decreases s.len(),
{
    if s.len() == 0 {
        seq![]
    } else {
        let rest = somes(s.drop_last());
        match s.last() {
            Some(x) => rest.push(x),
            None => rest,
        }
    }
}

/// Keeping the present values works piecewise: those of a sequence are those
/// of its first part followed by those of the rest, so their order is kept.
pub proof fn lemma_somes_concat<T>(a: Seq<Option<T>>, b: Seq<Option<T>>)
    ensures
        somes(a + b) == somes(a) + somes(b),
    decreases b.len(),
{
    if b.len() == 0 {
        assert(a + b =~= a);
        assert(somes(a) + somes(b) =~= somes(a));
    } else {
        assert((a + b).drop_last() =~= a + b.drop_last());
        assert((a + b).last() == b.last());
        lemma_somes_concat(a, b.drop_last());
        match b.last() {
            Some(x) => {
                assert(somes(a) + somes(b.drop_last()).push(x) =~= (somes(a) + somes(b.drop_last())).push(x));
            },
            None => {},
        }
    }
}

/// A present value is kept, a missing one is dropped.
pub proof fn lemma_somes_single<T>(x: T)
    ensures
        somes(seq![Some(x)]) == seq![x],
        somes(seq![None::<T>]) == Seq::<T>::empty(),
{
    let one = seq![Some(x)];
    let none = seq![None::<T>];
    assert(one.len() == 1 && one.last() == Some(x));
    assert(none.len() == 1 && none.last() == None::<T>);
    assert(one.drop_last() =~= Seq::<Option<T>>::empty());
    assert(none.drop_last() =~= Seq::<Option<T>>::empty());
    assert(somes(Seq::<Option<T>>::empty()) == Seq::<T>::empty());
    assert(Seq::<T>::empty().push(x) =~= seq![x]);
}

/// The accounts of a reply for several accounts that the node holds, in the
/// order asked for; missing accounts are left out.
pub fn present_accounts<T>(values: Vec<Option<T>>) -> (r: Vec<T>)
    ensures
        r@ == somes(values@),
{
    let ghost all = values@;
    let mut rest = values;
    let mut out: Vec<T> = Vec::new();
    assert(all.skip(0) =~= all);
    assert(all.take(0) =~= Seq::<Option<T>>::empty());
    while rest.len() > 0
        invariant
            rest@.len() <= all.len(),
            rest@ == all.skip(all.len() - rest@.len()),
            out@ == somes(all.take(all.len() - rest@.len())),
        decreases rest@.len(),
    {
        let ghost k = all.len() - rest@.len();
        let item = rest.remove(0);
        assert(all.take(k + 1).drop_last() =~= all.take(k));
        assert(item == all[k]);
        assert(rest@ =~= all.skip(k + 1));
        match item {
            Some(x) => out.push(x),
            None => {},
        }
    }
    assert(all.take(all.len() as int) =~= all);
    out
}

} // verus!
