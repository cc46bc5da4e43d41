use solana_extra_wasm::account_decoder::{ParsedAccount, UiAccount, UiAccountData};
use solana_extra_wasm::account_decoder::UiAccountEncoding as Enc;
use solana_sdk::account::Account as SdkAccount;
use serde_json::Value;
use crate::account::WireAccountData::{Binary, Json, LegacyBinary};
use vstd::prelude::*;
use crate::client::somes;
use crate::config::UiAccountEncoding;
use crate::keys::{pubkey_from_base58, Pubkey};

verus! {

/// The data of an account as the node sends it: as parsed JSON, as base58
/// text in the legacy form, or as text in the named encoding.
#[derive(Clone, Debug)]
pub enum WireAccountData {
    Json,
    LegacyBinary(String),
    Binary(String, UiAccountEncoding),
}

/// An account as the node sends it.
#[derive(Clone, Debug)]
pub struct WireAccount {
    pub lamports: u64,
    pub data: WireAccountData,
    pub owner: String,
    pub executable: bool,
    pub rent_epoch: u64,
}

/// An account with its data as bytes.
#[derive(Clone, Debug)]
pub struct Account {
    pub lamports: u64,
    pub data: Vec<u8>,
    pub owner: Pubkey,
    pub executable: bool,
    pub rent_epoch: u64,
}

pub enum WireAccountDataView {
    Json,
    LegacyBinary(Seq<char>),
    Binary(Seq<char>, UiAccountEncoding),
}

pub struct WireAccountView {
    pub lamports: u64,
    pub data: WireAccountDataView,
    pub owner: Seq<char>,
    pub executable: bool,
    pub rent_epoch: u64,
}

pub struct AccountView {
    pub lamports: u64,
    pub data: Seq<u8>,
    pub owner: Seq<u8>,
    pub executable: bool,
    pub rent_epoch: u64,
}

impl View for WireAccountData {
    type V = WireAccountDataView;

    open spec fn view(&self) -> WireAccountDataView {
        match self {
            WireAccountData::Json => WireAccountDataView::Json,
            WireAccountData::LegacyBinary(b) => WireAccountDataView::LegacyBinary(b@),
            WireAccountData::Binary(b, e) => WireAccountDataView::Binary(b@, *e),
        }
    }
}

impl View for WireAccount {
    type V = WireAccountView;

    open spec fn view(&self) -> WireAccountView {
        WireAccountView {
            lamports: self.lamports,
            data: self.data@,
            owner: self.owner@,
            executable: self.executable,
            rent_epoch: self.rent_epoch,
        }
    }
}

impl View for Account {
    type V = AccountView;

    open spec fn view(&self) -> AccountView {
        AccountView {
            lamports: self.lamports,
            data: self.data@,
            owner: self.owner@,
            executable: self.executable,
            rent_epoch: self.rent_epoch,
        }
    }
}

/// The view of an optional account.
pub open spec fn optional_account_view(a: Option<Account>) -> Option<AccountView> {
    match a {
        Some(a) => Some(a@),
        None => None,
    }
}

/// The account that `solana_extra_wasm` decodes from an account as the node
/// sends it, `None` where it cannot decode it.
pub uninterp spec fn account_decoded(wire: WireAccountView) -> Option<AccountView>;

/// Calls `UiAccount::decode` of `solana_extra_wasm` into a `solana_sdk`
/// account; the outcome is given the name `account_decoded`. Also stated, as
/// the source shows: a decoded account keeps the lamports, the executable flag
/// and the rent epoch, and its owner is the key read from the owner text; JSON
/// data, data in the binary or JSON-parsed encoding, and an owner text that is
/// no key are not decoded. The bytes of the data (base58 or base64 decoding)
/// are left to the name. JSON data is handed over with an empty parsed value,
/// which `decode` does not read.
#[verifier::external_body]
pub(crate) fn decode_account(a: &WireAccount) -> (r: Option<Account>)
    ensures
        optional_account_view(r) == account_decoded(a@),
        r matches Some(acc) ==> acc.lamports == a.lamports && acc.executable == a.executable
            && acc.rent_epoch == a.rent_epoch && pubkey_from_base58(a.owner@) == Some(acc.owner@),
        a.data is Json ==> r is None,
        a.data matches WireAccountData::Binary(_, e) && (e == UiAccountEncoding::Binary || e
            == UiAccountEncoding::JsonParsed) ==> r is None,
        pubkey_from_base58(a.owner@) is None ==> r is None,
{
    match (UiAccount { lamports: a.lamports, owner: a.owner.clone(), executable: a.executable, rent_epoch: a.rent_epoch, data: match &a.data {
        Json => UiAccountData::Json(ParsedAccount { program: String::new(), parsed: Value::Null, space: 0 }),
        LegacyBinary(b) => UiAccountData::LegacyBinary(b.clone()),
        Binary(b, e) => UiAccountData::Binary(b.clone(), match e { UiAccountEncoding::Binary => Enc::Binary, UiAccountEncoding::Base58 => Enc::Base58, UiAccountEncoding::Base64 => Enc::Base64, UiAccountEncoding::JsonParsed => Enc::JsonParsed }),
    } }).decode::<SdkAccount>() {
        Some(SdkAccount { lamports, data, owner, executable, rent_epoch }) => Some(Account { lamports, data, owner: Pubkey::new_from_array(owner.to_bytes()), executable, rent_epoch }),
        None => None,
    }
}

/// The account of a reply for one account: none where the node holds none,
/// else the decoded account, none where it cannot be decoded.
pub fn account_from_reply(value: Option<WireAccount>) -> (r: Option<Account>)
    ensures
        value is None ==> r is None,
        value matches Some(a) ==> optional_account_view(r) == account_decoded(a@),
{
    match value {
        Some(a) => decode_account(&a),
        None => None,
    }
}

/// The accounts of a reply for several accounts: the present ones, in the
/// order asked for, each decoded (`None` where it cannot be decoded); missing
/// accounts are left out.
pub fn multiple_accounts_from_reply(values: Vec<Option<WireAccount>>) -> (r: Vec<Option<Account>>)
    ensures
        r@.len() == somes(values@).len(),
        forall|i: int|
            0 <= i < r@.len() ==> optional_account_view(#[trigger] r@[i]) == account_decoded(
                somes(values@)[i]@,
            ),
{
    let present = crate::client::present_accounts(values);
    let mut out: Vec<Option<Account>> = Vec::new();
    let mut i: usize = 0;
    while i < present.len()
        invariant
            0 <= i <= present@.len(),
            present@ == somes(values@),
            out@.len() == i,
            forall|j: int|
                0 <= j < i ==> optional_account_view(#[trigger] out@[j]) == account_decoded(
                    present@[j]@,
                ),
        decreases present@.len() - i,
    {
        out.push(decode_account(&present[i]));
        i = i + 1;
    }
    out
}

} // verus!
