use vstd::prelude::*;
use crate::error::{ClientError, ClientResult};
use crate::account::{
    account_decoded, decode_account, optional_account_view, Account, AccountView, WireAccount,
};
use crate::keys::{pubkey_base58, pubkey_from_base58, Pubkey};

verus! {

/// An account of a program as the node lists it: the base58 text of its key,
/// and the account where its data could be decoded.
pub struct KeyedAccount<A> {
    pub pubkey: String,
    pub account: Option<A>,
}

/// A listed account whose key text has been read: `key` is `None` where the
/// text is no key.
pub struct ParsedKeyedAccount<A> {
    pub pubkey: String,
    pub key: Option<Pubkey>,
    pub account: Option<A>,
}

/// The key and account of one listed entry, or the error it gives: a key
/// that cannot be read is reported before an account that cannot be decoded.
pub open spec fn keyed_entry<A>(text: Seq<char>, key: Option<Seq<u8>>, account: Option<A>) -> Result<
    (Seq<u8>, A),
    Seq<char>,
> {
    match key {
        None => Err(text + " is not a valid pubkey."@),
        Some(k) => match account {
            None => Err("Unable to decode "@ + pubkey_base58(k)),
            Some(a) => Ok((k, a)),
        },
    }
}

pub open spec fn parsed_entry_view<A>(e: ParsedKeyedAccount<A>) -> (Seq<char>, Option<Seq<u8>>, Option<A>) {
    (
        e.pubkey@,
        match e.key {
            Some(k) => Some(k@),
            None => None,
        },
        e.account,
    )
}

pub open spec fn keyed_entry_view<A>(e: KeyedAccount<A>) -> (Seq<char>, Option<Seq<u8>>, Option<A>) {
    (e.pubkey@, pubkey_from_base58(e.pubkey@), e.account)
}

/// The keys and accounts of all entries, in order, or the error of the first
/// entry that gives one.
pub open spec fn keyed_entries<A>(s: Seq<(Seq<char>, Option<Seq<u8>>, Option<A>)>) -> Result<
    Seq<(Seq<u8>, A)>,
    Seq<char>,
>
    decreases s.len(),
{
    if s.len() == 0 {
        Ok(seq![])
    } else {
        match keyed_entries(s.drop_last()) {
            Err(m) => Err(m),
            Ok(v) => match keyed_entry(s.last().0, s.last().1, s.last().2) {
                Err(m) => Err(m),
                Ok(x) => Ok(v.push(x)),
            },
        }
    }
}

pub open spec fn key_account_views<A>(v: Seq<(Pubkey, A)>) -> Seq<(Seq<u8>, A)> {
    v.map_values(|p: (Pubkey, A)| (p.0@, p.1))
}

proof fn lemma_error_persists<A>(s: Seq<(Seq<char>, Option<Seq<u8>>, Option<A>)>, k: int, m: Seq<char>)
    requires
        0 <= k <= s.len(),
        keyed_entries(s.take(k)) == Err::<Seq<(Seq<u8>, A)>, Seq<char>>(m),
    ensures
        keyed_entries(s) == Err::<Seq<(Seq<u8>, A)>, Seq<char>>(m),
    decreases s.len() - k,
{
    if k == s.len() {
        assert(s.take(k) =~= s);
    } else {
        assert(s.take(k + 1).drop_last() =~= s.take(k));
        lemma_error_persists(s, k + 1, m);
    }
}

/// The keys and accounts of the listed entries, in order; the first entry
/// whose key cannot be read or whose account cannot be decoded ends the
/// listing with an error.
pub fn collect_keyed_accounts<A>(entries: Vec<ParsedKeyedAccount<A>>) -> (r: ClientResult<
    Vec<(Pubkey, A)>,
>)
    ensures
        match r {
            Ok(v) => keyed_entries(entries@.map_values(|e: ParsedKeyedAccount<A>| parsed_entry_view(e)))
                == Ok::<Seq<(Seq<u8>, A)>, Seq<char>>(key_account_views(v@)),
            Err(e) => keyed_entries(entries@.map_values(|e: ParsedKeyedAccount<A>| parsed_entry_view(e)))
                == Err::<Seq<(Seq<u8>, A)>, Seq<char>>(e@),
        },
{
    let ghost all = entries@.map_values(|e: ParsedKeyedAccount<A>| parsed_entry_view(e));
    let ghost n = entries@.len();
    let mut rest = entries;
    let mut out: Vec<(Pubkey, A)> = Vec::new();
    assert(all.take(0) =~= Seq::<(Seq<char>, Option<Seq<u8>>, Option<A>)>::empty());
    assert(key_account_views(out@) =~= Seq::<(Seq<u8>, A)>::empty());
    while rest.len() > 0
        invariant
            all == entries@.map_values(|e: ParsedKeyedAccount<A>| parsed_entry_view(e)),
            all.len() == n,
            rest@.len() <= n,
            forall|j: int|
                0 <= j < rest@.len() ==> parsed_entry_view(#[trigger] rest@[j]) == all[n - rest@.len() + j],
            keyed_entries(all.take(n - rest@.len())) == Ok::<Seq<(Seq<u8>, A)>, Seq<char>>(
                key_account_views(out@),
            ),
        decreases rest@.len(),
    {
        let ghost k = n - rest@.len();
        let ghost before = rest@;
        let e = rest.remove(0);
        assert(parsed_entry_view(before[0]) == all[k]);
        assert forall|j: int| 0 <= j < rest@.len() implies parsed_entry_view(#[trigger] rest@[j])
            == all[n - rest@.len() + j] by {
            assert(rest@[j] == before[j + 1]);
        }
        assert(all.take(k + 1).drop_last() =~= all.take(k));
        assert(all.take(k + 1).last() == all[k]);
        assert(all[k] == parsed_entry_view(e));
        match e.key {
            None => {
                let mut message = e.pubkey;
                message.append(" is not a valid pubkey.");
                proof {
                    assert(keyed_entry(all[k].0, all[k].1, all[k].2) == Err::<(Seq<u8>, A), Seq<char>>(message@));
                    assert(keyed_entries(all.take(k + 1)) == Err::<Seq<(Seq<u8>, A)>, Seq<char>>(message@));
                    lemma_error_persists(all, k + 1, message@);
                }
                return Err(ClientError::new(message));
            },
            Some(key) => match e.account {
                None => {
                    let mut message = "Unable to decode ".to_owned();
                    message.append(key.to_base58().as_str());
                    proof {
                        assert(keyed_entry(all[k].0, all[k].1, all[k].2) == Err::<(Seq<u8>, A), Seq<char>>(message@));
                        assert(keyed_entries(all.take(k + 1)) == Err::<Seq<(Seq<u8>, A)>, Seq<char>>(message@));
                        lemma_error_persists(all, k + 1, message@);
                    }
                    return Err(ClientError::new(message));
                },
                Some(account) => {
                    let ghost old_out = out@;
                    out.push((key, account));
                    assert(key_account_views(out@) =~= key_account_views(old_out).push(
                        (key@, account),
                    ));
                },
            },
        }
    }
    assert(all.take(n as int) =~= all);
    Ok(out)
}

/// The program accounts of a reply: the error that the program has no
/// accounts where the node listed none, else the listed entries, their keys
/// read from their text.
pub fn program_accounts<A>(keyed: Option<Vec<KeyedAccount<A>>>) -> (r: ClientResult<
    Vec<(Pubkey, A)>,
>)
    ensures
        match keyed {
            None => r matches Err(e) && e@ == "Program account doesn't exist."@,
            Some(entries) => match r {
                Ok(v) => keyed_entries(entries@.map_values(|e: KeyedAccount<A>| keyed_entry_view(e)))
                    == Ok::<Seq<(Seq<u8>, A)>, Seq<char>>(key_account_views(v@)),
                Err(e) => keyed_entries(entries@.map_values(|e: KeyedAccount<A>| keyed_entry_view(e)))
                    == Err::<Seq<(Seq<u8>, A)>, Seq<char>>(e@),
            },
        },
{
    match keyed {
        None => Err(ClientError::from_str("Program account doesn't exist.")),
        Some(entries) => {
            let ghost all = entries@.map_values(|e: KeyedAccount<A>| keyed_entry_view(e));
            let ghost n = entries@.len();
            let mut rest = entries;
            let mut parsed: Vec<ParsedKeyedAccount<A>> = Vec::new();
            while rest.len() > 0
                invariant
                    all.len() == n,
                    rest@.len() <= n,
                    parsed@.len() == n - rest@.len(),
                    forall|j: int|
                        0 <= j < rest@.len() ==> keyed_entry_view(#[trigger] rest@[j]) == all[n
                            - rest@.len() + j],
                    forall|j: int|
                        0 <= j < parsed@.len() ==> parsed_entry_view(#[trigger] parsed@[j]) == all[j],
                decreases rest@.len(),
            {
                let ghost before = rest@;
                let e = rest.remove(0);
                assert(keyed_entry_view(before[0]) == all[n - before.len()]);
                assert forall|j: int| 0 <= j < rest@.len() implies keyed_entry_view(
                    #[trigger] rest@[j],
                ) == all[n - rest@.len() + j] by {
                    assert(rest@[j] == before[j + 1]);
                }
                let key = Pubkey::from_base58(e.pubkey.as_str());
                parsed.push(ParsedKeyedAccount { pubkey: e.pubkey, key, account: e.account });
            }
            assert(parsed@.map_values(|e: ParsedKeyedAccount<A>| parsed_entry_view(e)) =~= all);
            collect_keyed_accounts(parsed)
        },
    }
}

/// A listing that succeeds returns every entry, in listing order, each with
/// the key read from its text and its decoded account.
pub proof fn lemma_listing_ok_keeps_every_entry<A>(
    s: Seq<(Seq<char>, Option<Seq<u8>>, Option<A>)>,
    v: Seq<(Seq<u8>, A)>,
)
    requires
        keyed_entries(s) == Ok::<Seq<(Seq<u8>, A)>, Seq<char>>(v),
    ensures
        v.len() == s.len(),
        forall|i: int|
            0 <= i < s.len() ==> (#[trigger] s[i]).1 == Some(v[i].0) && s[i].2 == Some(v[i].1),
    decreases s.len(),
{
    if s.len() > 0 {
        let front = s.drop_last();
        match keyed_entries(front) {
            Ok(w) => {
                lemma_listing_ok_keeps_every_entry(front, w);
                assert forall|i: int| 0 <= i < s.len() implies (#[trigger] s[i]).1 == Some(v[i].0)
                    && s[i].2 == Some(v[i].1) by {
                    if i < s.len() - 1 {
                        assert(s[i] == front[i]);
                    }
                }
            },
            Err(_) => {},
        }
    }
}

/// A listing fails exactly where some entry has a key that cannot be read or
/// an account that cannot be decoded, and then with the error of the first
/// such entry.
pub proof fn lemma_listing_fails_at_first_bad_entry<A>(s: Seq<(Seq<char>, Option<Seq<u8>>, Option<A>)>)
    ensures
        (forall|i: int| 0 <= i < s.len() ==> (#[trigger] s[i]).1 is Some && s[i].2 is Some)
            ==> keyed_entries(s) is Ok,
        keyed_entries(s) matches Err(m) ==> exists|i: int|
            #![trigger s[i]]
            0 <= i < s.len() && keyed_entry(s[i].0, s[i].1, s[i].2) == Err::<(Seq<u8>, A), Seq<char>>(m)
                && forall|j: int| 0 <= j < i ==> (#[trigger] s[j]).1 is Some && s[j].2 is Some,
    decreases s.len(),
{
    if s.len() > 0 {
        let front = s.drop_last();
        lemma_listing_fails_at_first_bad_entry(front);
        assert forall|i: int| 0 <= i < front.len() implies front[i] == s[i] by {}
        if (forall|i: int| 0 <= i < s.len() ==> (#[trigger] s[i]).1 is Some && s[i].2 is Some) {
            assert forall|i: int| 0 <= i < front.len() implies (#[trigger] front[i]).1 is Some
                && front[i].2 is Some by {
                assert(front[i] == s[i]);
            }
            assert(s.last() == s[s.len() - 1]);
        }
        match keyed_entries(front) {
            Err(m) => {
                let i = choose|i: int|
                    #![trigger front[i]]
                    0 <= i < front.len() && keyed_entry(front[i].0, front[i].1, front[i].2) == Err::<
                        (Seq<u8>, A),
                        Seq<char>,
                    >(m) && forall|j: int| 0 <= j < i ==> (#[trigger] front[j]).1 is Some && front[j].2 is Some;
                assert(s[i] == front[i]);
                assert forall|j: int| 0 <= j < i implies (#[trigger] s[j]).1 is Some && s[j].2 is Some by {
                    assert(s[j] == front[j]);
                }
            },
            Ok(w) => {
                lemma_listing_ok_keeps_every_entry(front, w);
                let k = s.len() - 1;
                assert(s.last() == s[k]);
                assert forall|j: int| 0 <= j < k implies (#[trigger] s[j]).1 is Some && s[j].2 is Some by {
                    assert(s[j] == front[j]);
                }
            },
        }
    }
}

/// An account of a program as the node lists it: the base58 text of its key
/// and the account as the node sends it.
pub struct WireKeyedAccount {
    pub pubkey: String,
    pub account: WireAccount,
}

pub open spec fn wire_entry_view(e: WireKeyedAccount) -> (Seq<char>, Option<Seq<u8>>, Option<AccountView>) {
    (e.pubkey@, pubkey_from_base58(e.pubkey@), account_decoded(e.account@))
}

pub open spec fn account_entry_view(e: (Seq<char>, Option<Seq<u8>>, Option<Account>)) -> (
    Seq<char>,
    Option<Seq<u8>>,
    Option<AccountView>,
) {
    (e.0, e.1, optional_account_view(e.2))
}

pub open spec fn listing_view(r: Result<Seq<(Seq<u8>, Account)>, Seq<char>>) -> Result<
    Seq<(Seq<u8>, AccountView)>,
    Seq<char>,
> {
    match r {
        Ok(v) => Ok(v.map_values(|p: (Seq<u8>, Account)| (p.0, p.1@))),
        Err(m) => Err(m),
    }
}

pub open spec fn keyed_account_views(v: Seq<(Pubkey, Account)>) -> Seq<(Seq<u8>, AccountView)> {
    v.map_values(|p: (Pubkey, Account)| (p.0@, p.1@))
}

proof fn lemma_listing_view(s: Seq<(Seq<char>, Option<Seq<u8>>, Option<Account>)>)
    ensures
        keyed_entries(
            s.map_values(|e: (Seq<char>, Option<Seq<u8>>, Option<Account>)| account_entry_view(e)),
        ) == listing_view(keyed_entries(s)),
    decreases s.len(),
{
    let t = s.map_values(|e: (Seq<char>, Option<Seq<u8>>, Option<Account>)| account_entry_view(e));
    if s.len() == 0 {
        assert(t =~= Seq::<(Seq<char>, Option<Seq<u8>>, Option<AccountView>)>::empty());
        assert(Seq::<(Seq<u8>, Account)>::empty().map_values(|p: (Seq<u8>, Account)| (p.0, p.1@))
            =~= Seq::<(Seq<u8>, AccountView)>::empty());
    } else {
        let front = s.drop_last();
        lemma_listing_view(front);
        assert(t.drop_last() =~= front.map_values(
            |e: (Seq<char>, Option<Seq<u8>>, Option<Account>)| account_entry_view(e),
        ));
        assert(t.last() == account_entry_view(s.last()));
        match keyed_entries(front) {
            Ok(v) => {
                match keyed_entry(s.last().0, s.last().1, s.last().2) {
                    Ok(x) => {
                        assert(v.push(x).map_values(|p: (Seq<u8>, Account)| (p.0, p.1@)) =~= v.map_values(
                            |p: (Seq<u8>, Account)| (p.0, p.1@),
                        ).push((x.0, x.1@)));
                    },
                    Err(_) => {},
                }
            },
            Err(_) => {},
        }
    }
}

/// Each account of a successful listing is the decoding of the account the
/// node sent under that key, and its key is read from the key text, in
/// listing order.
pub proof fn lemma_listing_decodes_each_account(
    entries: Seq<WireKeyedAccount>,
    views: Seq<(Seq<u8>, AccountView)>,
)
    requires
        keyed_entries(entries.map_values(|e: WireKeyedAccount| wire_entry_view(e)))
            == Ok::<Seq<(Seq<u8>, AccountView)>, Seq<char>>(views),
    ensures
        views.len() == entries.len(),
        forall|i: int|
            0 <= i < views.len() ==> pubkey_from_base58(entries[i].pubkey@) == Some((#[trigger] views[i]).0)
                && account_decoded(entries[i].account@) == Some(views[i].1),
{
    let s = entries.map_values(|e: WireKeyedAccount| wire_entry_view(e));
    lemma_listing_ok_keeps_every_entry(s, views);
    assert forall|i: int| 0 <= i < views.len() implies pubkey_from_base58(entries[i].pubkey@) == Some(
        (#[trigger] views[i]).0,
    ) && account_decoded(entries[i].account@) == Some(views[i].1) by {
        assert(s[i] == wire_entry_view(entries[i]));
    }
}

/// The program accounts of a reply as the node sends it: the error that the
/// program has no accounts where the node listed none, else the listed
/// entries, their keys read from their text and their accounts decoded, or
/// the error of the first entry whose key cannot be read or whose account
/// cannot be decoded.
pub fn program_accounts_from_reply(keyed: Option<Vec<WireKeyedAccount>>) -> (r: ClientResult<
    Vec<(Pubkey, Account)>,
>)
    ensures
        match keyed {
            None => r matches Err(e) && e@ == "Program account doesn't exist."@,
            Some(entries) => match r {
                Ok(v) => keyed_entries(entries@.map_values(|e: WireKeyedAccount| wire_entry_view(e)))
                    == Ok::<Seq<(Seq<u8>, AccountView)>, Seq<char>>(keyed_account_views(v@)),
                Err(e) => keyed_entries(entries@.map_values(|e: WireKeyedAccount| wire_entry_view(e)))
                    == Err::<Seq<(Seq<u8>, AccountView)>, Seq<char>>(e@),
            },
        },
        keyed matches Some(entries) ==> (r matches Ok(v) ==> {
            &&& v@.len() == entries@.len()
            &&& forall|i: int|
                0 <= i < v@.len() ==> {
                    &&& pubkey_from_base58(entries@[i].pubkey@) == Some((#[trigger] v@[i]).0@)
                    &&& account_decoded(entries@[i].account@) == Some(v@[i].1@)
                    &&& pubkey_from_base58(entries@[i].account.owner@) == Some(v@[i].1.owner@)
                    &&& v@[i].1.lamports == entries@[i].account.lamports
                    &&& v@[i].1.executable == entries@[i].account.executable
                    &&& v@[i].1.rent_epoch == entries@[i].account.rent_epoch
                }
        }),
{
    match keyed {
        None => program_accounts::<Account>(None),
        Some(entries) => {
            let ghost all = entries@;
            let ghost n = entries@.len();
            let mut rest = entries;
            let mut decoded: Vec<KeyedAccount<Account>> = Vec::new();
            while rest.len() > 0
                invariant
                    all.len() == n,
                    rest@.len() <= n,
                    decoded@.len() == n - rest@.len(),
                    forall|j: int| 0 <= j < rest@.len() ==> #[trigger] rest@[j] == all[n - rest@.len() + j],
                    forall|j: int|
                        0 <= j < decoded@.len() ==> account_entry_view(keyed_entry_view(#[trigger] decoded@[j]))
                            == wire_entry_view(all[j]),
                    forall|j: int|
                        0 <= j < decoded@.len() ==> ((#[trigger] decoded@[j]).account matches Some(acc)
                            ==> pubkey_from_base58(all[j].account.owner@) == Some(acc.owner@)
                            && acc.lamports == all[j].account.lamports && acc.executable
                            == all[j].account.executable && acc.rent_epoch == all[j].account.rent_epoch),
                decreases rest@.len(),
            {
                let ghost before = rest@;
                let e = rest.remove(0);
                assert(e == all[n - before.len()]);
                assert forall|j: int| 0 <= j < rest@.len() implies #[trigger] rest@[j] == all[n
                    - rest@.len() + j] by {
                    assert(rest@[j] == before[j + 1]);
                }
                let account = decode_account(&e.account);
                decoded.push(KeyedAccount { pubkey: e.pubkey, account });
            }
            let ghost listed = decoded@.map_values(|e: KeyedAccount<Account>| keyed_entry_view(e));
            let r = program_accounts(Some(decoded));
            proof {
                if r is Ok {
                    let v = r->Ok_0;
                    {
                        lemma_listing_ok_keeps_every_entry(listed, key_account_views(v@));
                        assert forall|i: int| 0 <= i < v@.len() implies decoded@[i].account == Some(
                            (#[trigger] v@[i]).1,
                        ) by {
                            assert(listed[i] == keyed_entry_view(decoded@[i]));
                            assert(key_account_views(v@)[i] == (v@[i].0@, v@[i].1));
                        }
                        assert(v@.len() == all.len());
                        assert forall|i: int| 0 <= i < v@.len() implies {
                            &&& pubkey_from_base58(all[i].pubkey@) == Some((#[trigger] v@[i]).0@)
                            &&& account_decoded(all[i].account@) == Some(v@[i].1@)
                            &&& pubkey_from_base58(all[i].account.owner@) == Some(v@[i].1.owner@)
                            &&& v@[i].1.lamports == all[i].account.lamports
                            &&& v@[i].1.executable == all[i].account.executable
                            &&& v@[i].1.rent_epoch == all[i].account.rent_epoch
                        } by {
                            assert(listed[i] == keyed_entry_view(decoded@[i]));
                            assert(key_account_views(v@)[i] == (v@[i].0@, v@[i].1));
                            assert(account_entry_view(keyed_entry_view(decoded@[i])) == wire_entry_view(all[i]));
                            assert(decoded@[i].account == Some(v@[i].1));
                        }
                    }
                }
                lemma_listing_view(listed);
                assert(listed.map_values(
                    |e: (Seq<char>, Option<Seq<u8>>, Option<Account>)| account_entry_view(e),
                ) =~= all.map_values(|e: WireKeyedAccount| wire_entry_view(e)));
                assert forall|v: Seq<(Pubkey, Account)>| #[trigger] keyed_account_views(v)
                    == key_account_views(v).map_values(|p: (Seq<u8>, Account)| (p.0, p.1@)) by {
                    assert(keyed_account_views(v) =~= key_account_views(v).map_values(
                        |p: (Seq<u8>, Account)| (p.0, p.1@),
                    ));
                }
            }
            r
        },
    }
}

/// What a token account lookup reads from the node's reply.
pub enum TokenAccountKind<T> {
    Account(T),
    Mint,
    Multisig,
}

/// The data of an account as the node sent it: not as JSON, or as JSON that
/// was read as one kind of token account (`Err` with the text of the error
/// where it could not be read).
pub enum TokenAccountData<T> {
    Binary,
    Json(Result<TokenAccountKind<T>, String>),
}

pub open spec fn token_account_not_found(key: Seq<u8>) -> Seq<char> {
    "AccountNotFound: pubkey="@ + pubkey_base58(key)
}

/// The outcome of a token account lookup: the token account where the node
/// holds an account whose JSON data reads as one; the error of reading the
/// data where it is JSON that cannot be read; that the account was not found
/// in every other case.
pub open spec fn token_account_outcome<T>(value: Option<TokenAccountData<T>>, key: Seq<u8>) -> Result<
    Option<T>,
    Seq<char>,
> {
    match value {
        Some(TokenAccountData::Json(Ok(TokenAccountKind::Account(t)))) => Ok(Some(t)),
        Some(TokenAccountData::Json(Err(e))) => Err(e@),
        _ => Err(token_account_not_found(key)),
    }
}

/// A token account lookup never succeeds without an account: where it
/// finds none, it fails.
pub proof fn lemma_token_account_never_empty<T>(value: Option<TokenAccountData<T>>, key: Seq<u8>)
    ensures
        token_account_outcome(value, key) != Ok::<Option<T>, Seq<char>>(None),
{
}

pub fn token_account<T>(value: Option<TokenAccountData<T>>, pubkey: &Pubkey) -> (r: ClientResult<
    Option<T>,
>)
    ensures
        match r {
            Ok(t) => token_account_outcome(value, pubkey@) == Ok::<Option<T>, Seq<char>>(t),
            Err(e) => token_account_outcome(value, pubkey@) == Err::<Option<T>, Seq<char>>(e@),
        },
{
    match value {
        Some(TokenAccountData::Json(Ok(TokenAccountKind::Account(t)))) => Ok(Some(t)),
        Some(TokenAccountData::Json(Err(e))) => Err(ClientError::new(e)),
        _ => {
            let mut message = "AccountNotFound: pubkey=".to_owned();
            message.append(pubkey.to_base58().as_str());
            Err(ClientError::new(message))
        },
    }
}

} // verus!
