use solana_client_icp::accounts::{
    collect_keyed_accounts, program_accounts, token_account, KeyedAccount, ParsedKeyedAccount,
    TokenAccountData, TokenAccountKind,
};
use solana_client_icp::client::{
    account_info_config, account_or_not_found, block_time_or_not_found, checked_signature,
    context_config, genesis_hash_result, latest_blockhash_result, multiple_accounts_config,
    parse_genesis_hash, parse_latest_blockhash, present_accounts, program_accounts_default_config,
    supply_config, token_account_config, transaction_or_not_found, WasmClient,
};
use solana_client_icp::commitment::{CommitmentConfig, CommitmentLevel};
use solana_client_icp::config::{RpcAccountInfoConfig, SignaturesForAddressConfig, UiAccountEncoding, UiDataSliceConfig};
use solana_client_icp::keys::{Pubkey, Signature};
use solana_client_icp::provider::Provider;

const TOKEN_PROGRAM: &str = "TokenkegQfeZyiNwAJbNbGKPFXCWuBvf9Ss623VQ5DA";

#[test]
fn client_default_commitment_is_confirmed() {
    let c = WasmClient::new("https://api.devnet.solana.com");
    assert_eq!(c.commitment(), CommitmentLevel::Confirmed);
    assert_eq!(c.commitment_config(), CommitmentConfig::confirmed());
    match c.provider() {
        Provider::Http(h) => {
            assert_eq!(h.url(), "https://api.devnet.solana.com");
            assert_eq!(h.timeout(), 60000);
        }
    }
}

#[test]
fn client_with_commitment_keeps_it() {
    let c = WasmClient::new_with_commitment("http://localhost:8899", CommitmentConfig::finalized());
    assert_eq!(c.commitment(), CommitmentLevel::Finalized);
}

#[test]
fn requested_commitment_wins_over_default() {
    let c = WasmClient::new("http://localhost:8899");
    assert_eq!(c.resolve_commitment(Some(CommitmentConfig::processed())), CommitmentConfig::processed());
    assert_eq!(c.resolve_commitment(None), CommitmentConfig::confirmed());
    let given = RpcAccountInfoConfig {
        encoding: Some(UiAccountEncoding::Base58),
        data_slice: Some(UiDataSliceConfig { offset: 4, length: 8 }),
        commitment: None,
        min_context_slot: Some(99),
    };
    let r = c.program_account_config(given);
    assert_eq!(r.commitment, Some(CommitmentConfig::confirmed()));
    assert_eq!(r.encoding, Some(UiAccountEncoding::Base58));
    assert_eq!(r.data_slice, Some(UiDataSliceConfig { offset: 4, length: 8 }));
    assert_eq!(r.min_context_slot, Some(99));
    let r2 = c.program_account_config(RpcAccountInfoConfig { commitment: Some(CommitmentConfig::finalized()), ..given });
    assert_eq!(r2.commitment, Some(CommitmentConfig::finalized()));
}

#[test]
fn request_configs() {
    let f = CommitmentConfig::finalized();
    let a = account_info_config(f);
    assert_eq!(a, RpcAccountInfoConfig { encoding: Some(UiAccountEncoding::Base64), data_slice: None, commitment: Some(f), min_context_slot: None });
    let t = token_account_config(f);
    assert_eq!(t.encoding, Some(UiAccountEncoding::JsonParsed));
    assert_eq!(t.commitment, Some(f));
    let m = multiple_accounts_config(f);
    assert_eq!(m, RpcAccountInfoConfig { encoding: None, data_slice: None, commitment: Some(f), min_context_slot: None });
    let d = program_accounts_default_config();
    assert_eq!(d, RpcAccountInfoConfig { encoding: Some(UiAccountEncoding::Base64), ..RpcAccountInfoConfig::empty() });
    let ctx = context_config(f);
    assert_eq!(ctx.commitment, Some(f));
    assert_eq!(ctx.min_context_slot, None);
    let s = supply_config(f);
    assert_eq!(s.commitment, Some(f));
    assert!(!s.exclude_non_circulating_accounts_list);
    let c = WasmClient::new("http://localhost:8899");
    let e = c.inflation_reward_config(Some(512));
    assert_eq!(e.epoch, Some(512));
    assert_eq!(e.commitment, Some(CommitmentConfig::confirmed()));
    assert_eq!(e.min_context_slot, None);
}

#[test]
fn signatures_for_address_config_writes_signatures_as_text() {
    let cfg = SignaturesForAddressConfig {
        before: Some(Signature::new_from_array([1u8; 64])),
        until: None,
        limit: Some(10),
        commitment: Some(CommitmentConfig::finalized()),
    };
    let r = cfg.to_rpc_config();
    assert_eq!(
        r.before.as_deref(),
        Some("2AXDGYSE4f2sz7tvMMzyHvUfcoJmxudvdhBcmiUSo6ijwfYmfZYsKRxboQMPh3R4kUhXRVdtSXFXMheka4Rc4P2")
    );
    assert_eq!(r.until, None);
    assert_eq!(r.limit, Some(10));
    assert_eq!(r.commitment, Some(CommitmentConfig::finalized()));
    assert_eq!(r.min_context_slot, None);
}

#[test]
fn missing_transaction_is_reported_with_its_signature() {
    let sig = Signature::new_from_array([1u8; 64]);
    assert_eq!(transaction_or_not_found(Some(5u8), &sig).unwrap(), 5);
    let e = transaction_or_not_found::<u8>(None, &sig).unwrap_err();
    assert_eq!(
        e.to_message(),
        "Signature 2AXDGYSE4f2sz7tvMMzyHvUfcoJmxudvdhBcmiUSo6ijwfYmfZYsKRxboQMPh3R4kUhXRVdtSXFXMheka4Rc4P2 not found."
    );
}

#[test]
fn missing_account_is_reported_with_its_key() {
    let key = Pubkey::from_base58(TOKEN_PROGRAM).unwrap();
    assert_eq!(account_or_not_found(Some(vec![1u8, 2]), &key).unwrap(), vec![1u8, 2]);
    let e = account_or_not_found::<Vec<u8>>(None, &key).unwrap_err();
    assert_eq!(e.to_message(), format!("Account {} not found.", TOKEN_PROGRAM));
}

#[test]
fn missing_block_time_is_reported_with_slot() {
    assert_eq!(block_time_or_not_found(Some(-3), 1).unwrap(), -3);
    let e = block_time_or_not_found(None, 250_083_117).unwrap_err();
    assert_eq!(e.to_message(), "Block Not Found: slot=250083117");
}

#[test]
fn latest_blockhash_is_read_from_text() {
    let (h, height) = parse_latest_blockhash("EtWTRABZaYq6iMfeYKouRu166VU2xqa1wcaWoxPkrZBG", 777).unwrap();
    assert_eq!(height, 777);
    assert_eq!(h.to_bytes()[0], 206);
    let e = parse_latest_blockhash("not a hash", 777).unwrap_err();
    assert_eq!(e.to_message(), "Hash not parsable.");
    assert!(latest_blockhash_result(None, 1).is_err());
    let given = solana_client_icp::keys::Hash::new_from_array([9u8; 32]);
    assert_eq!(latest_blockhash_result(Some(given), 3).unwrap().0.to_bytes(), [9u8; 32]);
}

#[test]
fn genesis_hash_is_read_from_text() {
    let h = parse_genesis_hash("EtWTRABZaYq6iMfeYKouRu166VU2xqa1wcaWoxPkrZBG").unwrap();
    assert_eq!(h.to_bytes()[31], 171);
    assert_eq!(parse_genesis_hash("xyz!").unwrap_err().to_message(), "Hash is not parseable.");
    assert_eq!(genesis_hash_result(None).unwrap_err().to_message(), "Hash is not parseable.");
}

#[test]
fn sent_signature_must_match_the_transaction() {
    let first = Signature::new_from_array([1u8; 64]);
    let other = Signature::new_from_array([2u8; 64]);
    let sigs = vec![first, other];
    assert_eq!(checked_signature(&first, &sigs).unwrap().to_bytes(), [1u8; 64]);
    let e = checked_signature(&other, &sigs).unwrap_err();
    assert_eq!(
        e.to_message(),
        "RPC node returned mismatched signature 3L3RY5sT8K4kyEnqhizwaqxLEbcYvpGrGPNEYRwtbCSUtL6YL86jdrvCbohnP5q8VxQ3qzGmt3W3iQJW97rD7m3, expected 2AXDGYSE4f2sz7tvMMzyHvUfcoJmxudvdhBcmiUSo6ijwfYmfZYsKRxboQMPh3R4kUhXRVdtSXFXMheka4Rc4P2"
    );
}

#[test]
fn only_present_accounts_are_kept_in_order() {
    let r = present_accounts(vec![None, Some(3u32), None, Some(1), Some(2), None]);
    assert_eq!(r, vec![3, 1, 2]);
    assert!(present_accounts::<u32>(vec![None, None]).is_empty());
    assert!(present_accounts::<u32>(vec![]).is_empty());
}

#[test]
fn program_accounts_are_keyed_in_order() {
    let r = program_accounts(Some(vec![
        KeyedAccount { pubkey: TOKEN_PROGRAM.to_string(), account: Some("a") },
        KeyedAccount { pubkey: "11111111111111111111111111111111".to_string(), account: Some("b") },
    ]))
    .unwrap();
    assert_eq!(r.len(), 2);
    assert_eq!(r[0].0.to_base58(), TOKEN_PROGRAM);
    assert_eq!(r[0].1, "a");
    assert_eq!(r[1].0.to_bytes(), [0u8; 32]);
    assert_eq!(r[1].1, "b");
}

#[test]
fn program_accounts_errors() {
    let none = program_accounts::<u8>(None).unwrap_err();
    assert_eq!(none.to_message(), "Program account doesn't exist.");
    let bad_key = program_accounts(Some(vec![
        KeyedAccount { pubkey: TOKEN_PROGRAM.to_string(), account: Some(1u8) },
        KeyedAccount { pubkey: "bad key".to_string(), account: None },
        KeyedAccount { pubkey: TOKEN_PROGRAM.to_string(), account: None },
    ]))
    .unwrap_err();
    assert_eq!(bad_key.to_message(), "bad key is not a valid pubkey.");
    let undecodable = program_accounts(Some(vec![
        KeyedAccount { pubkey: TOKEN_PROGRAM.to_string(), account: None },
        KeyedAccount { pubkey: "bad key".to_string(), account: Some(1u8) },
    ]))
    .unwrap_err();
    assert_eq!(undecodable.to_message(), format!("Unable to decode {}", TOKEN_PROGRAM));
    assert!(program_accounts::<u8>(Some(vec![])).unwrap().is_empty());
}

#[test]
fn collect_keyed_accounts_on_given_keys() {
    let key = Pubkey::new_from_array([5u8; 32]);
    let r = collect_keyed_accounts(vec![ParsedKeyedAccount { pubkey: "whatever".to_string(), key: Some(key), account: Some(7u8) }]).unwrap();
    assert_eq!(r[0].0.to_bytes(), [5u8; 32]);
    assert_eq!(r[0].1, 7);
    let e = collect_keyed_accounts::<u8>(vec![ParsedKeyedAccount { pubkey: "k".to_string(), key: None, account: Some(7) }]).unwrap_err();
    assert_eq!(e.to_message(), "k is not a valid pubkey.");
}

#[test]
fn token_account_outcomes() {
    let key = Pubkey::from_base58(TOKEN_PROGRAM).unwrap();
    let not_found = format!("AccountNotFound: pubkey={}", TOKEN_PROGRAM);
    assert_eq!(token_account(Some(TokenAccountData::Json(Ok(TokenAccountKind::Account(4u8)))), &key).unwrap(), Some(4));
    assert_eq!(token_account::<u8>(None, &key).unwrap_err().to_message(), not_found);
    assert_eq!(token_account::<u8>(Some(TokenAccountData::Binary), &key).unwrap_err().to_message(), not_found);
    assert_eq!(token_account::<u8>(Some(TokenAccountData::Json(Ok(TokenAccountKind::Mint))), &key).unwrap_err().to_message(), not_found);
    assert_eq!(token_account::<u8>(Some(TokenAccountData::Json(Ok(TokenAccountKind::Multisig))), &key).unwrap_err().to_message(), not_found);
    assert_eq!(
        token_account::<u8>(Some(TokenAccountData::Json(Err("missing field `mint`".to_string()))), &key).unwrap_err().to_message(),
        "missing field `mint`"
    );
}
