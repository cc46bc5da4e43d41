use solana_client_icp::keys::{Pubkey, Signature};
use solana_client_icp::text::push_decimal;

const TOKEN_PROGRAM: [u8; 32] = [
    6, 221, 246, 225, 215, 101, 161, 147, 217, 203, 225, 70, 206, 235, 121, 172, 28, 180, 133,
    237, 95, 91, 55, 145, 58, 140, 245, 133, 126, 255, 0, 169,
];

#[test]
fn pubkey_reads_base58() {
    let k = Pubkey::from_base58("TokenkegQfeZyiNwAJbNbGKPFXCWuBvf9Ss623VQ5DA").unwrap();
    assert_eq!(k.to_bytes(), TOKEN_PROGRAM);
    let zero = Pubkey::from_base58("11111111111111111111111111111111").unwrap();
    assert_eq!(zero.to_bytes(), [0u8; 32]);
}

#[test]
fn pubkey_refuses_bad_text() {
    assert!(Pubkey::from_base58("not-a-key").is_none());
    assert!(Pubkey::from_base58("1111").is_none());
    assert!(Pubkey::from_base58("").is_none());
}

#[test]
fn pubkey_writes_base58() {
    let mut bytes = [0u8; 32];
    for (i, b) in bytes.iter_mut().enumerate() {
        *b = i as u8;
    }
    assert_eq!(Pubkey::new_from_array(bytes).to_base58(), "1thX6LZfHDZZKUs92febYZhYRcXddmzfzF2NvTkPNE");
    assert_eq!(
        Pubkey::new_from_array(TOKEN_PROGRAM).to_base58(),
        "TokenkegQfeZyiNwAJbNbGKPFXCWuBvf9Ss623VQ5DA"
    );
}

#[test]
fn hash_reads_base58() {
    let h = solana_client_icp::keys::Hash::from_base58("EtWTRABZaYq6iMfeYKouRu166VU2xqa1wcaWoxPkrZBG").unwrap();
    assert_eq!(
        h.to_bytes(),
        [
            206, 89, 219, 80, 128, 252, 44, 109, 59, 207, 124, 169, 7, 18, 211, 194, 229, 230,
            194, 143, 39, 240, 223, 187, 153, 83, 189, 176, 137, 76, 3, 171
        ]
    );
    assert!(solana_client_icp::keys::Hash::from_base58("0OIl").is_none());
}

#[test]
fn signature_writes_base58_and_compares_bytes() {
    let a = Signature::new_from_array([1u8; 64]);
    let b = Signature::new_from_array([2u8; 64]);
    assert_eq!(
        a.to_base58(),
        "2AXDGYSE4f2sz7tvMMzyHvUfcoJmxudvdhBcmiUSo6ijwfYmfZYsKRxboQMPh3R4kUhXRVdtSXFXMheka4Rc4P2"
    );
    assert!(a.same_as(&Signature::new_from_array([1u8; 64])));
    assert!(!a.same_as(&b));
    let mut c = [1u8; 64];
    c[63] = 0;
    assert!(!a.same_as(&Signature::new_from_array(c)));
}

#[test]
fn decimal_text_of_numbers() {
    for (n, t) in [(0u64, "0"), (7, "7"), (10, "10"), (1234567890, "1234567890"), (u64::MAX, "18446744073709551615")] {
        let mut s = String::from("slot=");
        push_decimal(&mut s, n);
        assert_eq!(s, format!("slot={}", t));
    }
}

#[test]
fn signature_reads_base58() {
    let s = Signature::from_base58(
        "2AXDGYSE4f2sz7tvMMzyHvUfcoJmxudvdhBcmiUSo6ijwfYmfZYsKRxboQMPh3R4kUhXRVdtSXFXMheka4Rc4P2",
    )
    .unwrap();
    assert_eq!(s.to_bytes(), [1u8; 64]);
    assert!(Signature::from_base58("TokenkegQfeZyiNwAJbNbGKPFXCWuBvf9Ss623VQ5DA").is_none());
    assert!(Signature::from_base58("l0l").is_none());
}
