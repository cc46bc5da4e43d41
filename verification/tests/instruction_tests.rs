use solana_client_icp::instruction::{discriminator, update_state_data};

#[test]
fn discriminator_is_prefix_of_sha256() {
    assert_eq!(discriminator("update_state"), [135, 112, 215, 75, 247, 185, 53, 176]);
    assert_eq!(discriminator("initialize"), [175, 175, 109, 31, 13, 152, 155, 237]);
}

#[test]
fn update_state_data_is_discriminator_then_borsh_args() {
    let entries = vec![("counter".to_string(), 12345678u128.to_le_bytes().to_vec())];
    let data = update_state_data(&entries);
    assert_eq!(
        data,
        vec![
            135, 112, 215, 75, 247, 185, 53, 176, 1, 0, 0, 0, 7, 0, 0, 0, 99, 111, 117, 110, 116,
            101, 114, 16, 0, 0, 0, 78, 97, 188, 0, 0, 0, 0, 0, 0, 0, 0, 0, 0, 0, 0, 0
        ]
    );
}

#[test]
fn update_state_data_without_entries() {
    let data = update_state_data(&vec![]);
    assert_eq!(data, vec![135, 112, 215, 75, 247, 185, 53, 176, 0, 0, 0, 0]);
}
