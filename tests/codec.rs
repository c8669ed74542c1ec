use prediction_market::address::{
    find_user_position_address, find_vault_address, market_id_le_bytes, same_address,
};
use prediction_market::error::ErrorCode;
use prediction_market::payload::decode_abi_payload;

#[test]
fn decode_reads_each_word() {
    let mut data = vec![0u8; 96];
    for i in 0..20 {
        data[12 + i] = i as u8 + 1;
    }
    data[56..64].copy_from_slice(&0x0102_0304_0506_0708u64.to_be_bytes());
    data[95] = 1;
    let (addr, market_id, outcome) = decode_abi_payload(&data).unwrap();
    let expected: Vec<u8> = (1..=20).collect();
    assert_eq!(addr.to_vec(), expected);
    assert_eq!(market_id, 0x0102_0304_0506_0708);
    assert_eq!(outcome, 1);
}

#[test]
fn decode_round_trips_encoding() {
    let beneficiary = [0xAAu8; 20];
    let mut data = vec![0u8; 96];
    data[12..32].copy_from_slice(&beneficiary);
    data[56..64].copy_from_slice(&u64::MAX.to_be_bytes());
    data[95] = 0;
    assert_eq!(decode_abi_payload(&data), Ok((beneficiary, u64::MAX, 0)));
}

#[test]
fn decode_ignores_padding() {
    let mut data = vec![0xFFu8; 96];
    data[12..32].copy_from_slice(&[7u8; 20]);
    data[56..64].copy_from_slice(&7u64.to_be_bytes());
    data[95] = 1;
    assert_eq!(decode_abi_payload(&data), Ok(([7u8; 20], 7, 1)));
}

#[test]
fn decode_rejects_wrong_length() {
    assert_eq!(decode_abi_payload(&[]), Err(ErrorCode::InvalidPayloadLength));
    assert_eq!(decode_abi_payload(&[0u8; 95]), Err(ErrorCode::InvalidPayloadLength));
    assert_eq!(decode_abi_payload(&[0u8; 97]), Err(ErrorCode::InvalidPayloadLength));
}

#[test]
fn market_id_bytes_are_little_endian() {
    assert_eq!(market_id_le_bytes(7), vec![7, 0, 0, 0, 0, 0, 0, 0]);
    assert_eq!(market_id_le_bytes(0x0102_0304_0506_0708), vec![8, 7, 6, 5, 4, 3, 2, 1]);
}

#[test]
fn derived_addresses_are_deterministic_and_distinct() {
    let pid = [3u8; 32];
    let v1 = find_vault_address(&pid, 7).unwrap();
    let v2 = find_vault_address(&pid, 7).unwrap();
    assert_eq!(v1, v2);
    assert_ne!(v1.0, pid);
    assert_ne!(find_vault_address(&pid, 8).unwrap().0, v1.0);
    let u = find_user_position_address(&pid, 7, &[0xAAu8; 20]).unwrap();
    assert_ne!(u.0, v1.0);
    assert_ne!(find_user_position_address(&pid, 7, &[0xBBu8; 20]).unwrap().0, u.0);
    assert_ne!(find_vault_address(&[4u8; 32], 7).unwrap().0, v1.0);
}

#[test]
fn same_address_compares_all_bytes() {
    let a = [5u8; 32];
    let mut b = a;
    assert!(same_address(&a, &b));
    b[31] = 6;
    assert!(!same_address(&a, &b));
}

#[test]
fn error_messages() {
    assert_eq!(ErrorCode::NoNewFunds.message(), "No new funds detected");
    assert_eq!(ErrorCode::InvalidPayloadLength.message(), "Invalid payload length");
    assert_eq!(ErrorCode::MissingBump.message(), "Missing bump");
}
