use authority_gateway::errors::GatewayError;
use authority_gateway::ids::AccountId;
use authority_gateway::state::{ProgramState, STATE_LEN};

fn id(byte: u8) -> AccountId {
    AccountId::from_bytes(vec![byte; 32]).unwrap()
}

#[test]
fn pack_has_exact_fixed_layout() {
    let record = ProgramState { admin: id(1), vault_amount: 0x0807060504030201 };
    let bytes = record.pack();
    assert_eq!(bytes.len(), STATE_LEN);
    let mut expected = vec![1u8; 32];
    expected.extend_from_slice(&[1, 2, 3, 4, 5, 6, 7, 8]);
    assert_eq!(bytes, expected);
}

#[test]
fn pack_zero_amount() {
    let record = ProgramState { admin: id(9), vault_amount: 0 };
    let bytes = record.pack();
    let mut expected = vec![9u8; 32];
    expected.extend_from_slice(&[0; 8]);
    assert_eq!(bytes, expected);
}

#[test]
fn unpack_round_trips_pack() {
    let record = ProgramState { admin: id(5), vault_amount: 123456789 };
    let bytes = record.pack();
    let back = ProgramState::unpack(&bytes).unwrap();
    assert_eq!(back.admin.as_bytes(), &vec![5u8; 32]);
    assert_eq!(back.vault_amount, 123456789);
}

#[test]
fn unpack_round_trips_extreme_amounts() {
    for amount in [0u64, 1, 254, 255, 256, u64::MAX - 1, u64::MAX] {
        let record = ProgramState { admin: id(77), vault_amount: amount };
        let back = ProgramState::unpack(&record.pack()).unwrap();
        assert_eq!(back.vault_amount, amount);
        assert_eq!(back.admin.as_bytes(), &vec![77u8; 32]);
    }
}

#[test]
fn unpack_rejects_short_buffer() {
    let buf = vec![0u8; STATE_LEN - 1];
    assert_eq!(ProgramState::unpack(&buf).unwrap_err(), GatewayError::InvalidLength);
}

#[test]
fn unpack_rejects_long_buffer() {
    let buf = vec![0u8; STATE_LEN + 1];
    assert_eq!(ProgramState::unpack(&buf).unwrap_err(), GatewayError::InvalidLength);
}

#[test]
fn unpack_rejects_empty_buffer() {
    let buf: Vec<u8> = Vec::new();
    assert_eq!(ProgramState::unpack(&buf).unwrap_err(), GatewayError::InvalidLength);
}

#[test]
fn account_id_rejects_wrong_length() {
    assert!(AccountId::from_bytes(vec![0u8; 31]).is_none());
    assert!(AccountId::from_bytes(vec![0u8; 33]).is_none());
    assert!(AccountId::from_bytes(Vec::new()).is_none());
    assert!(AccountId::from_bytes(vec![0u8; 32]).is_some());
}

#[test]
fn account_id_equality_is_byte_exact() {
    let a = id(3);
    let b = id(3);
    let c = id(4);
    assert!(a.eq_id(&b));
    assert!(!a.eq_id(&c));
    let mut tweaked = vec![3u8; 32];
    tweaked[31] = 4;
    let d = AccountId::from_bytes(tweaked).unwrap();
    assert!(!a.eq_id(&d));
}
