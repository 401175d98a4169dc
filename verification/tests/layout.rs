use bonding_curve::addr::Addr;
use bonding_curve::state::{build_caller_record, decode_caller_record, encode_caller_record};

#[test]
fn record_layout_is_exact() {
    let owner = Addr { bytes: [5u8; 32] };
    let reserve = Addr { bytes: [9u8; 32] };
    let rec = build_caller_record(owner, 251, 252, reserve, 253, 254);
    let v = encode_caller_record(&rec);
    assert_eq!(v.len(), 92);
    assert_eq!(&v[..32], &[5u8; 32]);
    assert_eq!(v[32], 251);
    assert_eq!(v[33], 252);
    // 1_000_000_000 in little-endian bytes, three times over.
    assert_eq!(&v[34..42], &[0, 202, 154, 59, 0, 0, 0, 0]);
    assert_eq!(&v[42..50], &[0, 202, 154, 59, 0, 0, 0, 0]);
    assert_eq!(&v[50..58], &[0, 202, 154, 59, 0, 0, 0, 0]);
    assert_eq!(&v[58..90], &[9u8; 32]);
    assert_eq!(v[90], 253);
    assert_eq!(v[91], 254);
}

#[test]
fn record_layout_round_trips() {
    let owner = Addr { bytes: [5u8; 32] };
    let reserve = Addr { bytes: [9u8; 32] };
    let rec = build_caller_record(owner, 1, 2, reserve, 3, 4);
    let v = encode_caller_record(&rec);
    let back = decode_caller_record(&v).unwrap();
    assert_eq!(back.caller.bytes, rec.caller.bytes);
    assert_eq!(back.mint_bump, rec.mint_bump);
    assert_eq!(back.mint_authority_bump, rec.mint_authority_bump);
    assert_eq!(back.mint_supply, rec.mint_supply);
    assert_eq!(back.mint_total_supply, rec.mint_total_supply);
    assert_eq!(back.value_target, rec.value_target);
    assert_eq!(back.mint_reserve.bytes, rec.mint_reserve.bytes);
    assert_eq!(back.sol_reserve_bump, rec.sol_reserve_bump);
    assert_eq!(back.bump, rec.bump);
}

#[test]
fn decode_refuses_a_wrong_size() {
    assert!(decode_caller_record(&vec![0u8; 91]).is_none());
    assert!(decode_caller_record(&vec![0u8; 93]).is_none());
    assert!(decode_caller_record(&vec![]).is_none());
}
