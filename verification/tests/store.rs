use smartcontract::bill::{Bill, BillError, Identity, FIXED_LEN, SAFETY_MARGIN};
use smartcontract::codec::RECORD_TAG;

fn dinner() -> Bill {
    Bill {
        creator: Identity::new([9u8; 32]),
        name: String::from("dinner"),
        total_amount: 5000,
        participant_name: String::from("Alice"),
        created_at: 1_700_000_000,
        is_paid: false,
    }
}

#[test]
fn space_of_dinner_bill() {
    assert_eq!(Bill::space("dinner", "Alice"), 276);
    assert_eq!(Bill::checked_space("dinner", "Alice"), Some(276));
}

#[test]
fn space_of_empty_texts() {
    assert_eq!(Bill::space("", ""), 265);
    assert_eq!(FIXED_LEN + SAFETY_MARGIN, 265);
}

#[test]
fn space_counts_bytes_not_characters() {
    assert_eq!(Bill::space("café", "Zoë"), 265 + 5 + 4);
}

#[test]
fn encoded_length_plus_margin_is_space() {
    let bill = dinner();
    let bytes = bill.encode().unwrap();
    assert_eq!(bytes.len(), 76);
    assert_eq!(bytes.len() + SAFETY_MARGIN, Bill::space(&bill.name, &bill.participant_name));
}

#[test]
fn encode_exact_bytes() {
    let bill = Bill {
        creator: Identity::new([9u8; 32]),
        name: String::from("ab"),
        total_amount: 0x0102,
        participant_name: String::from("Z"),
        created_at: -2,
        is_paid: true,
    };
    let mut expected: Vec<u8> = Vec::new();
    expected.extend_from_slice(&[70, 76, 251, 175, 212, 227, 212, 179]);
    expected.extend_from_slice(&[9u8; 32]);
    expected.extend_from_slice(&[2, 0, 0, 0, b'a', b'b']);
    expected.extend_from_slice(&[2, 1, 0, 0, 0, 0, 0, 0]);
    expected.extend_from_slice(&[1, 0, 0, 0, b'Z']);
    expected.extend_from_slice(&[0xfe, 0xff, 0xff, 0xff, 0xff, 0xff, 0xff, 0xff]);
    expected.push(1);
    assert_eq!(bill.encode().unwrap(), expected);
}

#[test]
fn encode_then_decode_round_trips() {
    let bill = dinner();
    let bytes = bill.encode().unwrap();
    assert_eq!(Bill::decode(&bytes), Ok(bill));
}

#[test]
fn round_trip_of_paid_bill_with_wide_characters() {
    let bill = Bill {
        creator: Identity::new([0xabu8; 32]),
        name: String::from("晚餐 🍜"),
        total_amount: u64::MAX,
        participant_name: String::from("Zoë"),
        created_at: i64::MIN,
        is_paid: true,
    };
    let bytes = bill.encode().unwrap();
    assert_eq!(Bill::decode(&bytes), Ok(bill));
}

#[test]
fn decode_ignores_the_margin() {
    let bill = dinner();
    let mut bytes = bill.encode().unwrap();
    bytes.resize(Bill::space(&bill.name, &bill.participant_name), 0);
    assert_eq!(bytes.len(), 276);
    assert_eq!(Bill::decode(&bytes), Ok(bill));
}

#[test]
fn decode_rejects_truncated_record() {
    let bytes = dinner().encode().unwrap();
    for cut in 0..bytes.len() {
        assert_eq!(Bill::decode(&bytes[..cut]), Err(BillError::CorruptRecord));
    }
}

#[test]
fn decode_rejects_empty_buffer() {
    assert_eq!(Bill::decode(&[]), Err(BillError::CorruptRecord));
}

#[test]
fn decode_rejects_wrong_tag() {
    let mut bytes = dinner().encode().unwrap();
    bytes[7] ^= 1;
    assert_eq!(Bill::decode(&bytes), Err(BillError::CorruptRecord));
}

#[test]
fn decode_rejects_flag_above_one() {
    let mut bytes = dinner().encode().unwrap();
    let last = bytes.len() - 1;
    bytes[last] = 2;
    assert_eq!(Bill::decode(&bytes), Err(BillError::CorruptRecord));
}

#[test]
fn decode_rejects_invalid_utf8_name() {
    let mut bytes = dinner().encode().unwrap();
    bytes[44] = 0xff;
    assert_eq!(Bill::decode(&bytes), Err(BillError::CorruptRecord));
}

#[test]
fn decode_rejects_invalid_utf8_participant() {
    let mut bytes = dinner().encode().unwrap();
    bytes[44 + 6 + 8 + 4] = 0xc0;
    assert_eq!(Bill::decode(&bytes), Err(BillError::CorruptRecord));
}

#[test]
fn decode_rejects_length_beyond_buffer() {
    let mut bytes = dinner().encode().unwrap();
    bytes[40] = 200;
    assert_eq!(Bill::decode(&bytes), Err(BillError::CorruptRecord));
}

#[test]
fn decode_returns_text_not_bytes() {
    let bytes = dinner().encode().unwrap();
    let bill = Bill::decode(&bytes).unwrap();
    assert_eq!(bill.name, "dinner");
    assert_eq!(bill.participant_name, "Alice");
    assert_eq!(bill.total_amount, 5000);
    assert_eq!(bill.created_at, 1_700_000_000);
    assert!(!bill.is_paid);
    assert_eq!(bill.creator.bytes, [9u8; 32]);
}

#[test]
fn record_tag_opens_the_record() {
    let bytes = dinner().encode().unwrap();
    assert_eq!(&bytes[..8], &RECORD_TAG);
}

#[test]
fn error_messages() {
    assert_eq!(BillError::InsufficientFunds.message(), "Insufficient funds for bill payment");
    assert_eq!(BillError::UnauthorizedDeletion.message(), "Only the creator can delete this bill");
    assert_eq!(BillError::AlreadyPaid.message(), "This bill has already been paid");
    assert_ne!(BillError::CorruptRecord.message(), BillError::AccountNotFound.message());
}

#[test]
fn storage_is_exactly_the_space() {
    let bill = dinner();
    let stored = bill.to_storage().unwrap();
    assert_eq!(stored.len(), 276);
    assert_eq!(stored.len(), Bill::space(&bill.name, &bill.participant_name));
    assert_eq!(&stored[..76], &bill.encode().unwrap()[..]);
    assert!(stored[76..].iter().all(|byte| *byte == 0));
    assert_eq!(Bill::decode(&stored), Ok(bill));
}
