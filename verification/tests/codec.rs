use todo_on_chain_backend::codec::{decode_item, encode_checked, encode_item, read_u64_at,
    FORMAT_TAG, FORMAT_VERSION, HEADER_LEN, MAX_VALUE_SIZE};
use todo_on_chain_backend::record::TodoItem;

fn sample_item() -> TodoItem {
    TodoItem {
        owner: b"ownerA".to_vec(),
        id: 42,
        assignee: b"Bob".to_vec(),
        description: b"ship the release".to_vec(),
        duration: 30,
        is_active: true,
        updated_at: 1_700_000_000_000_000_001,
        created_at: 1_700_000_000_000_000_000,
    }
}

#[test]
fn encode_then_decode_round_trips() {
    let item = sample_item();
    let bytes = encode_item(&item);
    assert_eq!(
        bytes.len(),
        HEADER_LEN + item.owner.len() + item.assignee.len() + item.description.len()
    );
    let back = decode_item(&bytes).unwrap();
    assert_eq!(back.owner, item.owner);
    assert_eq!(back.id, item.id);
    assert_eq!(back.assignee, item.assignee);
    assert_eq!(back.description, item.description);
    assert_eq!(back.duration, item.duration);
    assert_eq!(back.is_active, item.is_active);
    assert_eq!(back.updated_at, item.updated_at);
    assert_eq!(back.created_at, item.created_at);
}

#[test]
fn encode_layout_is_tagged_versioned_little_endian() {
    let item = sample_item();
    let bytes = encode_item(&item);
    assert_eq!(bytes[0], FORMAT_TAG);
    assert_eq!(bytes[1], FORMAT_VERSION);
    assert_eq!(read_u64_at(&bytes, 2), 42);
    assert_eq!(read_u64_at(&bytes, 10), 30);
    assert_eq!(bytes[18], 1);
    assert_eq!(read_u64_at(&bytes, 35), item.owner.len() as u64);
    assert_eq!(&bytes[HEADER_LEN..HEADER_LEN + 6], b"ownerA");
}

#[test]
fn decode_rejects_corrupt_bytes() {
    assert!(decode_item(&Vec::new()).is_none());
    assert!(decode_item(&vec![0u8; 10]).is_none());
    // A header whose declared field lengths disagree with the actual length.
    let item = sample_item();
    let mut bytes = vec![0u8; HEADER_LEN];
    bytes[0] = FORMAT_TAG;
    bytes[1] = FORMAT_VERSION;
    bytes[35] = 200;
    assert!(decode_item(&bytes).is_none());
    // A wrong format tag, and a layout version this module does not read.
    let mut bytes = encode_item(&item);
    bytes[0] = 0;
    assert!(decode_item(&bytes).is_none());
    let mut bytes = encode_item(&item);
    bytes[1] = FORMAT_VERSION + 1;
    assert!(decode_item(&bytes).is_none());
    // An is_active byte that is neither 0 nor 1.
    let mut bytes = encode_item(&item);
    bytes[18] = 2;
    assert!(decode_item(&bytes).is_none());
    // A truncated encoding.
    let mut bytes = encode_item(&item);
    bytes.pop();
    assert!(decode_item(&bytes).is_none());
}

#[test]
fn encode_checked_refuses_oversized_records() {
    let mut item = sample_item();
    item.description = vec![b'd'; MAX_VALUE_SIZE];
    assert!(encode_checked(&item).is_none());
    let item = sample_item();
    let bytes = encode_checked(&item).unwrap();
    assert!(bytes.len() <= MAX_VALUE_SIZE);
}
