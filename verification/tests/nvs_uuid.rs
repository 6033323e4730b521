use esp_thing::nvs_uuid::{new_uuid, uuid_from_stored, uuid_step, UuidStep};

#[test]
fn stored_bytes_are_big_endian() {
    let bytes: [u8; 16] = [1, 2, 3, 4, 5, 6, 7, 8, 9, 10, 11, 12, 13, 14, 15, 16];
    assert_eq!(uuid_from_stored(&bytes), u128::from_be_bytes(bytes));
    assert_eq!(uuid_from_stored(&bytes), 0x0102030405060708090a0b0c0d0e0f10);
}

#[test]
fn stored_bytes_beyond_sixteen_are_ignored() {
    let mut bytes = vec![0u8; 15];
    bytes.push(1);
    bytes.push(0xff);
    assert_eq!(uuid_from_stored(&bytes), 1);
}

#[test]
fn new_uuid_reads_back() {
    let (bytes, value) = new_uuid();
    assert_eq!(value, u128::from_be_bytes(bytes));
    assert_eq!(uuid_from_stored(&bytes), value);
    assert_eq!(bytes[6] & 0xf0, 0x40);
    assert_eq!(bytes[8] & 0xc0, 0x80);
}

#[test]
fn new_uuids_differ() {
    let (_, a) = new_uuid();
    let (_, b) = new_uuid();
    assert_ne!(a, b);
}

#[test]
fn start_up_step() {
    assert_eq!(uuid_step(true), UuidStep::Generate);
    assert_eq!(uuid_step(false), UuidStep::Read);
}
