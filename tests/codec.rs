use cantrip_proc_interface::{
    decode_bundle_ids, encode_bundle_ids, BundleIdArray, GetRunningBundlesResponse,
    InstallResponse, ProcessManagerError, RAW_BUNDLE_ID_DATA_SIZE,
};

fn into_raw(encoded: &[u8]) -> [u8; RAW_BUNDLE_ID_DATA_SIZE] {
    let mut raw_data = [0u8; RAW_BUNDLE_ID_DATA_SIZE];
    raw_data[..encoded.len()].copy_from_slice(encoded);
    raw_data
}

#[test]
fn test_raw_bundle_id_data_empty() {
    let bid_array = BundleIdArray::new();
    // Marshall/unmarshall empty bid_array.
    let encoded = encode_bundle_ids(&bid_array);
    assert!(encoded.is_ok());
    let raw_data = into_raw(&encoded.unwrap());
    assert_eq!(decode_bundle_ids(raw_data.as_ref()).unwrap(), bid_array);
}

#[test]
fn test_raw_bundle_id_data_simple() {
    let mut bid_array = BundleIdArray::new();
    bid_array.push(String::from("zero"));
    bid_array.push(String::from("one"));
    bid_array.push(String::from("two"));

    // Marshall/unmarshall bid_array.
    let encoded = encode_bundle_ids(&bid_array);
    assert!(encoded.is_ok());
    let raw_data = into_raw(&encoded.unwrap());
    assert_eq!(decode_bundle_ids(raw_data.as_ref()).unwrap(), bid_array);
}

#[test]
fn test_raw_bundle_id_data_out_of_space() {
    // An array with more than 255 ids does not fit.
    let mut bid_array = BundleIdArray::new();
    for bid in 0..256 {
        bid_array.push(bid.to_string());
    }
    assert!(encode_bundle_ids(&bid_array).is_err());
}

#[test]
fn test_raw_bundle_id_data_too_long() {
    // One id longer than 255 bytes does not fit.
    let mut bid_array = BundleIdArray::new();
    bid_array.push("0123456789".repeat(26));
    assert!(encode_bundle_ids(&bid_array).is_err());
}

#[test]
fn overflow_errors_are_serialize_errors() {
    let many: BundleIdArray = (0..256).map(|i: i32| i.to_string()).collect();
    assert_eq!(encode_bundle_ids(&many), Err(ProcessManagerError::SerializeError));
    let long: BundleIdArray = vec!["0123456789".repeat(26)];
    assert_eq!(encode_bundle_ids(&long), Err(ProcessManagerError::SerializeError));
}

#[test]
fn empty_list_is_one_zero_byte() {
    assert_eq!(encode_bundle_ids(&BundleIdArray::new()).unwrap(), vec![0u8]);
    assert_eq!(decode_bundle_ids(&[0u8]).unwrap(), BundleIdArray::new());
}

#[test]
fn exact_layout_of_a_list() {
    let ids = vec![String::from("ab"), String::from("c")];
    assert_eq!(encode_bundle_ids(&ids).unwrap(), vec![2u8, 2, b'a', b'b', 1, b'c']);
}

#[test]
fn list_that_exactly_fills_the_buffer() {
    // count (1 byte) + length (1 byte) + 98 bytes = 100 bytes.
    let ids = vec!["x".repeat(98)];
    let encoded = encode_bundle_ids(&ids).unwrap();
    assert_eq!(encoded.len(), RAW_BUNDLE_ID_DATA_SIZE);
    assert_eq!(decode_bundle_ids(&encoded).unwrap(), ids);
    let one_more = vec!["x".repeat(99)];
    assert_eq!(encode_bundle_ids(&one_more), Err(ProcessManagerError::SerializeError));
}

#[test]
fn round_trip_keeps_order_and_multibyte_text() {
    let ids = vec![
        String::from("zeta"),
        String::from("alpha"),
        String::from("zeta"),
        String::from("caf\u{e9}"),
        String::new(),
    ];
    let raw_data = into_raw(&encode_bundle_ids(&ids).unwrap());
    assert_eq!(decode_bundle_ids(&raw_data).unwrap(), ids);
}

#[test]
fn matches_postcard_layout() {
    let ids = vec![String::from("zero"), String::from("one"), String::from("caf\u{e9}")];
    let ours = encode_bundle_ids(&ids).unwrap();
    let theirs = postcard::to_allocvec(&ids).unwrap();
    assert_eq!(ours, theirs);
    let mut raw_data = [0u8; RAW_BUNDLE_ID_DATA_SIZE];
    postcard::to_slice(&ids, &mut raw_data).unwrap();
    assert_eq!(decode_bundle_ids(&raw_data).unwrap(), ids);
    assert_eq!(postcard::from_bytes::<BundleIdArray>(&into_raw(&ours)).unwrap(), ids);
}

#[test]
fn decode_accepts_what_postcard_accepts_for_long_varints() {
    // A count written with a redundant continuation byte still reads as 1.
    let bytes = [0x81u8, 0x00, 1, b'a'];
    assert_eq!(decode_bundle_ids(&bytes).unwrap(), vec![String::from("a")]);
    assert_eq!(postcard::from_bytes::<BundleIdArray>(&bytes).unwrap(), vec![String::from("a")]);
}

#[test]
fn decode_rejects_malformed_buffers() {
    // Truncated: promises two ids, holds one.
    assert_eq!(
        decode_bundle_ids(&[2u8, 1, b'a']),
        Err(ProcessManagerError::DeserializeError)
    );
    // String length past the end of the buffer.
    assert_eq!(decode_bundle_ids(&[1u8, 5, b'a']), Err(ProcessManagerError::DeserializeError));
    // Not UTF-8.
    assert_eq!(
        decode_bundle_ids(&[1u8, 2, 0xff, 0xfe]),
        Err(ProcessManagerError::DeserializeError)
    );
    // Empty buffer.
    assert_eq!(decode_bundle_ids(&[]), Err(ProcessManagerError::DeserializeError));
    // A varint of eleven bytes.
    assert_eq!(decode_bundle_ids(&[0x80u8; 11]), Err(ProcessManagerError::DeserializeError));
    // Ten bytes whose last one overflows 64 bits.
    let mut too_big = [0xffu8; 10];
    too_big[9] = 0x02;
    assert_eq!(decode_bundle_ids(&too_big), Err(ProcessManagerError::DeserializeError));
}

#[test]
fn replies_decode_from_the_buffer_front() {
    let reply = into_raw(&[3u8, b'a', b'p', b'p']);
    assert_eq!(InstallResponse::decode(&reply).unwrap().bundle_id, "app");
    let list = into_raw(&encode_bundle_ids(&vec![String::from("a")]).unwrap());
    assert_eq!(
        GetRunningBundlesResponse::decode(&list).unwrap().bundle_ids,
        vec![String::from("a")]
    );
    assert!(InstallResponse::decode(&[4u8, b'a']).is_err());
}

#[test]
fn decode_rejects_buffers_larger_than_the_reply_buffer() {
    let mut b = vec![0u8; RAW_BUNDLE_ID_DATA_SIZE + 1];
    assert_eq!(decode_bundle_ids(&b), Err(ProcessManagerError::DeserializeError));
    b.truncate(RAW_BUNDLE_ID_DATA_SIZE);
    assert_eq!(decode_bundle_ids(&b), Ok(BundleIdArray::new()));
}
