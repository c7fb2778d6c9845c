use kafu::compression::{build_delta_pages_payload, compress_if_smaller, decode_payload, encode_payload, PayloadError};

#[test]
fn compressible_payload_round_trips() {
    let data = vec![0u8; 65536];
    let (payload, compressed) = compress_if_smaller(&data);
    assert!(compressed);
    assert!(payload.len() < data.len());
    assert_eq!(&payload[..4], &(65536u32).to_le_bytes());
    assert_eq!(decode_payload(&payload, true).unwrap(), data);
}

#[test]
fn incompressible_payload_is_sent_raw() {
    let data = vec![1u8, 2, 3];
    let (payload, compressed) = compress_if_smaller(&data);
    assert!(!compressed);
    assert_eq!(payload, data);
    assert_eq!(decode_payload(&payload, false).unwrap(), data);
}

#[test]
fn compression_off_sends_raw() {
    let data = vec![0u8; 1000];
    let (payload, compressed) = encode_payload(&data, false);
    assert!(!compressed);
    assert_eq!(payload, data);
}

#[test]
fn malformed_block_is_refused() {
    assert_eq!(decode_payload(&[1, 2], true), Err(PayloadError::Decompress));
}

#[test]
fn delta_pages_are_compressed_one_by_one() {
    let raw = vec![(0u32, vec![0u8; 65536]), (3u32, vec![9u8, 8, 7])];
    let on = build_delta_pages_payload(&raw, true);
    assert_eq!(on.len(), 2);
    assert_eq!(on[0].page_index, 0);
    assert!(on[0].data_compressed);
    assert_eq!(decode_payload(&on[0].data, true).unwrap(), raw[0].1);
    assert_eq!(on[1].page_index, 3);
    assert!(!on[1].data_compressed);
    assert_eq!(on[1].data, raw[1].1);
    let off = build_delta_pages_payload(&raw, false);
    assert!(!off[0].data_compressed);
    assert_eq!(off[0].data, raw[0].1);
}

#[test]
fn overlong_ff_run_is_refused_without_decoding() {
    let mut block = vec![0x10u8, 0, 0, 0, 0xF0];
    block.extend(std::iter::repeat(0xFFu8).take(kafu::compression::LZ4_FF_RUN_LIMIT + 1));
    block.push(1);
    assert!(kafu::compression::long_ff_run(&block));
    assert_eq!(decode_payload(&block, true), Err(PayloadError::Decompress));
    let short = vec![0xFFu8; 300];
    assert!(!kafu::compression::long_ff_run(&short));
}
