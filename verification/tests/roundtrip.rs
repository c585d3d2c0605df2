use freya::engine::{round_trip, run_transform, terminal_message, Direction};
use freya::CompressMessage;
use freya::CompressionLevel;

fn roundtrip_at(data: &[u8], level: CompressionLevel) {
    let input: Vec<u8> = data.to_vec();
    let back = round_trip(&input, level);
    assert_eq!(input, back);
}

#[test]
fn compress_then_decompress_roundtrip() {
    // Repeat enough to actually exercise chunked reading (5KB+)
    let original_data: Vec<u8> =
        b"Hello Freya! This is a round-trip compression accelerated test.\n".repeat(100);

    let (_, compressed) = run_transform(Direction::Compress, CompressionLevel::Normal, &original_data);
    let compressed = compressed.expect("Compression failed");
    let out_path = String::from("input.txt.zst");
    let finished = terminal_message(original_data.len() as u64, &Ok(compressed.clone()), &None, &out_path);
    assert!(
        matches!(finished, CompressMessage::Finished { .. }),
        "Never received Finished message from compression"
    );

    let (_, decompressed) = run_transform(Direction::Decompress, CompressionLevel::Normal, &compressed);
    let decompressed = decompressed.expect("Decompression failed");
    let out_path = String::from("output.txt");
    let finished = terminal_message(compressed.len() as u64, &Ok(decompressed.clone()), &None, &out_path);
    assert!(
        matches!(finished, CompressMessage::Finished { .. }),
        "Never received Finished message from decompression"
    );

    assert_eq!(original_data, decompressed, "Decompressed data does not match original");
}

#[test]
fn roundtrip_empty() {
    roundtrip_at(&[], CompressionLevel::Normal);
}

#[test]
fn roundtrip_one_byte() {
    roundtrip_at(&[0x42], CompressionLevel::Fast);
}

#[test]
fn roundtrip_just_under_one_chunk() {
    let data: Vec<u8> = (0..65535u32).map(|i| (i % 251) as u8).collect();
    roundtrip_at(&data, CompressionLevel::Normal);
}

#[test]
fn roundtrip_exactly_one_chunk() {
    let data: Vec<u8> = (0..65536u32).map(|i| (i % 251) as u8).collect();
    roundtrip_at(&data, CompressionLevel::Normal);
}

#[test]
fn roundtrip_just_over_one_chunk() {
    let data: Vec<u8> = (0..65537u32).map(|i| (i % 251) as u8).collect();
    roundtrip_at(&data, CompressionLevel::Best);
}

#[test]
fn roundtrip_several_megabytes() {
    let data: Vec<u8> = (0..4_000_000u32).map(|i| (i / 7 % 253) as u8).collect();
    roundtrip_at(&data, CompressionLevel::Fast);
    roundtrip_at(&data, CompressionLevel::Best);
}

#[test]
fn decompress_rejects_garbage() {
    let garbage: Vec<u8> = vec![0x00, 0x01, 0x02, 0x03, 0xff, 0xfe];
    let (_, result) = run_transform(Direction::Decompress, CompressionLevel::Normal, &garbage);
    assert!(result.is_err());
}
