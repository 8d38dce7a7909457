use std::io::Read;

use bzip2::read::BzEncoder;
use bzip2::Compression;

use fastdl_mirror::decode::{
    after_write, is_sidecar_name, plan_decode, sidecar_output_path, BZ2File, CorruptFiles,
};
use fastdl_mirror::MirrorError;

fn compress(plain: &[u8]) -> Vec<u8> {
    let mut enc = BzEncoder::new(plain, Compression::new(6));
    let mut out = Vec::new();
    enc.read_to_end(&mut out).unwrap();
    out
}

#[test]
fn well_formed_fixture_decodes_byte_for_byte() {
    let plain = b"a known plaintext, long enough to be worth compressing \
                  and compared byte-for-byte after the round trip"
        .to_vec();
    let compressed = compress(&plain);
    let mut f = BZ2File::new(compressed);
    f.decode_block().unwrap();
    assert_eq!(f.decoded_block, plain);
}

#[test]
fn concatenated_blocks_decode_as_one_stream() {
    let first = b"first logical block".to_vec();
    let second = b" and the second one".to_vec();
    let mut compressed = compress(&first);
    compressed.extend_from_slice(&compress(&second));
    let mut f = BZ2File::new(compressed);
    f.decode_block().unwrap();
    let mut joined = first.clone();
    joined.extend_from_slice(&second);
    assert_eq!(f.decoded_block, joined);
}

#[test]
fn truncated_fixture_fails_and_leaves_block_empty() {
    let compressed = compress(b"some content that will be cut short");
    let truncated = compressed[..compressed.len() / 2].to_vec();
    let mut f = BZ2File::new(truncated);
    assert_eq!(f.decode_block(), Err(MirrorError::Decode));
    assert!(f.decoded_block.is_empty());
}

#[test]
fn sidecar_names_and_output_paths() {
    assert!(is_sidecar_name("tune.wav.bz2", ".bz2"));
    assert!(!is_sidecar_name("tune.wav", ".bz2"));
    assert_eq!(
        sidecar_output_path("./s/tune.wav.bz2", ".bz2").unwrap().as_str(),
        "./s/tune.wav"
    );
    // only the trailing suffix is removed, not an inner occurrence
    assert_eq!(
        sidecar_output_path("./s/x.bz2.y.bz2", ".bz2").unwrap().as_str(),
        "./s/x.bz2.y"
    );
    assert!(sidecar_output_path("./s/tune.wav", ".bz2").is_none());
}

#[test]
fn good_sidecar_plans_write_and_records_nothing() {
    let plain = b"decoded sidecar content".to_vec();
    let compressed = compress(&plain);
    let mut corrupt = CorruptFiles::new();
    let planned = plan_decode("./s/tune.wav.bz2", ".bz2", compressed, &mut corrupt);
    let (out_path, out_bytes) = planned.unwrap();
    assert_eq!(out_path.as_str(), "./s/tune.wav");
    assert_eq!(out_bytes, plain);
    assert_eq!(corrupt.count(), 0);
}

#[test]
fn corrupt_sidecar_is_recorded_and_plans_nothing() {
    let compressed = compress(b"will be corrupted");
    let corrupted = compressed[..compressed.len() - 4].to_vec();
    let mut corrupt = CorruptFiles::new();
    let planned = plan_decode("./s/tune.wav.bz2", ".bz2", corrupted, &mut corrupt);
    // nothing to write and nothing to delete: the source file stays
    assert!(planned.is_none());
    assert_eq!(corrupt.count(), 1);
    assert!(corrupt.contains("tune.wav.bz2"));
    assert!(!corrupt.contains("./s/tune.wav.bz2"));
}

#[test]
fn failed_write_is_recorded_and_source_is_kept() {
    let mut corrupt = CorruptFiles::new();
    assert!(after_write(&mut corrupt, "./s/tune.wav.bz2", true));
    assert_eq!(corrupt.count(), 0);
    assert!(!after_write(&mut corrupt, "./s/tune.wav.bz2", false));
    assert_eq!(corrupt.count(), 1);
    assert!(corrupt.contains("./s/tune.wav.bz2"));
}

#[test]
fn corrupt_set_is_write_once_and_accumulates() {
    let mut corrupt = CorruptFiles::new();
    corrupt.record("a.bz2");
    corrupt.record("a.bz2");
    corrupt.record("b.bz2");
    assert_eq!(corrupt.count(), 2);
    let items = corrupt.items();
    assert!(items.contains(&"a.bz2".to_string()));
    assert!(items.contains(&"b.bz2".to_string()));
}
