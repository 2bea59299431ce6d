use state_overlay::compression::compress;
use state_overlay::compression::decompress;
use state_overlay::error::CodecError;

#[test]
fn compression_round_trips() {
    let samples: Vec<Vec<u8>> = vec![
        vec![],
        vec![0],
        b"hello world".to_vec(),
        vec![7u8; 10_000],
        (0..=255u8).collect(),
    ];
    for sample in samples {
        let compressed = compress(&sample).unwrap();
        assert_eq!(decompress(&compressed).unwrap(), sample);
    }
}

#[test]
fn the_empty_sequence_round_trips() {
    let compressed = compress(&[]).unwrap();
    assert!(!compressed.is_empty());
    assert_eq!(decompress(&compressed).unwrap(), Vec::<u8>::new());
}

#[test]
fn compressed_bytes_are_a_gzip_stream() {
    let data = b"some bytes that are certainly not a gzip stream".to_vec();
    let compressed = compress(&data).unwrap();
    assert_ne!(compressed, data);
    assert_eq!(&compressed[0..2], &[0x1f, 0x8b]);
}

#[test]
fn long_runs_shrink() {
    let data = vec![42u8; 100_000];
    let compressed = compress(&data).unwrap();
    assert!(compressed.len() < data.len());
}

#[test]
fn compression_is_repeatable() {
    let data = b"the same input".to_vec();
    assert_eq!(compress(&data).unwrap(), compress(&data).unwrap());
}

#[test]
fn decompress_refuses_what_is_no_stream() {
    assert_eq!(decompress(b"hello world"), Err(CodecError::Decompression));
    assert_eq!(decompress(&[]), Err(CodecError::Decompression));
}

#[test]
fn decompress_refuses_a_damaged_stream() {
    let mut compressed = compress(b"hello world, hello world, hello world").unwrap();
    let last = compressed.len() - 1;
    compressed[last] ^= 0xff;
    assert_eq!(decompress(&compressed), Err(CodecError::Decompression));
}

#[test]
fn decompress_does_not_hand_its_input_back() {
    let compressed = compress(b"abc").unwrap();
    let restored = decompress(&compressed).unwrap();
    assert_ne!(restored, compressed);
    assert_eq!(restored, b"abc".to_vec());
}
