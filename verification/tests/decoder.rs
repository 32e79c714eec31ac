//! The streaming sample decoder: chunk boundaries must not matter.
use ellington::input::decoder::SampleDecoder;

fn decode_in_chunks(bytes: &[u8], chunk: usize) -> Vec<u32> {
    let mut d = SampleDecoder::new();
    let mut out: Vec<u32> = Vec::new();
    let mut i = 0;
    while i < bytes.len() {
        let hi = (i + chunk).min(bytes.len());
        out.extend(d.push(&bytes[i..hi]));
        i = hi;
    }
    out
}

#[test]
fn chunk_boundaries_do_not_matter() {
    let bytes: Vec<u8> = (0u8..=41).collect();
    let whole = decode_in_chunks(&bytes, bytes.len());
    for chunk in 1..=9 {
        assert_eq!(decode_in_chunks(&bytes, chunk), whole);
    }
    // 42 bytes make ten samples; the trailing two bytes are held back
    assert_eq!(whole.len(), 10);
}

#[test]
fn words_are_little_endian() {
    let mut d = SampleDecoder::new();
    let out = d.push(&[0x78, 0x56, 0x34, 0x12]);
    assert_eq!(out, vec![0x12345678]);
}

#[test]
fn words_carry_float_bits() {
    let mut d = SampleDecoder::new();
    let out = d.push(&1.0f32.to_le_bytes());
    assert_eq!(f32::from_bits(out[0]), 1.0f32);
    let out = d.push(&(-0.5f32).to_le_bytes());
    assert_eq!(f32::from_bits(out[0]), -0.5f32);
}

#[test]
fn empty_stream_yields_no_samples() {
    let mut d = SampleDecoder::new();
    let out = d.push(&[]);
    assert!(out.is_empty());
}

#[test]
fn split_mid_sample_keeps_bytes() {
    let mut d = SampleDecoder::new();
    assert!(d.push(&[1, 2, 3]).is_empty());
    assert_eq!(d.push(&[4, 5]), vec![u32::from_le_bytes([1, 2, 3, 4])]);
    assert_eq!(d.push(&[6, 7, 8, 9]), vec![u32::from_le_bytes([5, 6, 7, 8])]);
}
