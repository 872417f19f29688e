use waterfall::tuning::decode_i16le;
use waterfall::tuning::frequency_registers;
use waterfall::tuning::select_samplerate;

#[test]
fn exact_rates_select_themselves() {
    assert_eq!(select_samplerate(4000000), (4000000, 0x1));
    assert_eq!(select_samplerate(2000000), (2000000, 0x2));
    assert_eq!(select_samplerate(1333333), (1333333, 0x3));
    assert_eq!(select_samplerate(1000000), (1000000, 0x4));
    assert_eq!(select_samplerate(800000), (800000, 0x5));
    assert_eq!(select_samplerate(666666), (666666, 0x6));
    assert_eq!(select_samplerate(500000), (500000, 0x8));
    assert_eq!(select_samplerate(400000), (400000, 0xA));
}

#[test]
fn nearest_rate_wins() {
    assert_eq!(select_samplerate(3500000), (4000000, 0x1));
    assert_eq!(select_samplerate(440000), (400000, 0xA));
    assert_eq!(select_samplerate(0), (400000, 0xA));
    assert_eq!(select_samplerate(u32::MAX), (4000000, 0x1));
}

#[test]
fn rate_ties_take_the_earlier_entry() {
    // 900000 is equally far from 800000 and 1000000; 1000000 comes first.
    assert_eq!(select_samplerate(900000), (1000000, 0x4));
    // 3000000 is equally far from 2000000 and 4000000; 4000000 comes first.
    assert_eq!(select_samplerate(3000000), (4000000, 0x1));
}

#[test]
fn frequency_word_splits_into_three_writes() {
    let writes = frequency_registers(0x1234);
    assert_eq!(writes, vec![(0x34, 0x205), (0x12, 0x206), (0x0, 0x208)]);
}

#[test]
fn zero_frequency_word_writes_zero_bytes() {
    let writes = frequency_registers(0x0000);
    assert_eq!(writes, vec![(0x00, 0x205), (0x00, 0x206), (0x0, 0x208)]);
    let writes = frequency_registers(0xff00);
    assert_eq!(writes, vec![(0x00, 0x205), (0xff, 0x206), (0x0, 0x208)]);
}

#[test]
fn decode_empty_buffer() {
    let samples = decode_i16le(&[]);
    assert!(samples.is_empty());
}

#[test]
fn decode_known_sample_values() {
    let bytes = [0x00, 0x80, 0xff, 0x7f, 0x01, 0x00, 0xff, 0xff, 0x00, 0x00];
    let samples = decode_i16le(&bytes);
    assert_eq!(samples, vec![-32768, 32767, 1, -1, 0]);
}

#[test]
fn decode_matches_le_reassembly() {
    let bytes: Vec<u8> = (0u16..512).flat_map(|w| {
        let v = w.wrapping_mul(513).wrapping_add(7);
        v.to_le_bytes()
    }).collect();
    let samples = decode_i16le(&bytes);
    assert_eq!(samples.len(), 512);
    for (k, sample) in samples.iter().enumerate() {
        let expected = i16::from_le_bytes([bytes[2 * k], bytes[2 * k + 1]]);
        assert_eq!(*sample, expected);
    }
}

#[test]
fn decoded_samples_normalize_inside_unit_range() {
    // The acquisition path divides each decoded sample by 32768.0; every
    // representable sample must land in [-1, 1].
    let bytes = [0x00, 0x80, 0xff, 0x7f, 0x34, 0x12];
    let samples = decode_i16le(&bytes);
    for sample in samples {
        let normalized = sample as f32 / 32768.0;
        assert!((-1.0..=1.0).contains(&normalized));
    }
}
