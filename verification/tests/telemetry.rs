use esp_layground::error::Error;
use esp_layground::telemetry::{decode, encode, fold_speed, is_ordered, INFINITY_BITS};

#[test]
fn five_metres_a_second_encodes_to_its_little_endian_bytes() {
    assert_eq!(encode(5.0f32.to_bits()), Some(vec![0, 0, 160, 64]));
    assert_eq!(encode(5.0f32.to_bits()), Some(5.0f32.to_le_bytes().to_vec()));
}

#[test]
fn zero_has_no_payload() {
    assert_eq!(encode(0), None);
    assert_eq!(encode(0.0f32.to_bits()), None);
}

#[test]
fn server_payload_decodes_to_eighteen_kilometres_an_hour() {
    let bits = decode(&[0, 0, 160, 64]).unwrap();
    assert_eq!(bits, 0x40A0_0000);
    let kmh = f32::from_bits(bits) * 3.6;
    assert_eq!(format!("{:.2}", kmh), "18.00");
}

#[test]
fn encode_then_decode_gives_the_speed_back() {
    for v in [0.25f32, 1.0, 5.0, 12.5, 33.333, 340.29, 1.0e30, f32::MIN_POSITIVE] {
        let payload = encode(v.to_bits()).unwrap();
        assert_eq!(payload.len(), 4);
        assert_eq!(payload, v.to_le_bytes().to_vec());
        let back = f32::from_bits(decode(&payload).unwrap());
        assert_eq!(back, v);
        let kmh = back * 3.6;
        assert!((kmh - v * 3.6).abs() <= f32::EPSILON * kmh.abs());
    }
}

#[test]
fn payloads_of_other_lengths_are_refused() {
    assert_eq!(decode(&[]), Err(Error::MalformedPayload(0)));
    assert_eq!(decode(&[1]), Err(Error::MalformedPayload(1)));
    assert_eq!(decode(&[0, 0, 160]), Err(Error::MalformedPayload(3)));
    assert_eq!(decode(&[0, 0, 160, 64, 0]), Err(Error::MalformedPayload(5)));
    assert_eq!(decode(&[0; 8]), Err(Error::MalformedPayload(8)));
}

#[test]
fn decode_reads_least_significant_byte_first() {
    assert_eq!(decode(&[0x78, 0x56, 0x34, 0x12]), Ok(0x1234_5678));
    assert_eq!(decode(&[0xff, 0, 0, 0]), Ok(0xff));
    assert_eq!(decode(&[0, 0, 0, 0x80]), Ok(0x8000_0000));
}

#[test]
fn fold_speed_is_the_maximum_of_numbers() {
    let samples = [0.0f32, 0.5, 1.0, 4.99, 5.0, 5.01, 120.0, f32::INFINITY, f32::MIN_POSITIVE];
    for a in samples {
        for b in samples {
            let folded = fold_speed(a.to_bits(), b.to_bits());
            assert_eq!(f32::from_bits(folded), a.max(b));
        }
    }
}

#[test]
fn fold_speed_ignores_negative_speeds_and_not_a_number() {
    let max = 5.0f32.to_bits();
    assert_eq!(fold_speed(max, (-7.0f32).to_bits()), max);
    assert_eq!(fold_speed(max, f32::NAN.to_bits()), max);
    assert_eq!(fold_speed(max, f32::NEG_INFINITY.to_bits()), max);
    assert_eq!(fold_speed(0, (-0.0f32).to_bits()), 0);
    assert_eq!(fold_speed(max, 0x7FC0_0001), max);
}

#[test]
fn ordered_patterns_end_at_infinity() {
    assert!(is_ordered(0));
    assert!(is_ordered(5.0f32.to_bits()));
    assert!(is_ordered(INFINITY_BITS));
    assert_eq!(INFINITY_BITS, f32::INFINITY.to_bits());
    assert!(!is_ordered(INFINITY_BITS + 1));
    assert!(!is_ordered((-1.0f32).to_bits()));
}
