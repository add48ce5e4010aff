use turn_transfer::payload::{
    deserialize_batch, deserialize_config, serialize_batch, serialize_config, PayloadError,
    SessionConfig,
};

#[test]
fn config_is_two_little_endian_u64() {
    let config = SessionConfig { batch_size: 5, iteration_count: 4 };
    assert_eq!(
        serialize_config(&config),
        Ok(vec![5, 0, 0, 0, 0, 0, 0, 0, 4, 0, 0, 0, 0, 0, 0, 0])
    );
}

#[test]
fn config_with_large_numbers() {
    let config = SessionConfig { batch_size: 0x0102_0304_0506_0708, iteration_count: u64::MAX };
    let bytes = serialize_config(&config).unwrap();
    assert_eq!(
        bytes,
        vec![8, 7, 6, 5, 4, 3, 2, 1, 0xFF, 0xFF, 0xFF, 0xFF, 0xFF, 0xFF, 0xFF, 0xFF]
    );
    assert_eq!(deserialize_config(&bytes), Ok(config));
}

#[test]
fn config_is_read_from_the_first_sixteen_bytes() {
    let bytes: Vec<u8> = vec![5, 0, 0, 0, 0, 0, 0, 0, 4, 0, 0, 0, 0, 0, 0, 0, 0xEE];
    assert_eq!(deserialize_config(&bytes), Ok(SessionConfig { batch_size: 5, iteration_count: 4 }));
}

#[test]
fn short_config_is_refused() {
    assert_eq!(deserialize_config(&[5, 0, 0, 0, 0, 0, 0, 0, 4]), Err(PayloadError::Decode));
    assert_eq!(deserialize_config(&[]), Err(PayloadError::Decode));
}

#[test]
fn batch_is_count_then_numbers() {
    let numbers: Vec<u32> = vec![1, 0x0102_0304, u32::MAX];
    assert_eq!(
        serialize_batch(&numbers),
        Ok(vec![3, 0, 0, 0, 0, 0, 0, 0, 1, 0, 0, 0, 4, 3, 2, 1, 0xFF, 0xFF, 0xFF, 0xFF])
    );
}

#[test]
fn empty_batch_is_a_bare_count() {
    assert_eq!(serialize_batch(&Vec::new()), Ok(vec![0; 8]));
    assert_eq!(deserialize_batch(&[0; 8]), Ok(Vec::new()));
}

#[test]
fn batch_is_read_back() {
    let numbers: Vec<u32> = vec![10, 20, 30, 40, 50];
    let bytes = serialize_batch(&numbers).unwrap();
    assert_eq!(bytes.len(), 8 + 4 * 5);
    assert_eq!(deserialize_batch(&bytes), Ok(numbers));
}

#[test]
fn batch_ignores_what_follows_its_numbers() {
    let bytes: Vec<u8> = vec![1, 0, 0, 0, 0, 0, 0, 0, 9, 0, 0, 0, 0x77, 0x77];
    assert_eq!(deserialize_batch(&bytes), Ok(vec![9]));
}

#[test]
fn batch_shorter_than_its_count_is_refused() {
    let bytes: Vec<u8> = vec![2, 0, 0, 0, 0, 0, 0, 0, 9, 0, 0, 0];
    assert_eq!(deserialize_batch(&bytes), Err(PayloadError::Decode));
    assert_eq!(deserialize_batch(&[1, 2, 3]), Err(PayloadError::Decode));
}

#[test]
fn batch_at_the_limit_has_no_payload() {
    let largest: Vec<u32> = vec![7; 249_997];
    assert_eq!(serialize_batch(&largest).map(|b| b.len()), Ok(999_996));
    let too_many: Vec<u32> = vec![7; 249_998];
    assert_eq!(serialize_batch(&too_many), Err(PayloadError::TooLarge));
}

#[test]
fn every_batch_under_the_limit_is_read_back() {
    for count in [0usize, 1, 2, 5, 1000, 249_997] {
        let numbers: Vec<u32> = (0..count as u32).map(|i| i.wrapping_mul(2_654_435_761)).collect();
        let bytes = serialize_batch(&numbers).unwrap();
        assert_eq!(bytes.len(), 8 + 4 * count);
        assert_eq!(deserialize_batch(&bytes), Ok(numbers));
    }
}

#[test]
fn batch_one_byte_short_is_refused() {
    let numbers: Vec<u32> = vec![1, 2, 3];
    let bytes = serialize_batch(&numbers).unwrap();
    assert_eq!(deserialize_batch(&bytes[..bytes.len() - 1]), Err(PayloadError::Decode));
    assert_eq!(deserialize_batch(&bytes[..8]), Err(PayloadError::Decode));
    assert_eq!(deserialize_batch(&bytes[..7]), Err(PayloadError::Decode));
}

#[test]
fn batch_with_a_count_beyond_any_slice_is_refused() {
    let mut bytes: Vec<u8> = vec![0xFF; 8];
    bytes.extend_from_slice(&[1, 0, 0, 0]);
    assert_eq!(deserialize_batch(&bytes), Err(PayloadError::Decode));
}

#[test]
fn config_of_exactly_sixteen_bytes_is_read() {
    let bytes: Vec<u8> = vec![1, 0, 0, 0, 0, 0, 0, 0, 2, 0, 0, 0, 0, 0, 0, 0];
    assert_eq!(deserialize_config(&bytes), Ok(SessionConfig { batch_size: 1, iteration_count: 2 }));
    assert_eq!(deserialize_config(&bytes[..15]), Err(PayloadError::Decode));
}
