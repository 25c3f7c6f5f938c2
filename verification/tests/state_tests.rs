use counter::Counter;
use counter::CounterError;

fn encoded(flag: u8, count: u64, owner: [u8; 32]) -> Vec<u8> {
    let mut bytes = vec![flag];
    bytes.extend_from_slice(&count.to_le_bytes());
    bytes.extend_from_slice(&owner);
    bytes
}

#[test]
fn round_trip_preserves_every_field() {
    let owner = [7u8; 32];
    let record = Counter {
        is_initialised: true,
        count: 123_456_789,
        owner,
    };
    let mut buffer = vec![0u8; 41];
    record.pack_into_slice(&mut buffer);
    let decoded = Counter::unpack_unchecked(&buffer).unwrap();
    assert_eq!(decoded.is_initialised, record.is_initialised);
    assert_eq!(decoded.count, record.count);
    assert_eq!(decoded.owner, record.owner);
}

#[test]
fn round_trip_uninitialised_record() {
    let record = Counter {
        is_initialised: false,
        count: 0,
        owner: [0u8; 32],
    };
    let mut buffer = vec![9u8; 41];
    record.pack_into_slice(&mut buffer);
    let decoded = Counter::unpack_unchecked(&buffer).unwrap();
    assert_eq!(decoded.is_initialised, false);
    assert_eq!(decoded.count, 0);
    assert_eq!(decoded.owner, [0u8; 32]);
}

#[test]
fn encoding_is_byte_exact() {
    let mut owner = [0u8; 32];
    for (i, byte) in owner.iter_mut().enumerate() {
        *byte = i as u8;
    }
    let record = Counter {
        is_initialised: true,
        count: 0x0102_0304_0506_0708,
        owner,
    };
    let mut buffer = vec![0u8; 41];
    record.pack_into_slice(&mut buffer);
    let mut expected = vec![1u8, 8, 7, 6, 5, 4, 3, 2, 1];
    expected.extend_from_slice(&owner);
    assert_eq!(buffer, expected);
    assert_eq!(buffer.len(), 41);
}

#[test]
fn decode_rejects_bad_flag_byte() {
    let buffer = encoded(2, 5, [1u8; 32]);
    assert_eq!(
        Counter::unpack_unchecked(&buffer),
        Err(CounterError::InvalidAccountData)
    );
    let buffer = encoded(255, 5, [1u8; 32]);
    assert_eq!(
        Counter::unpack_unchecked(&buffer),
        Err(CounterError::InvalidAccountData)
    );
}

#[test]
fn decode_rejects_wrong_length() {
    assert_eq!(
        Counter::unpack_unchecked(&[]),
        Err(CounterError::InvalidAccountData)
    );
    assert_eq!(
        Counter::unpack_unchecked(&[0u8; 40]),
        Err(CounterError::InvalidAccountData)
    );
    assert_eq!(
        Counter::unpack_unchecked(&[0u8; 42]),
        Err(CounterError::InvalidAccountData)
    );
}

#[test]
fn all_zero_buffer_decodes_as_uninitialised() {
    let decoded = Counter::unpack_unchecked(&[0u8; 41]).unwrap();
    assert!(!decoded.is_initialised);
    assert!(!decoded.is_initialized());
    assert_eq!(decoded.count, 0);
    assert_eq!(decoded.owner, [0u8; 32]);
}

#[test]
fn is_initialized_reports_the_flag() {
    let record = Counter {
        is_initialised: true,
        count: 1,
        owner: [3u8; 32],
    };
    assert!(record.is_initialized());
}
