use ftdx_1chm::ftx1::{
    ClarifierOffsetHz, FrequencyHz, MemoryChannel, PmsChannel, PmsLowerUpper,
};

#[test]
fn test_memory_channel_to_chars() {
    // VFO
    assert_eq!(MemoryChannel::VfoMtQmb.to_chars().unwrap(), ['0', '0', '0', '0', '0']);

    // Memory Channel
    assert_eq!(MemoryChannel::Mem(1).to_chars().unwrap(), ['0', '0', '0', '0', '1']);
    assert_eq!(MemoryChannel::Mem(123).to_chars().unwrap(), ['0', '0', '1', '2', '3']);

    // PMS
    let pms_l = PmsChannel { slot: 1, lower_upper: PmsLowerUpper::Lower };
    assert_eq!(MemoryChannel::Pms(pms_l).to_chars().unwrap(), ['P', '-', '0', '1', 'L']);

    let pms_u = PmsChannel { slot: 50, lower_upper: PmsLowerUpper::Upper };
    assert_eq!(MemoryChannel::Pms(pms_u).to_chars().unwrap(), ['P', '-', '5', '0', 'U']);

    // Emergency
    assert_eq!(MemoryChannel::EmergencyChannel.to_chars().unwrap(), ['E', 'M', 'G', 'C', 'H']);
}

#[test]
fn test_frequency_hz_from_u32_valid() {
    assert!(FrequencyHz::try_from_u32(30_000).is_ok());
    assert!(FrequencyHz::try_from_u32(173_999_999).is_ok());
    assert!(FrequencyHz::try_from_u32(400_000_000).is_ok());
    assert!(FrequencyHz::try_from_u32(469_999_999).is_ok());
}

#[test]
fn test_frequency_hz_from_u32_invalid() {
    assert!(FrequencyHz::try_from_u32(29_999).is_err());
    assert!(FrequencyHz::try_from_u32(174_000_000).is_err());
    assert!(FrequencyHz::try_from_u32(399_999_999).is_err());
    assert!(FrequencyHz::try_from_u32(470_000_000).is_err());
}

#[test]
fn test_frequency_hz_from_bytes_valid() {
    assert!(FrequencyHz::try_from_bytes("007000000".as_bytes()).is_ok());
    assert_eq!(
        FrequencyHz::try_from_bytes("007000000".as_bytes()).unwrap().to_u32(),
        7_000_000
    );
}

#[test]
fn test_frequency_hz_from_bytes_invalid() {
    assert!(FrequencyHz::try_from_bytes("00700000".as_bytes()).is_err()); // Invalid length
    assert!(FrequencyHz::try_from_bytes("000000001".as_bytes()).is_err()); // Invalid value
}

#[test]
fn test_frequency_hz_display() {
    let freq = FrequencyHz::try_from_u32(7_123_456).unwrap();
    assert_eq!(freq.to_bytes(), b"007123456".to_vec());
}

#[test]
fn test_frequency_hz_from_string_valid() {
    assert!(FrequencyHz::try_from_string("007000000".to_string()).is_ok());
}

#[test]
fn test_frequency_hz_from_string_invalid() {
    assert!(FrequencyHz::try_from_string("0070000000".to_string()).is_err()); // Invalid length
    assert!(FrequencyHz::try_from_string("invalid".to_string()).is_err()); // Not a number
}

#[test]
fn test_clarifier_offset_hz_from_i16_valid() {
    assert!(ClarifierOffsetHz::try_from_i16(0).is_ok());
    assert!(ClarifierOffsetHz::try_from_i16(9990).is_ok());
    assert!(ClarifierOffsetHz::try_from_i16(-9990).is_ok());
}

#[test]
fn test_clarifier_offset_hz_from_i16_invalid() {
    assert!(ClarifierOffsetHz::try_from_i16(9991).is_err());
    assert!(ClarifierOffsetHz::try_from_i16(-9991).is_err());
}

#[test]
fn test_clarifier_offset_hz_from_bytes_valid() {
    assert!(ClarifierOffsetHz::try_from_bytes("+0000".as_bytes()).is_ok());
    assert_eq!(
        ClarifierOffsetHz::try_from_bytes("+1234".as_bytes()).unwrap().to_i16(),
        1234
    );
    assert_eq!(
        ClarifierOffsetHz::try_from_bytes("-1234".as_bytes()).unwrap().to_i16(),
        -1234
    );
}

#[test]
fn test_clarifier_offset_hz_from_bytes_invalid() {
    assert!(ClarifierOffsetHz::try_from_bytes("+000".as_bytes()).is_err()); // Invalid length
    assert!(ClarifierOffsetHz::try_from_bytes("-99999".as_bytes()).is_err()); // Invalid length
    assert!(ClarifierOffsetHz::try_from_bytes("?1234".as_bytes()).is_err()); // Invalid sign
}

#[test]
fn test_clarifier_offset_hz_display() {
    let offset = ClarifierOffsetHz::try_from_i16(123).unwrap();
    assert_eq!(offset.to_bytes(), b"+0123".to_vec());
    let offset = ClarifierOffsetHz::try_from_i16(-123).unwrap();
    assert_eq!(offset.to_bytes(), b"-0123".to_vec());
    let offset = ClarifierOffsetHz::try_from_i16(0).unwrap();
    assert_eq!(offset.to_bytes(), b"+0000".to_vec());
}
