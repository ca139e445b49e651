use ftdx_1chm::ftdx10::{Band, Mode as Ftdx10Mode};
use ftdx_1chm::ftx1::{
    ClarifierOffsetHz, FrequencyHz, MemoryChannel, Mode, PmsChannel, PmsLowerUpper,
};
use ftdx_1chm::records::{validate_record, RecordError};

fn freq_round_trips(v: u32) {
    let f = FrequencyHz::try_from_u32(v).unwrap();
    let encoded = f.to_bytes();
    assert_eq!(encoded.len(), 9);
    let decoded = FrequencyHz::try_from_bytes(&encoded).unwrap();
    assert_eq!(decoded.to_u32(), v);
}

#[test]
fn frequency_encode_decode_round_trips() {
    freq_round_trips(30_000);
    freq_round_trips(7_123_456);
    freq_round_trips(144_300_000);
    freq_round_trips(173_999_999);
    freq_round_trips(400_000_000);
    freq_round_trips(469_999_999);
}

fn clarifier_round_trips(v: i16) {
    let c = ClarifierOffsetHz::try_from_i16(v).unwrap();
    let encoded = c.to_bytes();
    assert_eq!(encoded.len(), 5);
    let decoded = ClarifierOffsetHz::try_from_bytes(&encoded).unwrap();
    assert_eq!(decoded.to_i16(), v);
}

#[test]
fn clarifier_encode_decode_round_trips() {
    clarifier_round_trips(-9990);
    clarifier_round_trips(-123);
    clarifier_round_trips(0);
    clarifier_round_trips(15);
    clarifier_round_trips(123);
    clarifier_round_trips(9990);
}

fn channel_round_trips(mc: MemoryChannel, text: &[char; 5]) {
    let encoded = mc.to_chars().unwrap();
    assert_eq!(&encoded, text);
    assert_eq!(MemoryChannel::try_from(&encoded).unwrap(), mc);
}

#[test]
fn memory_channel_round_trips_every_variant() {
    channel_round_trips(MemoryChannel::VfoMtQmb, &['0', '0', '0', '0', '0']);
    channel_round_trips(MemoryChannel::Mem(1), &['0', '0', '0', '0', '1']);
    channel_round_trips(MemoryChannel::Mem(123), &['0', '0', '1', '2', '3']);
    channel_round_trips(
        MemoryChannel::Pms(PmsChannel { slot: 1, lower_upper: PmsLowerUpper::Lower }),
        &['P', '-', '0', '1', 'L'],
    );
    channel_round_trips(
        MemoryChannel::Pms(PmsChannel { slot: 50, lower_upper: PmsLowerUpper::Upper }),
        &['P', '-', '5', '0', 'U'],
    );
    channel_round_trips(MemoryChannel::EmergencyChannel, &['E', 'M', 'G', 'C', 'H']);
    channel_round_trips(MemoryChannel::FiveMHzBand(20), &['5', '0', '0', '2', '0']);
}

#[test]
fn memory_channel_decode_narrows_five_mhz_index_to_a_byte() {
    // the 4-digit value after the leading 5 is narrowed to 8 bits
    assert_eq!(
        MemoryChannel::try_from(&['5', '9', '9', '9', '9']).unwrap(),
        MemoryChannel::FiveMHzBand((9999u16 % 256) as u8),
    );
}

#[test]
fn memory_channel_literals_take_precedence() {
    // the all-zeros literal decodes as the VFO/MT/QMB form, never as Mem(0)
    assert_eq!(
        MemoryChannel::try_from(&['0', '0', '0', '0', '0']).unwrap(),
        MemoryChannel::VfoMtQmb,
    );
}

#[test]
fn memory_channel_encode_rejects_wide_slots() {
    // a channel number of five digits no longer starts with 0 and cannot decode back
    assert!(MemoryChannel::try_from(&['1', '0', '0', '0', '0']).is_err());
    // slots beyond two digits have no 5-character form
    assert!(
        MemoryChannel::Pms(PmsChannel { slot: 100, lower_upper: PmsLowerUpper::Lower })
            .to_chars()
            .is_err()
    );
    assert!(MemoryChannel::FiveMHzBand(100).to_chars().is_err());
}

#[test]
fn memory_channel_decode_rejects_other_patterns() {
    assert!(MemoryChannel::try_from(&['0', '0', 'a', '0', '1']).is_err());
    assert!(MemoryChannel::try_from(&['P', '-', '0', '1', 'X']).is_err());
    assert!(MemoryChannel::try_from(&['P', '-', 'a', '1', 'L']).is_err());
    assert!(MemoryChannel::try_from(&['5', '0', '0', 'x', '0']).is_err());
    assert!(MemoryChannel::try_from(&['E', 'M', 'G', 'C', 'X']).is_err());
    assert!(MemoryChannel::try_from(&['Q', '0', '0', '0', '1']).is_err());
}

#[test]
fn mode_code_decode_round_trips() {
    let modes = [
        Mode::Lsb,
        Mode::Usb,
        Mode::CwU,
        Mode::Fm,
        Mode::Am,
        Mode::RttyL,
        Mode::CwL,
        Mode::DataL,
        Mode::RttyU,
        Mode::DataFm,
        Mode::FmN,
        Mode::DataU,
        Mode::AmN,
        Mode::Psk,
        Mode::DataFmN,
    ];
    for m in modes {
        assert_eq!(Mode::try_from(m.code()).unwrap(), m);
    }
    assert!(Mode::try_from('0').is_err());
    assert!(Mode::try_from('G').is_err());
}

#[test]
fn ftdx10_band_and_mode_codes_round_trip() {
    assert_eq!(Band::try_from(Band::Main.code()).unwrap(), Band::Main);
    assert_eq!(Band::try_from(Band::Sub.code()).unwrap(), Band::Sub);
    assert!(Band::try_from('2').is_err());
    assert_eq!(Ftdx10Mode::try_from(Ftdx10Mode::Fm.code()).unwrap(), Ftdx10Mode::Fm);
    assert_eq!(Ftdx10Mode::try_from(Ftdx10Mode::DataFmN.code()).unwrap(), Ftdx10Mode::DataFmN);
}

#[test]
fn validate_record_accepts_a_good_record() {
    assert!(validate_record(&"00001".to_string(), 7_000_000, 0, &"FM".to_string()).is_ok());
    assert!(
        validate_record(&"P-01L".to_string(), 433_000_000, -9990, &"DATA-FM-N".to_string())
            .is_ok()
    );
}

#[test]
fn validate_record_reports_each_fault() {
    let errs =
        validate_record(&"000001".to_string(), 7_000_000, 0, &"FM".to_string()).unwrap_err();
    assert_eq!(errs, vec![RecordError::InvalidChannelLength]);

    let errs = validate_record(&"0a001".to_string(), 7_000_000, 0, &"FM".to_string()).unwrap_err();
    assert_eq!(errs, vec![RecordError::InvalidChannel]);

    let errs = validate_record(&"00001".to_string(), 29_999, 0, &"FM".to_string()).unwrap_err();
    assert_eq!(errs, vec![RecordError::InvalidFrequency]);

    let errs = validate_record(&"00001".to_string(), 7_000_000, 9991, &"FM".to_string())
        .unwrap_err();
    assert_eq!(errs, vec![RecordError::InvalidClarifierOffset]);

    let errs = validate_record(&"00001".to_string(), 7_000_000, 0, &"WFM".to_string())
        .unwrap_err();
    assert_eq!(errs, vec![RecordError::InvalidMode]);

    let errs = validate_record(&"xxxxx".to_string(), 1, 30_000, &"".to_string()).unwrap_err();
    assert_eq!(
        errs,
        vec![
            RecordError::InvalidChannel,
            RecordError::InvalidFrequency,
            RecordError::InvalidClarifierOffset,
            RecordError::InvalidMode,
        ]
    );
}
