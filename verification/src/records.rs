//! Validation of one memory-channel record as it is kept at rest: the
//! channel text, the frequency, the clarifier offset and the mode name.
//! Reading and writing the records is the surrounding program's business;
//! this module only judges the values.

use vstd::prelude::*;
use vstd::string::StringExecFns;

use crate::ftx1::{channel_from_chars, clarifier_in_range, freq_in_range, ClarifierOffsetHz,
    FrequencyHz, MemoryChannel};

verus! {

/// One way a stored record can be invalid.
#[derive(Debug, Clone, Copy, PartialEq, Eq, Structural)]
pub enum RecordError {
    InvalidChannelLength,
    InvalidChannel,
    InvalidFrequency,
    InvalidClarifierOffset,
    InvalidMode,
}

/// The display names of the fifteen operating modes.
pub open spec fn valid_mode_name(s: Seq<char>) -> bool {
    ||| s == "LSB"@
    ||| s == "USB"@
    ||| s == "CW-U"@
    ||| s == "FM"@
    ||| s == "AM"@
    ||| s == "RTTY-L"@
    ||| s == "CW-L"@
    ||| s == "DATA-L"@
    ||| s == "RTTY-U"@
    ||| s == "DATA-FM"@
    ||| s == "FM-N"@
    ||| s == "DATA-U"@
    ||| s == "AM-N"@
    ||| s == "PSK"@
    ||| s == "DATA-FM-N"@
}

/// The bytes of a channel text, read as characters.
pub open spec fn bytes_as_chars(bs: Seq<u8>) -> Seq<char> {
    bs.map_values(|b: u8| b as char)
}

/// The errors of a record, in the order they are reported: the channel text
/// first (its length, then its shape), then the frequency, the clarifier
/// offset, and the mode name.
pub open spec fn record_errors(
    channel_bytes: Seq<u8>,
    freq: u32,
    clarifier_offset_hz: i16,
    mode: Seq<char>,
) -> Seq<RecordError> {
    (if channel_bytes.len() != 5 {
        seq![RecordError::InvalidChannelLength]
    } else if channel_from_chars(bytes_as_chars(channel_bytes)) is None {
        seq![RecordError::InvalidChannel]
    } else {
        Seq::<RecordError>::empty()
    }) + (if !freq_in_range(freq as int) {
        seq![RecordError::InvalidFrequency]
    } else {
        Seq::<RecordError>::empty()
    }) + (if !clarifier_in_range(clarifier_offset_hz as int) {
        seq![RecordError::InvalidClarifierOffset]
    } else {
        Seq::<RecordError>::empty()
    }) + (if !valid_mode_name(mode) {
        seq![RecordError::InvalidMode]
    } else {
        Seq::<RecordError>::empty()
    })
}

/// Whether the mode text is one of the fifteen display names.
fn mode_name_is_valid(mode: &String) -> (r: bool)
    ensures
        r == valid_mode_name(mode@),
{
    let mut r = *mode == String::from_str("LSB");
    r = r || *mode == String::from_str("USB");
    r = r || *mode == String::from_str("CW-U");
    r = r || *mode == String::from_str("FM");
    r = r || *mode == String::from_str("AM");
    r = r || *mode == String::from_str("RTTY-L");
    r = r || *mode == String::from_str("CW-L");
    r = r || *mode == String::from_str("DATA-L");
    r = r || *mode == String::from_str("RTTY-U");
    r = r || *mode == String::from_str("DATA-FM");
    r = r || *mode == String::from_str("FM-N");
    r = r || *mode == String::from_str("DATA-U");
    r = r || *mode == String::from_str("AM-N");
    r = r || *mode == String::from_str("PSK");
    r = r || *mode == String::from_str("DATA-FM-N");
    r
}

/// Validate one stored record. The channel text is judged by its bytes: it
/// must be 5 bytes long and, read as characters, must name one of the five
/// addressing schemes. An empty error list is reported as success.
pub fn validate_record(
    channel: &String,
    freq: u32,
    clarifier_offset_hz: i16,
    mode: &String,
) -> (r: Result<(), Vec<RecordError>>)
    ensures
        ({
            let errs = record_errors(
                vstd::utf8::encode_utf8(channel@),
                freq,
                clarifier_offset_hz,
                mode@,
            );
            &&& r is Ok <==> errs.len() == 0
            &&& r is Err ==> r->Err_0@ == errs
        }),
{
    let mut errors = Vec::<RecordError>::new();
    let channel_bytes = channel.as_str().as_bytes();
    if channel_bytes.len() != 5 {
        errors.push(RecordError::InvalidChannelLength);
    } else {
        let ch_array: [char; 5] = [
            channel_bytes[0] as char,
            channel_bytes[1] as char,
            channel_bytes[2] as char,
            channel_bytes[3] as char,
            channel_bytes[4] as char,
        ];
        proof {
            assert(ch_array@ =~= bytes_as_chars(channel_bytes@));
        }
        if MemoryChannel::try_from(&ch_array).is_err() {
            errors.push(RecordError::InvalidChannel);
        }
    }
    if FrequencyHz::try_from_u32(freq).is_err() {
        errors.push(RecordError::InvalidFrequency);
    }
    if ClarifierOffsetHz::try_from_i16(clarifier_offset_hz).is_err() {
        errors.push(RecordError::InvalidClarifierOffset);
    }
    if !mode_name_is_valid(mode) {
        errors.push(RecordError::InvalidMode);
    }
    proof {
        assert(errors@ =~= record_errors(
            vstd::utf8::encode_utf8(channel@),
            freq,
            clarifier_offset_hz,
            mode@,
        ));
    }
    if errors.is_empty() {
        Ok(())
    } else {
        Err(errors)
    }
}

} // verus!
