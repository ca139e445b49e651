//! Domain value types, memory-channel addressing and the concrete commands of
//! the transceiver's command set.

use vstd::prelude::*;

use crate::TERMINATOR;
use crate::parsers::{
    ASCII_MINUS, ASCII_PLUS, all_digit_chars, all_digits, buf3_to_u8, buf4_to_i16, buf4_to_u16,
    buf9_to_u32, byte_digits_vec, char_digits_of, char_digits_vec, char_val, chars_val, digit_char,
    digits_of, digits_val, is_digit_char, lemma_char_digits_byte_digits,
    lemma_char_digits_of_leading_zero, lemma_char_digits_of_val, lemma_char_digits_of_wf,
    lemma_digits_of_val, lemma_digits_of_wf, lemma_pow10_vals, parse_digit_char, signed_val,
};

verus! {

//------------------------------------
// Frequency
//------------------------------------
/// A tuned value in hertz lies in one of the two legal sub-bands:
/// 30 kHz up to (excluding) 174 MHz, or 400 MHz up to (excluding) 470 MHz.
pub open spec fn freq_in_range(v: int) -> bool {
    (30_000 <= v && v < 174_000_000) || (400_000_000 <= v && v < 470_000_000)
}

/// A frequency in hertz, range-checked at construction. On the wire it is
/// exactly 9 ASCII digits, zero padded, no sign.
#[derive(Debug, Clone, Copy, PartialEq, Eq, Structural)]
pub struct FrequencyHz {
    value: u32,
}

impl FrequencyHz {
    /// The held hertz value.
    pub closed spec fn spec_value(self) -> u32 {
        self.value
    }

    /// The value lies in one of the two legal sub-bands.
    pub open spec fn wf(self) -> bool {
        freq_in_range(self.spec_value() as int)
    }

    pub fn to_u32(&self) -> (v: u32)
        ensures
            v == self.spec_value(),
    {
        self.value
    }

    /// Range-checked constructor from a hertz value.
    pub fn try_from_u32(item: u32) -> (r: Result<Self, ()>)
        ensures
            r is Ok <==> freq_in_range(item as int),
            r is Ok ==> r->Ok_0.spec_value() == item && r->Ok_0.wf(),
    {
        if item >= 30_000 && item < 174_000_000 || item >= 400_000_000 && item < 470_000_000 {
            Ok(FrequencyHz { value: item })
        } else {
            Err(())
        }
    }

    /// Constructor from the 9-digit wire field.
    pub fn try_from_bytes(item: &[u8]) -> (r: Result<Self, ()>)
        ensures
            r is Ok <==> item@.len() == 9 && all_digits(item@) && freq_in_range(
                digits_val(item@),
            ),
            r is Ok ==> r->Ok_0.spec_value() as int == digits_val(item@) && r->Ok_0.wf(),
    {
        if item.len() != 9 {
            return Err(());
        }
        let value = match buf9_to_u32(item) {
            Ok(v) => v,
            Err(_) => {
                return Err(());
            },
        };
        FrequencyHz::try_from_u32(value)
    }

    /// Constructor from a textual field of at most 9 characters; the text
    /// must be the full 9-digit, in-range form to be accepted.
    pub fn try_from_string(item: String) -> (r: Result<Self, ()>)
        ensures
            ({
                let bs = vstd::utf8::encode_utf8(item@);
                &&& r is Ok <==> bs.len() == 9 && all_digits(bs) && freq_in_range(digits_val(bs))
                &&& r is Ok ==> r->Ok_0.spec_value() as int == digits_val(bs) && r->Ok_0.wf()
            }),
    {
        if item.as_str().len() > 9 {
            return Err(());
        }
        FrequencyHz::try_from_bytes(item.as_str().as_bytes())
    }

    /// The canonical 9-digit wire form of the value.
    pub fn to_bytes(&self) -> (r: Vec<u8>)
        ensures
            r@ == digits_of(self.spec_value() as int, 9),
    {
        byte_digits_vec(self.value, 9)
    }
}

/// Law: decoding the 9-digit encoding of a legal frequency yields exactly the
/// same value, so `try_from_bytes` applied to `to_bytes` returns it unchanged.
pub proof fn lemma_frequency_round_trip(f: FrequencyHz)
    requires
        f.wf(),
    ensures
        ({
            let s = digits_of(f.spec_value() as int, 9);
            &&& s.len() == 9
            &&& all_digits(s)
            &&& freq_in_range(digits_val(s))
            &&& digits_val(s) == f.spec_value() as int
        }),
{
    lemma_pow10_vals();
    lemma_digits_of_wf(f.spec_value() as int, 9);
    lemma_digits_of_val(f.spec_value() as int, 9);
}

//------------------------------------
// Clarifier offset
//------------------------------------
/// A clarifier offset in hertz is at most 9990 away from zero.
pub open spec fn clarifier_in_range(v: int) -> bool {
    -9990 <= v && v <= 9990
}

/// The 5-byte wire form of a clarifier offset: one sign byte (zero is
/// written with `+`), then the 4-digit zero-padded magnitude.
pub open spec fn clarifier_bytes(v: int) -> Seq<u8> {
    if v < 0 {
        seq![ASCII_MINUS] + digits_of(-v, 4)
    } else {
        seq![ASCII_PLUS] + digits_of(v, 4)
    }
}

/// A receive/transmit clarifier offset in hertz, range-checked at
/// construction.
#[derive(Debug, Clone, Copy, PartialEq, Eq, Structural)]
pub struct ClarifierOffsetHz {
    value: i16,
}

impl ClarifierOffsetHz {
    /// The held offset in hertz.
    pub closed spec fn spec_value(self) -> i16 {
        self.value
    }

    /// The offset is at most 9990 hertz away from zero.
    pub open spec fn wf(self) -> bool {
        clarifier_in_range(self.spec_value() as int)
    }

    pub fn to_i16(&self) -> (v: i16)
        ensures
            v == self.spec_value(),
    {
        self.value
    }

    /// Range-checked constructor from a hertz offset.
    pub fn try_from_i16(item: i16) -> (r: Result<Self, ()>)
        ensures
            r is Ok <==> clarifier_in_range(item as int),
            r is Ok ==> r->Ok_0.spec_value() == item && r->Ok_0.wf(),
    {
        if item > 9_990 || item < -9_990 {
            Err(())
        } else {
            Ok(ClarifierOffsetHz { value: item })
        }
    }

    /// Constructor from the 5-byte signed wire field. The sign byte must be
    /// `+` or `-` here, although the underlying field parser reads any
    /// non-`-` sign byte as positive.
    pub fn try_from_bytes(item: &[u8]) -> (r: Result<Self, ()>)
        ensures
            r is Ok <==> item@.len() == 5 && (item@[0] == ASCII_PLUS || item@[0] == ASCII_MINUS)
                && all_digits(item@.skip(1)) && clarifier_in_range(signed_val(item@)),
            r is Ok ==> r->Ok_0.spec_value() as int == signed_val(item@) && r->Ok_0.wf(),
    {
        if item.len() != 5 {
            return Err(());
        }
        if item[0] != ASCII_PLUS && item[0] != ASCII_MINUS {
            return Err(());
        }
        let value = match buf4_to_i16(item) {
            Ok(v) => v,
            Err(_) => {
                return Err(());
            },
        };
        ClarifierOffsetHz::try_from_i16(value)
    }

    /// The canonical 5-byte wire form: sign, then 4 zero-padded digits.
    pub fn to_bytes(&self) -> (r: Vec<u8>)
        ensures
            r@ == clarifier_bytes(self.spec_value() as int),
    {
        let mut r: Vec<u8> = Vec::new();
        let mag: u32 = if self.value < 0 {
            r.push(ASCII_MINUS);
            (-(self.value as i32)) as u32
        } else {
            r.push(ASCII_PLUS);
            self.value as u32
        };
        let mut digits = byte_digits_vec(mag, 4);
        r.append(&mut digits);
        proof {
            assert(r@ =~= clarifier_bytes(self.spec_value() as int));
        }
        r
    }
}

/// Law: decoding the 5-byte encoding of a legal clarifier offset yields
/// exactly the same value, so `try_from_bytes` applied to `to_bytes` returns
/// it unchanged.
pub proof fn lemma_clarifier_round_trip(c: ClarifierOffsetHz)
    requires
        c.wf(),
    ensures
        ({
            let s = clarifier_bytes(c.spec_value() as int);
            &&& s.len() == 5
            &&& (s[0] == ASCII_PLUS || s[0] == ASCII_MINUS)
            &&& all_digits(s.skip(1))
            &&& clarifier_in_range(signed_val(s))
            &&& signed_val(s) == c.spec_value() as int
        }),
{
    let v = c.spec_value() as int;
    let mag = if v < 0 {
        -v
    } else {
        v
    };
    let s = clarifier_bytes(v);
    lemma_pow10_vals();
    lemma_digits_of_wf(mag, 4);
    lemma_digits_of_val(mag, 4);
    assert(s.skip(1) =~= digits_of(mag, 4));
    assert(forall|i: int| 0 <= i < s.skip(1).len() ==> s.skip(1)[i] == #[trigger] s[i + 1]);
}

//------------------------------------
// RX Clarifier
//------------------------------------
/// Whether the receive clarifier is engaged; `0` off, `1` on.
#[derive(Debug, Clone, Copy, PartialEq, Eq, Structural)]
pub enum RxClarifierOnOff {
    RxClarifierOff,
    RxClarifierOn,
}

/// Wire decoding of the receive-clarifier flag character.
pub open spec fn rx_clarifier_from_char(c: char) -> Option<RxClarifierOnOff> {
    if c == '0' {
        Some(RxClarifierOnOff::RxClarifierOff)
    } else if c == '1' {
        Some(RxClarifierOnOff::RxClarifierOn)
    } else {
        None
    }
}

impl RxClarifierOnOff {
    pub fn try_from(item: char) -> (r: Result<Self, ()>)
        ensures
            r is Ok <==> rx_clarifier_from_char(item) is Some,
            r is Ok ==> Some(r->Ok_0) == rx_clarifier_from_char(item),
    {
        match item {
            '0' => Ok(RxClarifierOnOff::RxClarifierOff),
            '1' => Ok(RxClarifierOnOff::RxClarifierOn),
            _ => Err(()),
        }
    }
}

//------------------------------------
// TX Clarifier
//------------------------------------
/// Whether the transmit clarifier is engaged; `0` off, `1` on.
#[derive(Debug, Clone, Copy, PartialEq, Eq, Structural)]
pub enum TxClarifierOnOff {
    TxClarifierOff,
    TxClarifierOn,
}

/// Wire decoding of the transmit-clarifier flag character.
pub open spec fn tx_clarifier_from_char(c: char) -> Option<TxClarifierOnOff> {
    if c == '0' {
        Some(TxClarifierOnOff::TxClarifierOff)
    } else if c == '1' {
        Some(TxClarifierOnOff::TxClarifierOn)
    } else {
        None
    }
}

impl TxClarifierOnOff {
    pub fn try_from(item: char) -> (r: Result<Self, ()>)
        ensures
            r is Ok <==> tx_clarifier_from_char(item) is Some,
            r is Ok ==> Some(r->Ok_0) == tx_clarifier_from_char(item),
    {
        match item {
            '0' => Ok(TxClarifierOnOff::TxClarifierOff),
            '1' => Ok(TxClarifierOnOff::TxClarifierOn),
            _ => Err(()),
        }
    }
}

//------------------------------------
// Memory Channel
//------------------------------------
// 00000: VFO or MT or QMB (5 bytes)
// 00001 - 00999: memory channel
// P-01L - P-50U: PMS slot, lower/upper edge
// 50001 - 50020: 5 MHz band slot
// EMGCH: emergency channel
/// Which band edge a Program Memory Scan slot addresses.
#[derive(Debug, Clone, Copy, PartialEq, Eq, Structural)]
pub enum PmsLowerUpper {
    Lower,
    Upper,
}

/// A Program Memory Scan slot: a slot number and the lower/upper edge.
#[derive(Debug, Clone, Copy, PartialEq, Eq, Structural)]
pub struct PmsChannel {
    pub slot: u8,  // 01-50
    pub lower_upper: PmsLowerUpper,
}

/// The five mutually exclusive addressing schemes that share the 5-character
/// channel field.
#[derive(Debug, Clone, Copy, PartialEq, Eq, Structural)]
pub enum MemoryChannel {
    VfoMtQmb,
    Mem(u16),
    Pms(PmsChannel),
    FiveMHzBand(u8),
    EmergencyChannel,
}

/// How the channel field of a memory-read reply classifies the channel.
#[derive(Debug, Clone, Copy, PartialEq, Eq, Structural)]
pub enum ChType {
    Vfo,
    MemoryChannel,
    MemoryTune,
    Qmb,
    Reserved4,
    Pms,
}

/// Wire decoding of the channel-type character.
pub open spec fn chtype_from_char(c: char) -> Option<ChType> {
    if c == '0' {
        Some(ChType::Vfo)
    } else if c == '1' {
        Some(ChType::MemoryChannel)
    } else if c == '2' {
        Some(ChType::MemoryTune)
    } else if c == '3' {
        Some(ChType::Qmb)
    } else if c == '4' {
        Some(ChType::Reserved4)
    } else if c == '5' {
        Some(ChType::Pms)
    } else {
        None
    }
}

impl ChType {
    pub fn try_from(item: char) -> (r: Result<Self, ()>)
        ensures
            r is Ok <==> chtype_from_char(item) is Some,
            r is Ok ==> Some(r->Ok_0) == chtype_from_char(item),
    {
        match item {
            '0' => Ok(ChType::Vfo),
            '1' => Ok(ChType::MemoryChannel),
            '2' => Ok(ChType::MemoryTune),
            '3' => Ok(ChType::Qmb),
            '4' => Ok(ChType::Reserved4),
            '5' => Ok(ChType::Pms),
            _ => Err(()),
        }
    }
}

/// Decoding of the 5-character channel field. The two full-literal forms are
/// matched before the generic first-character dispatch, so exactly one scheme
/// matches any valid input.
pub open spec fn channel_from_chars(s: Seq<char>) -> Option<MemoryChannel>
    recommends
        s.len() == 5,
{
    if s == seq!['0', '0', '0', '0', '0'] {
        Some(MemoryChannel::VfoMtQmb)
    } else if s[0] == '0' {
        if all_digit_chars(s.skip(1)) {
            Some(MemoryChannel::Mem(chars_val(s.skip(1)) as u16))
        } else {
            None
        }
    } else if s[0] == 'P' {
        if is_digit_char(s[2]) && is_digit_char(s[3]) && (s[4] == 'L' || s[4] == 'U') {
            Some(
                MemoryChannel::Pms(
                    PmsChannel {
                        slot: (10 * char_val(s[2]) + char_val(s[3])) as u8,
                        lower_upper: if s[4] == 'L' {
                            PmsLowerUpper::Lower
                        } else {
                            PmsLowerUpper::Upper
                        },
                    },
                ),
            )
        } else {
            None
        }
    } else if s[0] == '5' {
        if all_digit_chars(s.skip(1)) {
            Some(MemoryChannel::FiveMHzBand((chars_val(s.skip(1)) % 256) as u8))
        } else {
            None
        }
    } else if s == seq!['E', 'M', 'G', 'C', 'H'] {
        Some(MemoryChannel::EmergencyChannel)
    } else {
        None
    }
}

/// Encoding of a channel into its canonical 5-character field. A PMS slot or
/// a 5 MHz band slot above two digits has no 5-character form.
pub open spec fn channel_to_chars(mc: MemoryChannel) -> Option<Seq<char>> {
    match mc {
        MemoryChannel::VfoMtQmb => Some(seq!['0', '0', '0', '0', '0']),
        MemoryChannel::Mem(n) => Some(char_digits_of(n as int, 5)),
        MemoryChannel::Pms(p) => if p.slot <= 99 {
            Some(
                seq!['P', '-'] + char_digits_of(p.slot as int, 2) + seq![
                    if p.lower_upper is Lower {
                        'L'
                    } else {
                        'U'
                    },
                ],
            )
        } else {
            None
        },
        MemoryChannel::FiveMHzBand(b) => if b <= 99 {
            Some(seq!['5', '0', '0'] + char_digits_of(b as int, 2))
        } else {
            None
        },
        MemoryChannel::EmergencyChannel => Some(seq!['E', 'M', 'G', 'C', 'H']),
    }
}

/// Parse four digit characters into their 4-digit decimal value.
fn chars4_val(c1: char, c2: char, c3: char, c4: char) -> (r: Option<u16>)
    ensures
        r is Some <==> all_digit_chars(seq![c1, c2, c3, c4]),
        r is Some ==> r->0 as int == chars_val(seq![c1, c2, c3, c4]),
{
    let ghost s: Seq<char> = seq![c1, c2, c3, c4];
    match (parse_digit_char(c1), parse_digit_char(c2), parse_digit_char(c3), parse_digit_char(
        c4,
    )) {
        (Some(d1), Some(d2), Some(d3), Some(d4)) => {
            proof {
                assert(seq![c1].drop_last() =~= Seq::<char>::empty());
                assert(chars_val(Seq::<char>::empty()) == 0);
                assert(chars_val(seq![c1]) == char_val(c1));
                assert(seq![c1, c2].drop_last() =~= seq![c1]);
                assert(chars_val(seq![c1, c2]) == 10 * char_val(c1) + char_val(c2));
                assert(seq![c1, c2, c3].drop_last() =~= seq![c1, c2]);
                assert(chars_val(seq![c1, c2, c3]) == 10 * chars_val(seq![c1, c2]) + char_val(c3));
                assert(s.drop_last() =~= seq![c1, c2, c3]);
                assert(chars_val(s) == 10 * chars_val(seq![c1, c2, c3]) + char_val(c4));
            }
            Some(((d1 as u16 * 10 + d2 as u16) * 10 + d3 as u16) * 10 + d4 as u16)
        },
        _ => {
            proof {
                if all_digit_chars(s) {
                    assert(is_digit_char(s[0]));
                    assert(is_digit_char(s[1]));
                    assert(is_digit_char(s[2]));
                    assert(is_digit_char(s[3]));
                }
            }
            None
        },
    }
}

impl MemoryChannel {
    /// Decode the 5-character channel field into the matching scheme.
    pub fn try_from(item: &[char; 5]) -> (r: Result<Self, ()>)
        ensures
            r is Ok <==> channel_from_chars(item@) is Some,
            r is Ok ==> Some(r->Ok_0) == channel_from_chars(item@),
    {
        let c0 = item[0];
        let c1 = item[1];
        let c2 = item[2];
        let c3 = item[3];
        let c4 = item[4];
        proof {
            assert(item@ =~= seq![c0, c1, c2, c3, c4]);
        }
        if c0 == '0' && c1 == '0' && c2 == '0' && c3 == '0' && c4 == '0' {
            proof {
                assert(item@ =~= seq!['0', '0', '0', '0', '0']);
            }
            Ok(MemoryChannel::VfoMtQmb)
        } else if c0 == '0' {
            proof {
                assert(item@ != seq!['0', '0', '0', '0', '0']) by {
                    if item@ == seq!['0', '0', '0', '0', '0'] {
                        assert(item@[1] == '0' && item@[2] == '0' && item@[3] == '0' && item@[4]
                            == '0');
                    }
                }
                assert(item@.skip(1) =~= seq![c1, c2, c3, c4]);
            }
            match chars4_val(c1, c2, c3, c4) {
                Some(ch) => Ok(MemoryChannel::Mem(ch)),
                None => Err(()),
            }
        } else if c0 == 'P' {
            let lower_upper = if c4 == 'L' {
                PmsLowerUpper::Lower
            } else if c4 == 'U' {
                PmsLowerUpper::Upper
            } else {
                return Err(());
            };
            match (parse_digit_char(c2), parse_digit_char(c3)) {
                (Some(hi), Some(lo)) => Ok(
                    MemoryChannel::Pms(PmsChannel { slot: hi * 10 + lo, lower_upper }),
                ),
                _ => Err(()),
            }
        } else if c0 == '5' {
            proof {
                assert(item@.skip(1) =~= seq![c1, c2, c3, c4]);
            }
            match chars4_val(c1, c2, c3, c4) {
                Some(band) => Ok(MemoryChannel::FiveMHzBand((band % 256) as u8)),
                None => Err(()),
            }
        } else if c0 == 'E' && c1 == 'M' && c2 == 'G' && c3 == 'C' && c4 == 'H' {
            proof {
                assert(item@ =~= seq!['E', 'M', 'G', 'C', 'H']);
            }
            Ok(MemoryChannel::EmergencyChannel)
        } else {
            proof {
                assert(item@ != seq!['0', '0', '0', '0', '0']) by {
                    if item@ == seq!['0', '0', '0', '0', '0'] {
                        assert(item@[0] == '0');
                    }
                }
                assert(item@ != seq!['E', 'M', 'G', 'C', 'H']) by {
                    if item@ == seq!['E', 'M', 'G', 'C', 'H'] {
                        assert(item@[0] == 'E' && item@[1] == 'M' && item@[2] == 'G' && item@[3]
                            == 'C' && item@[4] == 'H');
                    }
                }
            }
            Err(())
        }
    }

    /// Encode the channel into its canonical 5-character field.
    pub fn to_chars(&self) -> (r: Result<[char; 5], ()>)
        ensures
            r is Ok <==> channel_to_chars(*self) is Some,
            r is Ok ==> r->Ok_0@ == channel_to_chars(*self)->0,
    {
        match self {
            MemoryChannel::VfoMtQmb => {
                let a = ['0', '0', '0', '0', '0'];
                proof {
                    assert(a@ =~= seq!['0', '0', '0', '0', '0']);
                }
                Ok(a)
            },
            MemoryChannel::Mem(ch) => {
                proof {
                    lemma_pow10_vals();
                    lemma_char_digits_of_wf(*ch as int, 5);
                }
                let v = char_digits_vec(*ch as u32, 5);
                let a = [v[0], v[1], v[2], v[3], v[4]];
                proof {
                    assert(a@ =~= char_digits_of(*ch as int, 5));
                }
                Ok(a)
            },
            MemoryChannel::Pms(pms) => {
                if pms.slot > 99 {
                    return Err(());
                }
                proof {
                    lemma_pow10_vals();
                    lemma_char_digits_of_wf(pms.slot as int, 2);
                }
                let d = char_digits_vec(pms.slot as u32, 2);
                let lu = match pms.lower_upper {
                    PmsLowerUpper::Lower => 'L',
                    PmsLowerUpper::Upper => 'U',
                };
                let a = ['P', '-', d[0], d[1], lu];
                proof {
                    assert(a@ =~= channel_to_chars(*self)->0);
                }
                Ok(a)
            },
            MemoryChannel::FiveMHzBand(band) => {
                if *band > 99 {
                    return Err(());
                }
                proof {
                    lemma_pow10_vals();
                    lemma_char_digits_of_wf(*band as int, 2);
                }
                let d = char_digits_vec(*band as u32, 2);
                let a = ['5', '0', '0', d[0], d[1]];
                proof {
                    assert(a@ =~= channel_to_chars(*self)->0);
                }
                Ok(a)
            },
            MemoryChannel::EmergencyChannel => {
                let a = ['E', 'M', 'G', 'C', 'H'];
                proof {
                    assert(a@ =~= seq!['E', 'M', 'G', 'C', 'H']);
                }
                Ok(a)
            },
        }
    }
}

/// Law: every channel that has a 5-character form decodes from that form back
/// to itself. A numbered memory channel keeps its value when it is between 1
/// and 9999 (above that the field no longer starts with `0`, and `0` itself is
/// the VFO/MT/QMB literal); PMS and 5 MHz slots keep theirs up to two digits.
pub proof fn lemma_channel_round_trip(mc: MemoryChannel)
    requires
        match mc {
            MemoryChannel::Mem(n) => 1 <= n <= 9999,
            MemoryChannel::Pms(p) => p.slot <= 99,
            MemoryChannel::FiveMHzBand(b) => b <= 99,
            _ => true,
        },
    ensures
        channel_to_chars(mc) is Some,
        channel_from_chars(channel_to_chars(mc)->0) == Some(mc),
{
    lemma_pow10_vals();
    let zeros = seq!['0', '0', '0', '0', '0'];
    assert(char_digits_of(0, 5) =~= zeros) by {
        reveal_with_fuel(char_digits_of, 6);
    }
    match mc {
        MemoryChannel::VfoMtQmb => {
        },
        MemoryChannel::Mem(n) => {
            let s = char_digits_of(n as int, 5);
            lemma_char_digits_of_wf(n as int, 5);
            lemma_char_digits_of_leading_zero(n as int, 5);
            lemma_char_digits_of_val(n as int, 4);
            assert(s[0] == digit_char(0));
            assert(s != zeros) by {
                lemma_char_digits_of_val(n as int, 5);
                if s == zeros {
                    lemma_char_digits_of_val(0, 5);
                    assert(chars_val(s) == chars_val(char_digits_of(0, 5)));
                }
            }
            assert(s.skip(1) =~= char_digits_of(n as int, 4));
        },
        MemoryChannel::Pms(p) => {
            let s = channel_to_chars(mc)->0;
            let d = char_digits_of(p.slot as int, 2);
            lemma_char_digits_of_wf(p.slot as int, 2);
            assert(d =~= seq![digit_char((p.slot as int / 10) % 10), digit_char(p.slot as int % 10)])
                by {
                reveal_with_fuel(char_digits_of, 3);
            }
            assert(s[0] == 'P' && s[2] == d[0] && s[3] == d[1]);
            assert(s != zeros) by {
                if s == zeros {
                    assert(s[0] == '0');
                }
            }
            assert((p.slot as int / 10) % 10 == p.slot as int / 10);
            assert(10 * (p.slot as int / 10) + p.slot as int % 10 == p.slot as int);
        },
        MemoryChannel::FiveMHzBand(b) => {
            let s = channel_to_chars(mc)->0;
            lemma_char_digits_of_wf(b as int, 2);
            lemma_char_digits_of_leading_zero(b as int, 4);
            lemma_char_digits_of_leading_zero(b as int, 3);
            lemma_char_digits_of_val(b as int, 4);
            assert(s != zeros) by {
                if s == zeros {
                    assert(s[0] == '0');
                }
            }
            assert(s[0] == '5');
            assert(s.skip(1) =~= char_digits_of(b as int, 4)) by {
                assert(char_digits_of(b as int, 4) =~= seq![digit_char(0)] + char_digits_of(
                    b as int,
                    3,
                ));
                assert(char_digits_of(b as int, 3) =~= seq![digit_char(0)] + char_digits_of(
                    b as int,
                    2,
                ));
            }
        },
        MemoryChannel::EmergencyChannel => {
            let s = seq!['E', 'M', 'G', 'C', 'H'];
            assert(s != zeros) by {
                if s == zeros {
                    assert(s[0] == '0');
                }
            }
        },
    }
}

//------------------------------------
// Shift
//------------------------------------
/// Repeater shift applied to a channel: simplex, plus or minus.
#[derive(Debug, Clone, Copy, PartialEq, Eq, Structural)]
pub enum Shift {
    Simplex,
    PlusShift,
    MinusShift,
}

/// Wire decoding of the shift character.
pub open spec fn shift_from_char(c: char) -> Option<Shift> {
    if c == '0' {
        Some(Shift::Simplex)
    } else if c == '1' {
        Some(Shift::PlusShift)
    } else if c == '2' {
        Some(Shift::MinusShift)
    } else {
        None
    }
}

impl Shift {
    pub fn try_from(item: char) -> (r: Result<Self, ()>)
        ensures
            r is Ok <==> shift_from_char(item) is Some,
            r is Ok ==> Some(r->Ok_0) == shift_from_char(item),
    {
        match item {
            '0' => Ok(Shift::Simplex),
            '1' => Ok(Shift::PlusShift),
            '2' => Ok(Shift::MinusShift),
            _ => Err(()),
        }
    }
}

//------------------------------------
// SqlType
//------------------------------------
/// The tone/squelch scheme of a channel.
#[derive(Debug, Clone, Copy, PartialEq, Eq, Structural)]
pub enum SqlType {
    CtcssOff,
    CtcssEncDec,
    CtcssEnc,
    Dcs,
    PrFreq,
    RevTone,
}

/// Wire decoding of the tone/squelch-type character.
pub open spec fn sql_from_char(c: char) -> Option<SqlType> {
    if c == '0' {
        Some(SqlType::CtcssOff)
    } else if c == '1' {
        Some(SqlType::CtcssEncDec)
    } else if c == '2' {
        Some(SqlType::CtcssEnc)
    } else if c == '3' {
        Some(SqlType::Dcs)
    } else if c == '4' {
        Some(SqlType::PrFreq)
    } else if c == '5' {
        Some(SqlType::RevTone)
    } else {
        None
    }
}

impl SqlType {
    pub fn try_from(item: char) -> (r: Result<Self, ()>)
        ensures
            r is Ok <==> sql_from_char(item) is Some,
            r is Ok ==> Some(r->Ok_0) == sql_from_char(item),
    {
        match item {
            '0' => Ok(SqlType::CtcssOff),
            '1' => Ok(SqlType::CtcssEncDec),
            '2' => Ok(SqlType::CtcssEnc),
            '3' => Ok(SqlType::Dcs),
            '4' => Ok(SqlType::PrFreq),
            '5' => Ok(SqlType::RevTone),
            _ => Err(()),
        }
    }
}

//------------------------------------
// Mode
//------------------------------------
/// The operating mode of a band.
#[derive(Debug, Clone, Copy, PartialEq, Eq, Structural)]
pub enum Mode {
    Lsb,
    Usb,
    CwU,
    Fm,
    Am,
    RttyL,
    CwL,
    DataL,
    RttyU,
    DataFm,
    FmN,
    DataU,
    AmN,
    Psk,
    DataFmN,
}

/// The single wire character of each operating mode.
pub open spec fn mode_code(m: Mode) -> char {
    match m {
        Mode::Lsb => '1',
        Mode::Usb => '2',
        Mode::CwU => '3',
        Mode::Fm => '4',
        Mode::Am => '5',
        Mode::RttyL => '6',
        Mode::CwL => '7',
        Mode::DataL => '8',
        Mode::RttyU => '9',
        Mode::DataFm => 'A',
        Mode::FmN => 'B',
        Mode::DataU => 'C',
        Mode::AmN => 'D',
        Mode::Psk => 'E',
        Mode::DataFmN => 'F',
    }
}

/// Wire decoding of the mode character: the inverse lookup of `mode_code`.
pub open spec fn mode_from_char(c: char) -> Option<Mode> {
    if c == '1' {
        Some(Mode::Lsb)
    } else if c == '2' {
        Some(Mode::Usb)
    } else if c == '3' {
        Some(Mode::CwU)
    } else if c == '4' {
        Some(Mode::Fm)
    } else if c == '5' {
        Some(Mode::Am)
    } else if c == '6' {
        Some(Mode::RttyL)
    } else if c == '7' {
        Some(Mode::CwL)
    } else if c == '8' {
        Some(Mode::DataL)
    } else if c == '9' {
        Some(Mode::RttyU)
    } else if c == 'A' {
        Some(Mode::DataFm)
    } else if c == 'B' {
        Some(Mode::FmN)
    } else if c == 'C' {
        Some(Mode::DataU)
    } else if c == 'D' {
        Some(Mode::AmN)
    } else if c == 'E' {
        Some(Mode::Psk)
    } else if c == 'F' {
        Some(Mode::DataFmN)
    } else {
        None
    }
}

impl Mode {
    /// The wire character of this mode.
    pub fn code(&self) -> (c: char)
        ensures
            c == mode_code(*self),
    {
        match self {
            Mode::Lsb => '1',
            Mode::Usb => '2',
            Mode::CwU => '3',
            Mode::Fm => '4',
            Mode::Am => '5',
            Mode::RttyL => '6',
            Mode::CwL => '7',
            Mode::DataL => '8',
            Mode::RttyU => '9',
            Mode::DataFm => 'A',
            Mode::FmN => 'B',
            Mode::DataU => 'C',
            Mode::AmN => 'D',
            Mode::Psk => 'E',
            Mode::DataFmN => 'F',
        }
    }

    pub fn try_from(item: char) -> (r: Result<Self, ()>)
        ensures
            r is Ok <==> mode_from_char(item) is Some,
            r is Ok ==> Some(r->Ok_0) == mode_from_char(item),
    {
        match item {
            '1' => Ok(Mode::Lsb),
            '2' => Ok(Mode::Usb),
            '3' => Ok(Mode::CwU),
            '4' => Ok(Mode::Fm),
            '5' => Ok(Mode::Am),
            '6' => Ok(Mode::RttyL),
            '7' => Ok(Mode::CwL),
            '8' => Ok(Mode::DataL),
            '9' => Ok(Mode::RttyU),
            'A' => Ok(Mode::DataFm),
            'B' => Ok(Mode::FmN),
            'C' => Ok(Mode::DataU),
            'D' => Ok(Mode::AmN),
            'E' => Ok(Mode::Psk),
            'F' => Ok(Mode::DataFmN),
            _ => Err(()),
        }
    }

    pub fn try_from_u8(item: u8) -> (r: Result<Self, ()>)
        ensures
            r is Ok <==> mode_from_char(item as char) is Some,
            r is Ok ==> Some(r->Ok_0) == mode_from_char(item as char),
    {
        Mode::try_from(item as char)
    }
}

/// Law: decoding a mode's wire character gives back the same mode.
pub proof fn lemma_mode_code_round_trip(m: Mode)
    ensures
        mode_from_char(mode_code(m)) == Some(m),
{
}

//------------------------------------
// Cmd
//------------------------------------
/// A command descriptor: the 2-character mnemonic and the exact number of
/// parameter bytes the matching reply carries.
#[derive(Debug, Clone, Copy)]
pub struct Cmd {
    pub code: [u8; 2],
    pub read_params: usize,
}

/// The bytes of an outbound frame: mnemonic, parameters, terminator.
pub open spec fn frame_bytes(code: [u8; 2], params: Seq<u8>) -> Seq<u8> {
    seq![code[0], code[1]] + params + seq![TERMINATOR]
}

/// The parameter characters of an outbound frame, narrowed to bytes.
pub open spec fn params_bytes(params: Option<Vec<char>>) -> Seq<u8> {
    match params {
        Some(p) => p@.map_values(|c: char| c as u8),
        None => Seq::<u8>::empty(),
    }
}

/// A reply buffer passes validation when it is at least 3 bytes long, carries
/// exactly the expected number of parameter bytes, and both mnemonic bytes
/// and the terminator byte occur somewhere in it. The two mnemonic bytes and
/// the terminator are membership tests, not positional checks.
pub open spec fn reply_ok(cmd: Cmd, b: Seq<u8>) -> bool {
    &&& b.len() >= 3
    &&& b.contains(cmd.code[0])
    &&& b.contains(cmd.code[1])
    &&& b.len() - 3 == cmd.read_params
    &&& b.contains(TERMINATOR)
}

/// Whether a byte occurs anywhere in the buffer.
fn vec_contains(v: &Vec<u8>, b: u8) -> (r: bool)
    ensures
        r == v@.contains(b),
{
    let mut i: usize = 0;
    while i < v.len()
        invariant
            0 <= i <= v@.len(),
            forall|j: int| 0 <= j < i ==> v@[j] != b,
        decreases v@.len() - i,
    {
        if v[i] == b {
            return true;
        }
        i += 1;
    }
    false
}

impl Cmd {
    /// Build the outbound frame: mnemonic bytes, then the parameter
    /// characters if any, then the terminator.
    pub fn tx_buffer(&self, params: Option<Vec<char>>) -> (r: Vec<u8>)
        ensures
            r@ == frame_bytes(self.code, params_bytes(params)),
    {
        let mut tx_vec = Vec::<u8>::new();
        tx_vec.push(self.code[0]);
        tx_vec.push(self.code[1]);
        if let Some(p) = &params {
            let mut i: usize = 0;
            while i < p.len()
                invariant
                    0 <= i <= p@.len(),
                    tx_vec@ =~= seq![self.code[0], self.code[1]] + p@.subrange(
                        0,
                        i as int,
                    ).map_values(|c: char| c as u8),
                decreases p@.len() - i,
            {
                tx_vec.push(p[i] as u8);
                proof {
                    assert(p@.subrange(0, i + 1).map_values(|c: char| c as u8) =~= p@.subrange(
                        0,
                        i as int,
                    ).map_values(|c: char| c as u8).push(p@[i as int] as u8));
                }
                i += 1;
            }
            proof {
                assert(p@.subrange(0, p@.len() as int) =~= p@);
            }
        }
        tx_vec.push(TERMINATOR);
        proof {
            assert(tx_vec@ =~= frame_bytes(self.code, params_bytes(params)));
        }
        tx_vec
    }

    /// Validate a received reply buffer against this descriptor.
    pub fn is_reply_ok(&self, rx_buffer: &Vec<u8>) -> (r: Result<(), ()>)
        ensures
            r is Ok <==> reply_ok(*self, rx_buffer@),
    {
        if rx_buffer.len() < 3 {
            return Err(());
        }
        let code0 = vec_contains(rx_buffer, self.code[0]);
        let code1 = vec_contains(rx_buffer, self.code[1]);
        let params = rx_buffer.len() - 3 == self.read_params;
        let terminator = vec_contains(rx_buffer, TERMINATOR);
        if terminator && code0 && code1 && params {
            Ok(())
        } else {
            Err(())
        }
    }
}

//------------------------------------
// CmdId
//------------------------------------
/// The radio-model id that identifies this transceiver family.
pub const FTX1_ID: u16 = 840;

/// Identification command: mnemonic `ID`, 4 reply parameter bytes.
#[derive(Debug, Clone, Copy)]
pub struct CmdId {
    pub cmd: Cmd,
}

impl CmdId {
    /// The descriptor is the fixed `ID` descriptor.
    pub open spec fn wf(self) -> bool {
        self.cmd.code[0] == 73 && self.cmd.code[1] == 68 && self.cmd.read_params == 4
    }

    pub fn new() -> (r: CmdId)
        ensures
            r.wf(),
    {
        CmdId { cmd: Cmd { code: [73, 68], read_params: 4 } }
    }

    /// The frame that asks the radio for its id.
    pub fn read(&self) -> (r: Vec<u8>)
        requires
            self.wf(),
        ensures
            r@ == frame_bytes(self.cmd.code, Seq::<u8>::empty()),
    {
        self.cmd.tx_buffer(None)
    }

    /// Parse an id reply into the numeric radio-model id.
    pub fn decode(&self, buffer: &Vec<u8>) -> (r: Result<u16, ()>)
        requires
            self.wf(),
        ensures
            r is Ok <==> reply_ok(self.cmd, buffer@) && all_digits(buffer@.subrange(2, 6)),
            r is Ok ==> r->Ok_0 as int == digits_val(buffer@.subrange(2, 6)),
    {
        match self.cmd.is_reply_ok(buffer) {
            Ok(_) => {},
            Err(_) => {
                return Err(());
            },
        }
        buf4_to_u16(&buffer.as_slice()[2..6])
    }

    /// Accept exactly the one id of the target device family.
    pub fn validate(&self, id: u16) -> (r: Result<(), ()>)
        ensures
            r is Ok <==> id == FTX1_ID,
    {
        if id == FTX1_ID {
            Ok(())
        } else {
            Err(())
        }
    }
}

//------------------------------------
// CmdMemoryRead
//------------------------------------
/// The full decoded payload of a memory-read reply.
#[derive(Debug, Clone, Copy, PartialEq, Eq, Structural)]
pub struct MemoryRead {
    pub channel: MemoryChannel,  // 5 positions [00001]
    pub frequency_hz: FrequencyHz,  // 9 positions [432100000]
    pub clarifier_offset_hz: ClarifierOffsetHz,  // 5 positions [+0015]
    pub rx_clarifier_enabled: RxClarifierOnOff,  // 1 position [0: OFF, 1: ON]
    pub tx_clarifier_enabled: TxClarifierOnOff,  // 1 position [0: OFF, 1: ON]
    pub mode: Mode,  // 1 position
    pub ch_type: ChType,  // 1 position [0: VFO .. 5: PMS]
    pub sql_type: SqlType,  // 1 position [0: CTCSS OFF 1: ENC/DEC 2: ENC]
    pub shift: Shift,  // 1 position [0: simplex 1: plus 2: minus]
}

impl Default for MemoryRead {
    /// The all-zero baseline a decoder starts from.
    fn default() -> (r: Self)
        ensures
            r.channel == MemoryChannel::VfoMtQmb,
            r.frequency_hz.spec_value() == 0,
            r.clarifier_offset_hz.spec_value() == 0,
            r.rx_clarifier_enabled == RxClarifierOnOff::RxClarifierOff,
            r.tx_clarifier_enabled == TxClarifierOnOff::TxClarifierOff,
            r.mode == Mode::Lsb,
            r.ch_type == ChType::Vfo,
            r.sql_type == SqlType::CtcssOff,
            r.shift == Shift::Simplex,
    {
        Self {
            channel: MemoryChannel::VfoMtQmb,
            frequency_hz: FrequencyHz { value: 0 },
            clarifier_offset_hz: ClarifierOffsetHz { value: 0 },
            rx_clarifier_enabled: RxClarifierOnOff::RxClarifierOff,
            tx_clarifier_enabled: TxClarifierOnOff::TxClarifierOff,
            mode: Mode::Lsb,
            ch_type: ChType::Vfo,
            sql_type: SqlType::CtcssOff,
            shift: Shift::Simplex,
        }
    }
}

/// The channel field of a reply, read as five characters.
pub open spec fn reply_channel_chars(b: Seq<u8>, start: int) -> Seq<char> {
    seq![
        b[start] as char,
        b[start + 1] as char,
        b[start + 2] as char,
        b[start + 3] as char,
        b[start + 4] as char,
    ]
}

/// Memory-read command: mnemonic `MR`, 27 reply parameter bytes.
#[derive(Debug, Clone, Copy)]
pub struct CmdMr {
    pub cmd: Cmd,
}

impl CmdMr {
    /// The descriptor is the fixed `MR` descriptor.
    pub open spec fn wf(self) -> bool {
        self.cmd.code[0] == 77 && self.cmd.code[1] == 82 && self.cmd.read_params == 27
    }

    pub fn new() -> (r: CmdMr)
        ensures
            r.wf(),
    {
        CmdMr { cmd: Cmd { code: [77, 82], read_params: 27 } }
    }

    /// The frame that asks for the contents of one memory channel.
    pub fn read(&self, ch: MemoryChannel) -> (r: Vec<u8>)
        requires
            self.wf(),
            channel_to_chars(ch) is Some,
        ensures
            r@ == frame_bytes(
                self.cmd.code,
                channel_to_chars(ch)->0.map_values(|c: char| c as u8),
            ),
    {
        let s = match ch.to_chars() {
            Ok(s) => s,
            Err(_) => {
                proof {
                    assert(false);
                }
                ['0', '0', '0', '0', '0']
            },
        };
        self.cmd.tx_buffer(Some(chars5_to_vec(&s)))
    }

    /// Parse a memory-read reply into the aggregate record, field by field in
    /// fixed byte-offset order.
    pub fn decode(&self, buffer: &Vec<u8>) -> (r: Result<MemoryRead, ()>)
        requires
            self.wf(),
        ensures
            r is Ok <==> ({
                let b = buffer@;
                &&& reply_ok(self.cmd, b)
                &&& channel_from_chars(reply_channel_chars(b, 2)) is Some
                &&& all_digits(b.subrange(7, 16))
                &&& freq_in_range(digits_val(b.subrange(7, 16)))
                &&& (b[16] == ASCII_PLUS || b[16] == ASCII_MINUS)
                &&& all_digits(b.subrange(17, 21))
                &&& clarifier_in_range(signed_val(b.subrange(16, 21)))
                &&& rx_clarifier_from_char(b[21] as char) is Some
                &&& tx_clarifier_from_char(b[22] as char) is Some
                &&& mode_from_char(b[23] as char) is Some
                &&& chtype_from_char(b[24] as char) is Some
                &&& sql_from_char(b[25] as char) is Some
                &&& shift_from_char(b[28] as char) is Some
            }),
            r is Ok ==> ({
                let b = buffer@;
                let mr = r->Ok_0;
                &&& Some(mr.channel) == channel_from_chars(reply_channel_chars(b, 2))
                &&& mr.frequency_hz.spec_value() as int == digits_val(b.subrange(7, 16))
                &&& mr.clarifier_offset_hz.spec_value() as int == signed_val(b.subrange(16, 21))
                &&& Some(mr.rx_clarifier_enabled) == rx_clarifier_from_char(b[21] as char)
                &&& Some(mr.tx_clarifier_enabled) == tx_clarifier_from_char(b[22] as char)
                &&& Some(mr.mode) == mode_from_char(b[23] as char)
                &&& Some(mr.ch_type) == chtype_from_char(b[24] as char)
                &&& Some(mr.sql_type) == sql_from_char(b[25] as char)
                &&& Some(mr.shift) == shift_from_char(b[28] as char)
            }),
    {
        // Example reply: MR00001007000000+000000110000;
        let mut mr = MemoryRead::default();
        match self.cmd.is_reply_ok(buffer) {
            Ok(_) => {},
            Err(_) => {
                return Err(());
            },
        }
        let ch_chars: [char; 5] = [
            buffer[2] as char,
            buffer[3] as char,
            buffer[4] as char,
            buffer[5] as char,
            buffer[6] as char,
        ];
        proof {
            assert(ch_chars@ =~= reply_channel_chars(buffer@, 2));
        }
        mr.channel = match MemoryChannel::try_from(&ch_chars) {
            Ok(c) => c,
            Err(_) => {
                return Err(());
            },
        };
        mr.frequency_hz = match FrequencyHz::try_from_bytes(&buffer.as_slice()[7..16]) {
            Ok(f) => f,
            Err(_) => {
                return Err(());
            },
        };
        proof {
            assert(buffer@.subrange(16, 21).skip(1) =~= buffer@.subrange(17, 21));
            assert(buffer@.subrange(16, 21)[0] == buffer@[16]);
        }
        mr.clarifier_offset_hz = match ClarifierOffsetHz::try_from_bytes(
            &buffer.as_slice()[16..21],
        ) {
            Ok(c) => c,
            Err(_) => {
                return Err(());
            },
        };
        mr.rx_clarifier_enabled = match RxClarifierOnOff::try_from(buffer[21] as char) {
            Ok(v) => v,
            Err(_) => {
                return Err(());
            },
        };
        mr.tx_clarifier_enabled = match TxClarifierOnOff::try_from(buffer[22] as char) {
            Ok(v) => v,
            Err(_) => {
                return Err(());
            },
        };
        mr.mode = match Mode::try_from(buffer[23] as char) {
            Ok(v) => v,
            Err(_) => {
                return Err(());
            },
        };
        mr.ch_type = match ChType::try_from(buffer[24] as char) {
            Ok(v) => v,
            Err(_) => {
                return Err(());
            },
        };
        mr.sql_type = match SqlType::try_from(buffer[25] as char) {
            Ok(v) => v,
            Err(_) => {
                return Err(());
            },
        };
        // Bytes 26 and 27 of the reply are unused by this command.
        mr.shift = match Shift::try_from(buffer[28] as char) {
            Ok(v) => v,
            Err(_) => {
                return Err(());
            },
        };
        Ok(mr)
    }
}

//------------------------------------
// MT - MEMORY CHANNEL TAG
//------------------------------------
/// Memory-tag command: mnemonic `MT`, 17 reply parameter bytes.
#[derive(Debug, Clone, Copy)]
pub struct CmdMt {
    pub cmd: Cmd,
}

impl CmdMt {
    /// The descriptor is the fixed `MT` descriptor.
    pub open spec fn wf(self) -> bool {
        self.cmd.code[0] == 77 && self.cmd.code[1] == 84 && self.cmd.read_params == 17
    }

    pub fn new() -> (r: CmdMt)
        ensures
            r.wf(),
    {
        CmdMt { cmd: Cmd { code: [77, 84], read_params: 17 } }
    }

    /// The frame that asks for the tag of one memory channel.
    pub fn read(&self, ch: MemoryChannel) -> (r: Vec<u8>)
        requires
            self.wf(),
            channel_to_chars(ch) is Some,
        ensures
            r@ == frame_bytes(
                self.cmd.code,
                channel_to_chars(ch)->0.map_values(|c: char| c as u8),
            ),
    {
        let s = match ch.to_chars() {
            Ok(s) => s,
            Err(_) => {
                proof {
                    assert(false);
                }
                ['0', '0', '0', '0', '0']
            },
        };
        self.cmd.tx_buffer(Some(chars5_to_vec(&s)))
    }

    /// Extract the free-text tag bytes from a tag reply.
    pub fn decode(&self, buffer: &Vec<u8>) -> (r: Result<Vec<u8>, ()>)
        requires
            self.wf(),
        ensures
            r is Ok <==> reply_ok(self.cmd, buffer@),
            r is Ok ==> r->Ok_0@ == buffer@.subrange(7, 19),
    {
        match self.cmd.is_reply_ok(buffer) {
            Ok(_) => {},
            Err(_) => {
                return Err(());
            },
        }
        let mut tag = Vec::<u8>::new();
        let mut i: usize = 7;
        while i < 19
            invariant
                7 <= i <= 19,
                buffer@.len() == 20,
                tag@ =~= buffer@.subrange(7, i as int),
            decreases 19 - i,
        {
            tag.push(buffer[i]);
            proof {
                assert(buffer@.subrange(7, i + 1) =~= buffer@.subrange(7, i as int).push(
                    buffer@[i as int],
                ));
            }
            i += 1;
        }
        Ok(tag)
    }
}

//------------------------------------
// MC - MEMORY CHANNEL
//------------------------------------
/// Which receiver a reply speaks of: the main or the sub band.
#[derive(Debug, Clone, Copy, PartialEq, Eq, Structural)]
pub enum Side {
    Main,
    Sub,
}

/// Wire decoding of the side character, `0` main and `1` sub.
pub open spec fn side_from_byte(b: u8) -> Option<Side> {
    if b == 48 {
        Some(Side::Main)
    } else if b == 49 {
        Some(Side::Sub)
    } else {
        None
    }
}

/// The single wire character of each side, as a byte.
pub open spec fn side_code(s: Side) -> u8 {
    match s {
        Side::Main => 48,
        Side::Sub => 49,
    }
}

impl Side {
    pub fn try_from(item: &u8) -> (r: Result<Self, ()>)
        ensures
            r is Ok <==> side_from_byte(*item) is Some,
            r is Ok ==> Some(r->Ok_0) == side_from_byte(*item),
    {
        match *item {
            48 => Ok(Side::Main),
            49 => Ok(Side::Sub),
            _ => Err(()),
        }
    }

    /// The wire byte of this side.
    pub fn code(&self) -> (c: u8)
        ensures
            c == side_code(*self),
    {
        match self {
            Side::Main => 48,
            Side::Sub => 49,
        }
    }
}

/// Law: decoding a side's wire byte gives back the same side.
pub proof fn lemma_side_code_round_trip(s: Side)
    ensures
        side_from_byte(side_code(s)) == Some(s),
{
}

/// The decoded payload of a memory-channel-select reply.
#[derive(Debug, Clone, Copy, PartialEq, Eq, Structural)]
pub struct McReply {
    pub side: Side,
    pub channel: MemoryChannel,
}

/// Memory-channel-select command: mnemonic `MC`, 6 reply parameter bytes.
#[derive(Debug, Clone, Copy)]
pub struct CmdMc {
    pub cmd: Cmd,
}

impl CmdMc {
    /// The descriptor is the fixed `MC` descriptor.
    pub open spec fn wf(self) -> bool {
        self.cmd.code[0] == 77 && self.cmd.code[1] == 67 && self.cmd.read_params == 6
    }

    pub fn new() -> (r: CmdMc)
        ensures
            r.wf(),
    {
        CmdMc { cmd: Cmd { code: [77, 67], read_params: 6 } }
    }

    /// The frame that asks which channel is selected.
    pub fn read(&self) -> (r: Vec<u8>)
        requires
            self.wf(),
        ensures
            r@ == frame_bytes(self.cmd.code, Seq::<u8>::empty()),
    {
        self.cmd.tx_buffer(None)
    }

    /// The frame that selects one memory channel.
    pub fn set(&self, ch: MemoryChannel) -> (r: Vec<u8>)
        requires
            self.wf(),
            channel_to_chars(ch) is Some,
        ensures
            r@ == frame_bytes(
                self.cmd.code,
                channel_to_chars(ch)->0.map_values(|c: char| c as u8),
            ),
    {
        let s = match ch.to_chars() {
            Ok(s) => s,
            Err(_) => {
                proof {
                    assert(false);
                }
                ['0', '0', '0', '0', '0']
            },
        };
        self.cmd.tx_buffer(Some(chars5_to_vec(&s)))
    }

    /// Parse a memory-channel-select reply into the side and the channel.
    pub fn decode(&self, buffer: &Vec<u8>) -> (r: Result<McReply, ()>)
        requires
            self.wf(),
        ensures
            r is Ok <==> ({
                let b = buffer@;
                &&& reply_ok(self.cmd, b)
                &&& side_from_byte(b[2]) is Some
                &&& channel_from_chars(reply_channel_chars(b, 3)) is Some
            }),
            r is Ok ==> ({
                let b = buffer@;
                &&& Some(r->Ok_0.side) == side_from_byte(b[2])
                &&& Some(r->Ok_0.channel) == channel_from_chars(reply_channel_chars(b, 3))
            }),
    {
        match self.cmd.is_reply_ok(buffer) {
            Ok(_) => {},
            Err(_) => {
                return Err(());
            },
        }
        let side = match Side::try_from(&buffer[2]) {
            Ok(s) => s,
            Err(_) => {
                return Err(());
            },
        };
        let ch: [char; 5] = [
            buffer[3] as char,
            buffer[4] as char,
            buffer[5] as char,
            buffer[6] as char,
            buffer[7] as char,
        ];
        proof {
            assert(ch@ =~= reply_channel_chars(buffer@, 3));
        }
        let channel = match MemoryChannel::try_from(&ch) {
            Ok(c) => c,
            Err(_) => {
                return Err(());
            },
        };
        Ok(McReply { side, channel })
    }
}

//------------------------------------
// CN CTCSS TONE FREQUENCY / DCS CODE
//------------------------------------
/// Whether a tone code names a CTCSS tone or a DCS code.
#[derive(Debug, Clone, Copy, PartialEq, Eq, Structural)]
pub enum ToneType {
    Ctcss,
    Dcs,
}

/// Wire decoding of the tone-type character, `0` CTCSS and `1` DCS.
pub open spec fn tone_type_from_byte(b: u8) -> Option<ToneType> {
    if b == 48 {
        Some(ToneType::Ctcss)
    } else if b == 49 {
        Some(ToneType::Dcs)
    } else {
        None
    }
}

/// The single wire character of each tone type, as a byte.
pub open spec fn tone_type_code(t: ToneType) -> u8 {
    match t {
        ToneType::Ctcss => 48,
        ToneType::Dcs => 49,
    }
}

impl ToneType {
    pub fn try_from(item: &u8) -> (r: Result<Self, ()>)
        ensures
            r is Ok <==> tone_type_from_byte(*item) is Some,
            r is Ok ==> Some(r->Ok_0) == tone_type_from_byte(*item),
    {
        match *item {
            48 => Ok(ToneType::Ctcss),
            49 => Ok(ToneType::Dcs),
            _ => Err(()),
        }
    }

    /// The wire byte of this tone type.
    pub fn code(&self) -> (c: u8)
        ensures
            c == tone_type_code(*self),
    {
        match self {
            ToneType::Ctcss => 48,
            ToneType::Dcs => 49,
        }
    }
}

/// Law: decoding a tone type's wire byte gives back the same tone type.
pub proof fn lemma_tone_type_code_round_trip(t: ToneType)
    ensures
        tone_type_from_byte(tone_type_code(t)) == Some(t),
{
}

/// The decoded payload of a tone reply.
#[derive(Debug, Clone, Copy, PartialEq, Eq, Structural)]
pub struct CnReply {
    pub side: Side,
    pub tone_type: ToneType,
    pub tone_code: u8,
}

/// Tone command: mnemonic `CN`, 5 reply parameter bytes.
#[derive(Debug, Clone, Copy)]
pub struct CmdCn {
    pub cmd: Cmd,
}

impl CmdCn {
    /// The descriptor is the fixed `CN` descriptor.
    pub open spec fn wf(self) -> bool {
        self.cmd.code[0] == 67 && self.cmd.code[1] == 78 && self.cmd.read_params == 5
    }

    pub fn new() -> (r: CmdCn)
        ensures
            r.wf(),
    {
        CmdCn { cmd: Cmd { code: [67, 78], read_params: 5 } }
    }

    /// The frame that asks for the tone setting.
    pub fn read(&self) -> (r: Vec<u8>)
        requires
            self.wf(),
        ensures
            r@ == frame_bytes(self.cmd.code, Seq::<u8>::empty()),
    {
        self.cmd.tx_buffer(None)
    }

    /// The frame that sets the tone: side, tone type, then the 3-digit code.
    pub fn set(&self, sd: Side, tt: ToneType, cd: u8) -> (r: Vec<u8>)
        requires
            self.wf(),
        ensures
            r@ == frame_bytes(
                self.cmd.code,
                seq![side_code(sd), tone_type_code(tt)] + digits_of(cd as int, 3),
            ),
    {
        let mut params = Vec::<char>::new();
        params.push(sd.code() as char);
        params.push(tt.code() as char);
        let mut digits = char_digits_vec(cd as u32, 3);
        params.append(&mut digits);
        proof {
            lemma_char_digits_of_wf(cd as int, 3);
            assert(params@.map_values(|c: char| c as u8) =~= seq![
                side_code(sd),
                tone_type_code(tt),
            ] + digits_of(cd as int, 3)) by {
                lemma_char_digits_byte_digits(cd as int, 3);
            }
        }
        self.cmd.tx_buffer(Some(params))
    }

    /// Parse a tone reply into the side, the tone type and the 3-digit code.
    pub fn decode(&self, buffer: &Vec<u8>) -> (r: Result<CnReply, ()>)
        requires
            self.wf(),
        ensures
            r is Ok <==> ({
                let b = buffer@;
                &&& reply_ok(self.cmd, b)
                &&& side_from_byte(b[2]) is Some
                &&& tone_type_from_byte(b[3]) is Some
                &&& all_digits(b.subrange(4, 7))
                &&& digits_val(b.subrange(4, 7)) <= 255
            }),
            r is Ok ==> ({
                let b = buffer@;
                &&& Some(r->Ok_0.side) == side_from_byte(b[2])
                &&& Some(r->Ok_0.tone_type) == tone_type_from_byte(b[3])
                &&& r->Ok_0.tone_code as int == digits_val(b.subrange(4, 7))
            }),
    {
        match self.cmd.is_reply_ok(buffer) {
            Ok(_) => {},
            Err(_) => {
                return Err(());
            },
        }
        let side = match Side::try_from(&buffer[2]) {
            Ok(s) => s,
            Err(_) => {
                return Err(());
            },
        };
        let tone_type = match ToneType::try_from(&buffer[3]) {
            Ok(t) => t,
            Err(_) => {
                return Err(());
            },
        };
        let tone_code = match buf3_to_u8(&buffer.as_slice()[4..7]) {
            Ok(c) => c,
            Err(_) => {
                return Err(());
            },
        };
        Ok(CnReply { side, tone_type, tone_code })
    }
}

/// Copy a 5-character field into the parameter vector of a frame.
fn chars5_to_vec(s: &[char; 5]) -> (r: Vec<char>)
    ensures
        r@ == s@,
{
    let mut r = Vec::<char>::new();
    r.push(s[0]);
    r.push(s[1]);
    r.push(s[2]);
    r.push(s[3]);
    r.push(s[4]);
    proof {
        assert(r@ =~= s@);
    }
    r
}

} // verus!
