//! The command set variant that exchanges frames through fixed-capacity
//! `heapless` buffers: band/mode selection, power control, transmit toggle
//! and identification.

use vstd::prelude::*;

use crate::RX_BUFFER_SIZE;
use crate::TERMINATOR;
use crate::ftx1::frame_bytes;
use crate::hvec::{
    hrx_contains, hrx_get, hrx_len, hv8_new, hv8_push, hvc_get, hvc_len, hvc_new, hvc_push,
    hvec_bytes, hvec_chars, hvec_rx_bytes,
};
use crate::parsers::{
    all_digits, buf3_to_u8, buf4_to_u16, char_digits_of, char_digits_vec, digits_of, digits_val,
    lemma_char_digits_byte_digits, lemma_char_digits_of_wf,
};

verus! {

//------------------------------------
// Band
//------------------------------------
/// Which of the two receivers a command addresses.
#[derive(Debug, Clone, Copy, PartialEq, Eq, Structural)]
pub enum Band {
    Main,
    Sub,
}

/// The single wire character of each band.
pub open spec fn band_code(b: Band) -> char {
    match b {
        Band::Main => '0',
        Band::Sub => '1',
    }
}

/// Wire decoding of the band character: the inverse lookup of `band_code`.
pub open spec fn band_from_char(c: char) -> Option<Band> {
    if c == '0' {
        Some(Band::Main)
    } else if c == '1' {
        Some(Band::Sub)
    } else {
        None
    }
}

impl Band {
    /// The wire character of this band.
    pub fn code(&self) -> (c: char)
        ensures
            c == band_code(*self),
    {
        match self {
            Band::Main => '0',
            Band::Sub => '1',
        }
    }

    pub fn try_from(item: char) -> (r: Result<Self, ()>)
        ensures
            r is Ok <==> band_from_char(item) is Some,
            r is Ok ==> Some(r->Ok_0) == band_from_char(item),
    {
        match item {
            '0' => Ok(Self::Main),
            '1' => Ok(Self::Sub),
            _ => Err(()),
        }
    }

    pub fn try_from_u8(item: u8) -> (r: Result<Self, ()>)
        ensures
            r is Ok <==> band_from_char(item as char) is Some,
            r is Ok ==> Some(r->Ok_0) == band_from_char(item as char),
    {
        Band::try_from(item as char)
    }
}

/// Law: decoding a band's wire character gives back the same band.
pub proof fn lemma_band_code_round_trip(b: Band)
    ensures
        band_from_char(band_code(b)) == Some(b),
{
}

//------------------------------------
// Mode
//------------------------------------
/// The operating mode of a band.
#[derive(Debug, Clone, Copy, PartialEq, Eq, Structural)]
pub enum Mode {
    Lsb,
    Usb,
    CwU,
    Fm,
    Am,
    RttyL,
    CwL,
    DataL,
    RttyU,
    DataFm,
    FmN,
    DataU,
    AmN,
    Psk,
    DataFmN,
}

/// The single wire character of each operating mode.
pub open spec fn mode_code(m: Mode) -> char {
    match m {
        Mode::Lsb => '1',
        Mode::Usb => '2',
        Mode::CwU => '3',
        Mode::Fm => '4',
        Mode::Am => '5',
        Mode::RttyL => '6',
        Mode::CwL => '7',
        Mode::DataL => '8',
        Mode::RttyU => '9',
        Mode::DataFm => 'A',
        Mode::FmN => 'B',
        Mode::DataU => 'C',
        Mode::AmN => 'D',
        Mode::Psk => 'E',
        Mode::DataFmN => 'F',
    }
}

/// Wire decoding of the mode character: the inverse lookup of `mode_code`.
pub open spec fn mode_from_char(c: char) -> Option<Mode> {
    if c == '1' {
        Some(Mode::Lsb)
    } else if c == '2' {
        Some(Mode::Usb)
    } else if c == '3' {
        Some(Mode::CwU)
    } else if c == '4' {
        Some(Mode::Fm)
    } else if c == '5' {
        Some(Mode::Am)
    } else if c == '6' {
        Some(Mode::RttyL)
    } else if c == '7' {
        Some(Mode::CwL)
    } else if c == '8' {
        Some(Mode::DataL)
    } else if c == '9' {
        Some(Mode::RttyU)
    } else if c == 'A' {
        Some(Mode::DataFm)
    } else if c == 'B' {
        Some(Mode::FmN)
    } else if c == 'C' {
        Some(Mode::DataU)
    } else if c == 'D' {
        Some(Mode::AmN)
    } else if c == 'E' {
        Some(Mode::Psk)
    } else if c == 'F' {
        Some(Mode::DataFmN)
    } else {
        None
    }
}

impl Mode {
    /// The wire character of this mode.
    pub fn code(&self) -> (c: char)
        ensures
            c == mode_code(*self),
    {
        match self {
            Mode::Lsb => '1',
            Mode::Usb => '2',
            Mode::CwU => '3',
            Mode::Fm => '4',
            Mode::Am => '5',
            Mode::RttyL => '6',
            Mode::CwL => '7',
            Mode::DataL => '8',
            Mode::RttyU => '9',
            Mode::DataFm => 'A',
            Mode::FmN => 'B',
            Mode::DataU => 'C',
            Mode::AmN => 'D',
            Mode::Psk => 'E',
            Mode::DataFmN => 'F',
        }
    }

    pub fn try_from(item: char) -> (r: Result<Self, ()>)
        ensures
            r is Ok <==> mode_from_char(item) is Some,
            r is Ok ==> Some(r->Ok_0) == mode_from_char(item),
    {
        match item {
            '1' => Ok(Self::Lsb),
            '2' => Ok(Self::Usb),
            '3' => Ok(Self::CwU),
            '4' => Ok(Self::Fm),
            '5' => Ok(Self::Am),
            '6' => Ok(Self::RttyL),
            '7' => Ok(Self::CwL),
            '8' => Ok(Self::DataL),
            '9' => Ok(Self::RttyU),
            'A' => Ok(Self::DataFm),
            'B' => Ok(Self::FmN),
            'C' => Ok(Self::DataU),
            'D' => Ok(Self::AmN),
            'E' => Ok(Self::Psk),
            'F' => Ok(Self::DataFmN),
            _ => Err(()),
        }
    }

    pub fn try_from_u8(item: u8) -> (r: Result<Self, ()>)
        ensures
            r is Ok <==> mode_from_char(item as char) is Some,
            r is Ok ==> Some(r->Ok_0) == mode_from_char(item as char),
    {
        Mode::try_from(item as char)
    }
}

/// Law: decoding a mode's wire character gives back the same mode.
pub proof fn lemma_mode_code_round_trip(m: Mode)
    ensures
        mode_from_char(mode_code(m)) == Some(m),
{
}

//------------------------------------
// Cmd
//------------------------------------
/// A command descriptor: the 2-character mnemonic and the exact number of
/// parameter bytes the matching reply carries.
#[derive(Debug, Clone, Copy)]
pub struct Cmd {
    pub code: [u8; 2],
    pub read_params: usize,
}

/// The parameter characters of an outbound frame, narrowed to bytes.
pub open spec fn hparams_bytes(params: Option<heapless::Vec<char, 8>>) -> Seq<u8> {
    match params {
        Some(p) => hvec_chars(p).map_values(|c: char| c as u8),
        None => Seq::<u8>::empty(),
    }
}

/// A reply buffer passes validation when it is at least 3 bytes long, carries
/// exactly the expected number of parameter bytes, and both mnemonic bytes
/// and the terminator byte occur somewhere in it. The two mnemonic bytes and
/// the terminator are membership tests, not positional checks.
pub open spec fn reply_ok(cmd: Cmd, b: Seq<u8>) -> bool {
    &&& b.len() >= 3
    &&& b.contains(cmd.code[0])
    &&& b.contains(cmd.code[1])
    &&& b.len() - 3 == cmd.read_params
    &&& b.contains(TERMINATOR)
}

impl Cmd {
    /// Build the outbound frame: mnemonic bytes, then the parameter
    /// characters if any, then the terminator. The buffer holds 8 bytes, so
    /// at most 5 parameter characters fit beside the mnemonic and the
    /// terminator.
    pub fn tx_buffer(&self, params: Option<heapless::Vec<char, 8>>) -> (r: heapless::Vec<u8, 8>)
        requires
            params is Some ==> hvec_chars(params->0).len() <= 5,
        ensures
            hvec_bytes(r) == frame_bytes(self.code, hparams_bytes(params)),
    {
        let mut tx_vec = hv8_new();
        hv8_push(&mut tx_vec, self.code[0]);
        hv8_push(&mut tx_vec, self.code[1]);
        if let Some(p) = &params {
            let n = hvc_len(p);
            let mut i: usize = 0;
            while i < n
                invariant
                    n == hvec_chars(*p).len(),
                    n <= 5,
                    0 <= i <= n,
                    hvec_bytes(tx_vec) =~= seq![self.code[0], self.code[1]] + hvec_chars(
                        *p,
                    ).subrange(0, i as int).map_values(|c: char| c as u8),
                decreases n - i,
            {
                let c = hvc_get(p, i);
                hv8_push(&mut tx_vec, c as u8);
                proof {
                    assert(hvec_chars(*p).subrange(0, i + 1).map_values(|c: char| c as u8)
                        =~= hvec_chars(*p).subrange(0, i as int).map_values(|c: char| c as u8).push(
                        hvec_chars(*p)[i as int] as u8,
                    ));
                }
                i += 1;
            }
            proof {
                assert(hvec_chars(*p).subrange(0, hvec_chars(*p).len() as int) =~= hvec_chars(*p));
            }
        }
        hv8_push(&mut tx_vec, TERMINATOR);
        proof {
            assert(hvec_bytes(tx_vec) =~= frame_bytes(self.code, hparams_bytes(params)));
        }
        tx_vec
    }

    /// Validate a received reply buffer against this descriptor.
    pub fn is_reply_ok(&self, rx_buffer: &heapless::Vec<u8, RX_BUFFER_SIZE>) -> (r: Result<(), ()>)
        ensures
            r is Ok <==> reply_ok(*self, hvec_rx_bytes(*rx_buffer)),
    {
        if hrx_len(rx_buffer) < 3 {
            return Err(());
        }
        let code0 = hrx_contains(rx_buffer, self.code[0]);
        let code1 = hrx_contains(rx_buffer, self.code[1]);
        let params = hrx_len(rx_buffer) - 3 == self.read_params;
        let terminator = hrx_contains(rx_buffer, TERMINATOR);
        if terminator && code0 && code1 && params {
            Ok(())
        } else {
            Err(())
        }
    }
}

/// The radio-model id that identifies this transceiver family.
/// Other known families answer 0362 (FTDX5000), 0670 (FT-991A),
/// 0681 (FTDX101D) and 0682 (FTDX101MP).
pub const FTDX10_ID: u16 = 761;

/// Identification command: mnemonic `ID`, 4 reply parameter bytes.
#[derive(Debug, Clone, Copy)]
pub struct CmdId {
    pub cmd: Cmd,
}

/// Operating-mode command: mnemonic `MD`, 2 reply parameter bytes.
#[derive(Debug, Clone, Copy)]
pub struct CmdMd {
    pub cmd: Cmd,
}

/// Power-control command: mnemonic `PC`, 3 reply parameter bytes; the set
/// range is 5 to 100 watts.
#[derive(Debug, Clone, Copy)]
pub struct CmdPc {
    pub cmd: Cmd,
}

/// Transmit-toggle command: mnemonic `TX`, 1 reply parameter byte.
#[derive(Debug, Clone, Copy)]
pub struct CmdTx {
    pub cmd: Cmd,
}

impl CmdMd {
    /// The descriptor is the fixed `MD` descriptor.
    pub open spec fn wf(self) -> bool {
        self.cmd.code[0] == 77 && self.cmd.code[1] == 68 && self.cmd.read_params == 2
    }

    pub fn new() -> (r: CmdMd)
        ensures
            r.wf(),
    {
        CmdMd { cmd: Cmd { code: [77, 68], read_params: 2 } }
    }

    /// The frame that sets the mode of one band: band character, then mode
    /// character.
    pub fn set(&self, band: &Band, mode: &Mode) -> (r: heapless::Vec<u8, 8>)
        requires
            self.wf(),
        ensures
            hvec_bytes(r) == frame_bytes(
                self.cmd.code,
                seq![band_code(*band) as u8, mode_code(*mode) as u8],
            ),
    {
        let mut params = hvc_new();
        hvc_push(&mut params, band.code());
        hvc_push(&mut params, mode.code());
        proof {
            assert(hvec_chars(params).map_values(|c: char| c as u8) =~= seq![
                band_code(*band) as u8,
                mode_code(*mode) as u8,
            ]);
        }
        self.cmd.tx_buffer(Some(params))
    }

    /// The frame that asks for the mode of one band.
    pub fn read(&self, band: Band) -> (r: heapless::Vec<u8, 8>)
        requires
            self.wf(),
        ensures
            hvec_bytes(r) == frame_bytes(self.cmd.code, seq![band_code(band) as u8]),
    {
        let mut params = hvc_new();
        hvc_push(&mut params, band.code());
        proof {
            assert(hvec_chars(params).map_values(|c: char| c as u8) =~= seq![
                band_code(band) as u8,
            ]);
        }
        self.cmd.tx_buffer(Some(params))
    }

    /// Parse a mode reply into the band and the mode.
    pub fn decode(&self, buffer: &heapless::Vec<u8, RX_BUFFER_SIZE>) -> (r: Result<
        (Band, Mode),
        (),
    >)
        requires
            self.wf(),
        ensures
            r is Ok <==> ({
                let b = hvec_rx_bytes(*buffer);
                &&& reply_ok(self.cmd, b)
                &&& band_from_char(b[2] as char) is Some
                &&& mode_from_char(b[3] as char) is Some
            }),
            r is Ok ==> ({
                let b = hvec_rx_bytes(*buffer);
                &&& Some(r->Ok_0.0) == band_from_char(b[2] as char)
                &&& Some(r->Ok_0.1) == mode_from_char(b[3] as char)
            }),
    {
        match self.cmd.is_reply_ok(buffer) {
            Ok(_) => {},
            Err(_) => {
                return Err(());
            },
        }
        let band = match Band::try_from_u8(hrx_get(buffer, 2)) {
            Ok(b) => b,
            Err(_) => {
                return Err(());
            },
        };
        let mode = match Mode::try_from_u8(hrx_get(buffer, 3)) {
            Ok(m) => m,
            Err(_) => {
                return Err(());
            },
        };
        Ok((band, mode))
    }
}

impl CmdId {
    /// The descriptor is the fixed `ID` descriptor.
    pub open spec fn wf(self) -> bool {
        self.cmd.code[0] == 73 && self.cmd.code[1] == 68 && self.cmd.read_params == 4
    }

    pub fn new() -> (r: CmdId)
        ensures
            r.wf(),
    {
        CmdId { cmd: Cmd { code: [73, 68], read_params: 4 } }
    }

    /// The frame that asks the radio for its id.
    pub fn read(&self) -> (r: heapless::Vec<u8, 8>)
        requires
            self.wf(),
        ensures
            hvec_bytes(r) == frame_bytes(self.cmd.code, Seq::<u8>::empty()),
    {
        self.cmd.tx_buffer(None)
    }

    /// Parse an id reply into the numeric radio-model id.
    pub fn decode(&self, buffer: &heapless::Vec<u8, RX_BUFFER_SIZE>) -> (r: Result<u16, ()>)
        requires
            self.wf(),
        ensures
            r is Ok <==> reply_ok(self.cmd, hvec_rx_bytes(*buffer)) && all_digits(
                hvec_rx_bytes(*buffer).subrange(2, 6),
            ),
            r is Ok ==> r->Ok_0 as int == digits_val(hvec_rx_bytes(*buffer).subrange(2, 6)),
    {
        match self.cmd.is_reply_ok(buffer) {
            Ok(_) => {},
            Err(_) => {
                return Err(());
            },
        }
        let field: [u8; 4] = [hrx_get(buffer, 2), hrx_get(buffer, 3), hrx_get(buffer, 4), hrx_get(
            buffer,
            5,
        )];
        proof {
            assert(field@ =~= hvec_rx_bytes(*buffer).subrange(2, 6));
        }
        buf4_to_u16(field.as_slice())
    }

    /// Accept exactly the one id of the target device family.
    pub fn validate(id: u16) -> (r: Result<(), ()>)
        ensures
            r is Ok <==> id == FTDX10_ID,
    {
        if id == FTDX10_ID {
            Ok(())
        } else {
            Err(())
        }
    }
}

impl CmdPc {
    /// The descriptor is the fixed `PC` descriptor.
    pub open spec fn wf(self) -> bool {
        self.cmd.code[0] == 80 && self.cmd.code[1] == 67 && self.cmd.read_params == 3
    }

    pub fn new() -> (r: CmdPc)
        ensures
            r.wf(),
    {
        CmdPc { cmd: Cmd { code: [80, 67], read_params: 3 } }
    }

    /// The frame that sets the output power; only 5 to 100 watts is accepted.
    pub fn set(&self, power: u8) -> (r: Result<heapless::Vec<u8, 8>, ()>)
        requires
            self.wf(),
        ensures
            r is Ok <==> 5 <= power <= 100,
            r is Ok ==> hvec_bytes(r->Ok_0) == frame_bytes(
                self.cmd.code,
                digits_of(power as int, 3),
            ),
    {
        if power < 5 || power > 100 {
            return Err(());
        }
        let chars = base_10_chars_3(power);
        let mut params = hvc_new();
        hvc_push(&mut params, chars[0]);
        hvc_push(&mut params, chars[1]);
        hvc_push(&mut params, chars[2]);
        proof {
            lemma_char_digits_of_wf(power as int, 3);
            lemma_char_digits_byte_digits(power as int, 3);
            assert(hvec_chars(params) =~= char_digits_of(power as int, 3));
        }
        Ok(self.cmd.tx_buffer(Some(params)))
    }

    /// The frame that asks for the output power.
    pub fn read(&self) -> (r: heapless::Vec<u8, 8>)
        requires
            self.wf(),
        ensures
            hvec_bytes(r) == frame_bytes(self.cmd.code, Seq::<u8>::empty()),
    {
        self.cmd.tx_buffer(None)
    }

    /// Parse a power reply; the 3-digit field must fit one byte.
    pub fn decode(&self, buffer: &heapless::Vec<u8, RX_BUFFER_SIZE>) -> (r: Result<u8, ()>)
        requires
            self.wf(),
        ensures
            r is Ok <==> ({
                let b = hvec_rx_bytes(*buffer);
                &&& reply_ok(self.cmd, b)
                &&& all_digits(b.subrange(2, 5))
                &&& digits_val(b.subrange(2, 5)) <= 255
            }),
            r is Ok ==> r->Ok_0 as int == digits_val(hvec_rx_bytes(*buffer).subrange(2, 5)),
    {
        match self.cmd.is_reply_ok(buffer) {
            Ok(_) => {},
            Err(_) => {
                return Err(());
            },
        }
        let field: [u8; 3] = [hrx_get(buffer, 2), hrx_get(buffer, 3), hrx_get(buffer, 4)];
        proof {
            assert(field@ =~= hvec_rx_bytes(*buffer).subrange(2, 5));
        }
        buf3_to_u8(field.as_slice())
    }
}

impl CmdTx {
    /// The descriptor is the fixed `TX` descriptor.
    pub open spec fn wf(self) -> bool {
        self.cmd.code[0] == 84 && self.cmd.code[1] == 88 && self.cmd.read_params == 1
    }

    pub fn new() -> (r: CmdTx)
        ensures
            r.wf(),
    {
        CmdTx { cmd: Cmd { code: [84, 88], read_params: 1 } }
    }

    /// The frame that keys or unkeys the transmitter: `1` on, `0` off.
    pub fn set(&self, tx: bool) -> (r: Result<heapless::Vec<u8, 8>, ()>)
        requires
            self.wf(),
        ensures
            r is Ok,
            r is Ok ==> hvec_bytes(r->Ok_0) == frame_bytes(
                self.cmd.code,
                seq![
                    if tx {
                        49u8
                    } else {
                        48u8
                    },
                ],
            ),
    {
        let mut params = hvc_new();
        hvc_push(
            &mut params,
            if tx {
                '1'
            } else {
                '0'
            },
        );
        proof {
            assert(hvec_chars(params).map_values(|c: char| c as u8) =~= seq![
                if tx {
                    49u8
                } else {
                    48u8
                },
            ]);
        }
        Ok(self.cmd.tx_buffer(Some(params)))
    }

    /// The frame that asks whether the transmitter is keyed.
    pub fn read(&self) -> (r: heapless::Vec<u8, 8>)
        requires
            self.wf(),
        ensures
            hvec_bytes(r) == frame_bytes(self.cmd.code, Seq::<u8>::empty()),
    {
        self.cmd.tx_buffer(None)
    }

    /// Parse a transmit reply: `0` means off, anything else means on.
    pub fn decode(&self, buffer: &heapless::Vec<u8, RX_BUFFER_SIZE>) -> (r: Result<bool, ()>)
        requires
            self.wf(),
        ensures
            r is Ok <==> reply_ok(self.cmd, hvec_rx_bytes(*buffer)),
            r is Ok ==> r->Ok_0 == (hvec_rx_bytes(*buffer)[2] != 48),
    {
        match self.cmd.is_reply_ok(buffer) {
            Ok(_) => {},
            Err(_) => {
                return Err(());
            },
        }
        Ok(hrx_get(buffer, 2) != 48)
    }
}

/// The three decimal digit characters of a byte value, hundreds first.
fn base_10_chars_3(n: u8) -> (r: [char; 3])
    ensures
        r@ == char_digits_of(n as int, 3),
{
    let v = char_digits_vec(n as u32, 3);
    proof {
        lemma_char_digits_of_wf(n as int, 3);
    }
    let r = [v[0], v[1], v[2]];
    proof {
        assert(r@ =~= char_digits_of(n as int, 3));
    }
    r
}

} // verus!
