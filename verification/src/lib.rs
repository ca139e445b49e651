//! Codec for the fixed-width, ASCII, line-oriented command/response protocol
//! ("CAT") used by a family of amateur-radio transceivers.
//!
//! The crate turns structured domain values (frequency, operating mode,
//! memory-channel address, tone settings, clarifier offsets) into outbound
//! command frames and parses inbound reply frames back into the same values,
//! enforcing the exact fixed-width encoding the hardware expects. The serial
//! transport itself is an external collaborator: the codec only consumes and
//! produces byte buffers.

use vstd::prelude::*;

pub mod ftdx10;
pub mod ftx1;
pub mod hvec;
pub mod parsers;
pub mod records;

verus! {

/// The frame terminator byte, ASCII `;`.
pub const TERMINATOR: u8 = 59;

/// Capacity of the buffer that receives reply frames from the transport.
pub const RX_BUFFER_SIZE: usize = 255;

} // verus!
