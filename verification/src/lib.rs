//! Link-layer core of a Bluetooth Low Energy peripheral advertiser.
//!
//! The crate models the pieces of a BLE advertising stack that decide what the
//! radio does next and when the next timer event must occur: the advertising
//! payload codec, the link-layer state machine, the baseband scheduler that
//! serializes the two interrupt sources, and the timer scheduling service.
//! Hardware register access stays outside; the library works on plain values.

use vstd::prelude::*;

pub mod ad_structure;
pub mod baseband;
pub mod link;
pub mod radio;
pub mod time;
pub mod timer;

verus! {

/// Largest advertising-channel PDU: a 2-byte header plus up to 37 bytes of
/// payload (6-byte advertiser address and up to 31 bytes of advertising data).
pub const MAX_PDU_SIZE: usize = 39;

/// Budget for the encoded advertising-data structures inside one PDU.
pub const MAX_AD_DATA_SIZE: usize = 31;

} // verus!
