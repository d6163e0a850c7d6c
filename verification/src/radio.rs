//! Model of the radio driver: it owns the transmit packet buffer, carries
//! the PDU most recently handed to the hardware, and computes the low-level
//! advertising-channel configuration values.

use vstd::prelude::*;
use crate::MAX_PDU_SIZE;

verus! {

broadcast use vstd::array::group_array_axioms;

/// The fixed access address of every advertising-channel PDU.
pub const ADVERTISING_ACCESS_ADDRESS: u32 = 0x8E89BED6;

/// Initial value of the 24-bit CRC on advertising channels.
pub const ADVERTISING_CRC_INIT: u32 = 0x555555;

/// The 24-bit CRC polynomial of the link layer.
pub const CRC_POLY: u32 = 0x0000065B;

/// Center frequency in MHz of an advertising channel (37, 38 or 39).
pub fn advertising_channel_frequency(channel: u8) -> (r: u16)
    requires
        37 <= channel <= 39,
    ensures
        r == if channel == 37 {
            2402u16
        } else if channel == 38 {
            2426u16
        } else {
            2480u16
        },
{
    if channel == 37 {
        2402
    } else if channel == 38 {
        2426
    } else {
        2480
    }
}

/// Whitening initialization for a channel: bit 6 set above the channel index.
pub fn whitening_iv(channel: u8) -> (r: u8)
    requires
        channel <= 39,
    ensures
        r == channel | 0x40,
{
    channel | 0x40
}

/// What the modeled radio is currently doing.
#[derive(Clone, Copy, Debug, PartialEq, Eq, Structural)]
pub enum RadioMode {
    Off,
    Transmitting,
    Listening,
}

/// The radio driver model. It owns the single transmit packet buffer for its
/// whole lifetime; no other code writes it.
#[derive(Clone, Debug)]
pub struct BleRadio {
    pub tx_buf: Vec<u8>,
    pub pdu_len: usize,
    pub mode: RadioMode,
}

impl BleRadio {
    /// The transmit buffer keeps its fixed size and the loaded PDU fits it.
    pub open spec fn wf(self) -> bool {
        &&& self.tx_buf@.len() == MAX_PDU_SIZE + 1
        &&& self.pdu_len <= MAX_PDU_SIZE
    }

    /// The PDU currently loaded for transmission.
    pub open spec fn spec_tx_pdu(self) -> Seq<u8> {
        self.tx_buf@.take(self.pdu_len as int)
    }

    /// Takes ownership of the transmit buffer.
    pub fn new(tx_buf: Vec<u8>) -> (r: BleRadio)
        requires
            tx_buf@.len() == MAX_PDU_SIZE + 1,
        ensures
            r.wf(),
            r.mode == RadioMode::Off,
            r.pdu_len == 0,
            r.tx_buf@ == tx_buf@,
    {
        BleRadio { tx_buf, pdu_len: 0, mode: RadioMode::Off }
    }

    /// Copies the PDU into the transmit buffer and starts transmitting it.
    pub fn transmit(&mut self, pdu: &Vec<u8>)
        requires
            old(self).wf(),
            pdu@.len() <= MAX_PDU_SIZE,
        ensures
            final(self).wf(),
            final(self).mode == RadioMode::Transmitting,
            final(self).spec_tx_pdu() == pdu@,
            final(self).pdu_len == pdu@.len(),
    {
        let mut i: usize = 0;
        while i < pdu.len()
            invariant
                i <= pdu@.len(),
                pdu@.len() <= MAX_PDU_SIZE,
                self.tx_buf@.len() == MAX_PDU_SIZE + 1,
                forall|m: int| 0 <= m < i ==> self.tx_buf@[m] == pdu@[m],
            decreases pdu@.len() - i,
        {
            self.tx_buf[i] = pdu[i];
            i += 1;
        }
        self.pdu_len = pdu.len();
        self.mode = RadioMode::Transmitting;
        proof {
            assert(self.tx_buf@.take(self.pdu_len as int) =~= pdu@);
        }
    }

    /// Arms the receiver; the transmit buffer is left as it is.
    pub fn listen(&mut self)
        requires
            old(self).wf(),
        ensures
            final(self).wf(),
            final(self).mode == RadioMode::Listening,
            final(self).tx_buf@ == old(self).tx_buf@,
            final(self).pdu_len == old(self).pdu_len,
            final(self).spec_tx_pdu() == old(self).spec_tx_pdu(),
    {
        self.mode = RadioMode::Listening;
    }

    /// The loaded PDU, copied out for inspection.
    pub fn loaded_pdu(&self) -> (r: Vec<u8>)
        requires
            self.wf(),
        ensures
            r@ == self.spec_tx_pdu(),
    {
        let mut out: Vec<u8> = Vec::new();
        let mut i: usize = 0;
        while i < self.pdu_len
            invariant
                i <= self.pdu_len,
                self.wf(),
                out@ == self.tx_buf@.take(i as int),
            decreases self.pdu_len - i,
        {
            out.push(self.tx_buf[i]);
            proof {
                assert(self.tx_buf@.take(i as int) + seq![self.tx_buf@[i as int]]
                    =~= self.tx_buf@.take(i as int + 1));
            }
            i += 1;
        }
        out
    }
}

/// A fresh, zeroed packet buffer of the fixed size every buffer has.
pub fn packet_buffer() -> (r: Vec<u8>)
    ensures
        r@.len() == MAX_PDU_SIZE + 1,
        forall|m: int| 0 <= m < r@.len() ==> r@[m] == 0u8,
{
    let mut out: Vec<u8> = Vec::new();
    let mut i: usize = 0;
    while i < MAX_PDU_SIZE + 1
        invariant
            i <= MAX_PDU_SIZE + 1,
            out@.len() == i,
            forall|m: int| 0 <= m < i ==> out@[m] == 0u8,
        decreases MAX_PDU_SIZE + 1 - i,
    {
        out.push(0u8);
        i += 1;
    }
    out
}

} // verus!
