//! Device identity, advertising-channel PDUs, and the link-layer state
//! machine that decides what the radio does on every interrupt.

use vstd::prelude::*;
use crate::ad_structure::{ads_model, encode_ads, spec_encode_ads, AdStructure, ConfigError};
use crate::time::Duration;
use crate::{MAX_AD_DATA_SIZE, MAX_PDU_SIZE};

verus! {

/// Whether a device address is factory-assigned public or random.
#[derive(Clone, Copy, Debug, PartialEq, Eq, Structural)]
pub enum AddressKind {
    Public,
    Random,
}

/// A 48-bit device address, least-significant byte first, with its kind.
#[derive(Clone, Copy, Debug, PartialEq, Eq)]
pub struct DeviceAddress {
    pub bytes: [u8; 6],
    pub kind: AddressKind,
}

/// Relies on byteorder's `LittleEndian::write_u32`: stores the integer's
/// four bytes least-significant first.
#[verifier::external_body]
fn u32_to_le_bytes(n: u32) -> (r: [u8; 4])
    ensures
        r@.len() == 4,
        r@[0] == (n & 0xff) as u8,
        r@[1] == ((n >> 8u32) & 0xff) as u8,
        r@[2] == ((n >> 16u32) & 0xff) as u8,
        r@[3] == ((n >> 24u32) & 0xff) as u8,
{
    let mut buf = [0u8; 4];
    <byteorder::LittleEndian as byteorder::ByteOrder>::write_u32(&mut buf, n);
    buf
}

/// Relies on byteorder's `LittleEndian::write_u16`: stores the integer's
/// two bytes least-significant first.
#[verifier::external_body]
fn u16_to_le_bytes(n: u16) -> (r: [u8; 2])
    ensures
        r@.len() == 2,
        r@[0] == (n & 0xff) as u8,
        r@[1] == ((n >> 8u16) & 0xff) as u8,
{
    let mut buf = [0u8; 2];
    <byteorder::LittleEndian as byteorder::ByteOrder>::write_u16(&mut buf, n);
    buf
}

impl DeviceAddress {
    pub fn new(bytes: [u8; 6], kind: AddressKind) -> (r: DeviceAddress)
        ensures
            r.bytes@ == bytes@,
            r.kind == kind,
    {
        DeviceAddress { bytes, kind }
    }

    /// Builds the address from the two factory words that hold it, the low
    /// 32 bits and the high 16 bits, laid out least-significant byte first.
    pub fn from_factory_words(lo: u32, hi: u16, kind: AddressKind) -> (r: DeviceAddress)
        ensures
            r.kind == kind,
            r.bytes@ =~= seq![
                (lo & 0xff) as u8,
                ((lo >> 8u32) & 0xff) as u8,
                ((lo >> 16u32) & 0xff) as u8,
                ((lo >> 24u32) & 0xff) as u8,
                (hi & 0xff) as u8,
                ((hi >> 8u16) & 0xff) as u8,
            ],
    {
        let l = u32_to_le_bytes(lo);
        let h = u16_to_le_bytes(hi);
        let bytes: [u8; 6] = [l[0], l[1], l[2], l[3], h[0], h[1]];
        DeviceAddress { bytes, kind }
    }
}

/// Advertising PDU type: scannable undirected advertising.
pub const PDU_TYPE_ADV_SCAN_IND: u8 = 0x06;

/// Advertising PDU type: scan request.
pub const PDU_TYPE_SCAN_REQ: u8 = 0x03;

/// Advertising PDU type: scan response.
pub const PDU_TYPE_SCAN_RSP: u8 = 0x04;

/// Header bit that marks the sender's address as random (TxAdd).
pub const HEADER_TXADD_RANDOM: u8 = 0x40;

/// Header bit that marks the receiver's address as random (RxAdd).
pub const HEADER_RXADD_RANDOM: u8 = 0x80;

/// First header byte of a PDU we send: type code plus our TxAdd bit.
pub open spec fn spec_header0(pdu_type: u8, kind: AddressKind) -> u8 {
    if kind == AddressKind::Random {
        pdu_type | HEADER_TXADD_RANDOM
    } else {
        pdu_type
    }
}

/// Bytes of the advertising PDU: header, advertiser address, encoded
/// advertising data.
pub open spec fn spec_adv_pdu(addr: DeviceAddress, ad: Seq<u8>) -> Seq<u8> {
    seq![spec_header0(PDU_TYPE_ADV_SCAN_IND, addr.kind), (6 + ad.len()) as u8]
        + addr.bytes@ + ad
}

/// Bytes of our scan response: header and advertiser address, with no
/// scan-response data.
pub open spec fn spec_scan_rsp_pdu(addr: DeviceAddress) -> Seq<u8> {
    seq![spec_header0(PDU_TYPE_SCAN_RSP, addr.kind), 6u8] + addr.bytes@
}

/// A well-formed scan request addressed to `addr`: 2 header bytes, 6
/// scanner-address bytes, 6 advertiser-address bytes, with the advertiser
/// address and its RxAdd kind bit matching ours.
pub open spec fn spec_is_scan_req_for(addr: DeviceAddress, pdu: Seq<u8>) -> bool {
    &&& pdu.len() == 14
    &&& pdu[0] & 0x0f == PDU_TYPE_SCAN_REQ
    &&& pdu[1] == 12
    &&& ((pdu[0] & HEADER_RXADD_RANDOM) != 0) == (addr.kind == AddressKind::Random)
    &&& pdu.subrange(8, 14) == addr.bytes@
}

fn exec_header0(pdu_type: u8, kind: AddressKind) -> (r: u8)
    ensures
        r == spec_header0(pdu_type, kind),
{
    if kind == AddressKind::Random {
        pdu_type | HEADER_TXADD_RANDOM
    } else {
        pdu_type
    }
}

/// Builds the advertising PDU for this device around already-encoded
/// advertising data.
pub fn build_adv_pdu(addr: &DeviceAddress, ad: &Vec<u8>) -> (r: Vec<u8>)
    requires
        ad@.len() <= MAX_AD_DATA_SIZE,
    ensures
        r@ == spec_adv_pdu(*addr, ad@),
        r@.len() == 8 + ad@.len(),
        r@.len() <= MAX_PDU_SIZE,
{
    let mut out: Vec<u8> = Vec::new();
    out.push(exec_header0(PDU_TYPE_ADV_SCAN_IND, addr.kind));
    out.push((6 + ad.len()) as u8);
    let ghost hdr = out@;
    let mut k: usize = 0;
    while k < 6
        invariant
            k <= 6,
            out@ == hdr + addr.bytes@.take(k as int),
        decreases 6 - k,
    {
        out.push(addr.bytes[k]);
        proof {
            assert(hdr + addr.bytes@.take(k as int) + seq![addr.bytes@[k as int]]
                =~= hdr + addr.bytes@.take(k as int + 1));
        }
        k += 1;
    }
    let ghost mid = out@;
    let mut j: usize = 0;
    while j < ad.len()
        invariant
            j <= ad@.len(),
            out@ == mid + ad@.take(j as int),
        decreases ad@.len() - j,
    {
        out.push(ad[j]);
        proof {
            assert(mid + ad@.take(j as int) + seq![ad@[j as int]]
                =~= mid + ad@.take(j as int + 1));
        }
        j += 1;
    }
    proof {
        assert(addr.bytes@.take(6) =~= addr.bytes@);
        assert(ad@.take(ad@.len() as int) =~= ad@);
        assert(out@ =~= spec_adv_pdu(*addr, ad@));
    }
    out
}

/// Builds our scan response PDU.
pub fn build_scan_rsp_pdu(addr: &DeviceAddress) -> (r: Vec<u8>)
    ensures
        r@ == spec_scan_rsp_pdu(*addr),
        r@.len() == 8,
{
    let mut out: Vec<u8> = Vec::new();
    out.push(exec_header0(PDU_TYPE_SCAN_RSP, addr.kind));
    out.push(6u8);
    let ghost hdr = out@;
    let mut k: usize = 0;
    while k < 6
        invariant
            k <= 6,
            out@ == hdr + addr.bytes@.take(k as int),
        decreases 6 - k,
    {
        out.push(addr.bytes[k]);
        proof {
            assert(hdr + addr.bytes@.take(k as int) + seq![addr.bytes@[k as int]]
                =~= hdr + addr.bytes@.take(k as int + 1));
        }
        k += 1;
    }
    proof {
        assert(addr.bytes@.take(6) =~= addr.bytes@);
        assert(out@ =~= spec_scan_rsp_pdu(*addr));
    }
    out
}

/// Structural and address check of a received PDU: true exactly when it is
/// a well-formed scan request addressed to this device.
pub fn is_scan_request_for(addr: &DeviceAddress, pdu: &Vec<u8>) -> (r: bool)
    ensures
        r == spec_is_scan_req_for(*addr, pdu@),
{
    if pdu.len() != 14 {
        return false;
    }
    if pdu[0] & 0x0f != PDU_TYPE_SCAN_REQ {
        return false;
    }
    if pdu[1] != 12 {
        return false;
    }
    let rx_random = (pdu[0] & HEADER_RXADD_RANDOM) != 0;
    let we_random = addr.kind == AddressKind::Random;
    if rx_random != we_random {
        return false;
    }
    let mut k: usize = 0;
    while k < 6
        invariant
            k <= 6,
            pdu@.len() == 14,
            forall|m: int| 0 <= m < k ==> pdu@[8 + m] == addr.bytes@[m],
        decreases 6 - k,
    {
        if pdu[8 + k] != addr.bytes[k] {
            proof {
                assert(pdu@.subrange(8, 14)[k as int] != addr.bytes@[k as int]);
            }
            return false;
        }
        k += 1;
    }
    proof {
        assert(pdu@.subrange(8, 14) =~= addr.bytes@);
    }
    true
}

/// The completion outcome a radio interrupt reports: our transmission
/// finished, or a PDU arrived (with the hardware's CRC verdict).
#[derive(Clone, Debug, PartialEq, Eq)]
pub enum RadioOutcome {
    TxDone,
    RxDone { pdu: Vec<u8>, crc_ok: bool },
}

/// What the link layer asks the radio to do next.
#[derive(Clone, Debug, PartialEq, Eq)]
pub enum RadioAction {
    Transmit(Vec<u8>),
    Listen,
}

/// Behavioral state of the link layer: nothing scheduled, or free-running
/// periodic advertising with a prebuilt PDU and an event counter.
#[derive(Clone, Debug)]
pub enum LinkState {
    Idle,
    Advertising { interval: Duration, pdu: Vec<u8>, adv_count: u64 },
}

/// The link-layer state machine: device identity plus behavioral state.
/// Driven exclusively through the baseband scheduler; it never touches
/// hardware itself.
#[derive(Clone, Debug)]
pub struct LinkLayer {
    pub addr: DeviceAddress,
    pub state: LinkState,
}

/// The advertising event counter's step: one up, wrapping at the top.
pub open spec fn inc64(n: u64) -> u64 {
    if n == u64::MAX {
        0
    } else {
        (n + 1) as u64
    }
}

fn copy_bytes(v: &Vec<u8>) -> (r: Vec<u8>)
    ensures
        r@ == v@,
{
    let mut out: Vec<u8> = Vec::new();
    let mut i: usize = 0;
    while i < v.len()
        invariant
            i <= v@.len(),
            out@ == v@.take(i as int),
        decreases v@.len() - i,
    {
        out.push(v[i]);
        proof {
            assert(v@.take(i as int) + seq![v@[i as int]] =~= v@.take(i as int + 1));
        }
        i += 1;
    }
    proof {
        assert(v@.take(v@.len() as int) =~= v@);
    }
    out
}

impl LinkLayer {
    /// While advertising, the interval is well-formed and the prebuilt PDU
    /// fits the transmit buffer.
    pub open spec fn wf(self) -> bool {
        match self.state {
            LinkState::Idle => true,
            LinkState::Advertising { interval, pdu, .. } => {
                &&& interval.wf()
                &&& pdu@.len() <= MAX_PDU_SIZE
            },
        }
    }

    pub open spec fn spec_is_advertising(self) -> bool {
        self.state is Advertising
    }

    /// The advertising interval; meaningful only while advertising.
    pub open spec fn spec_interval(self) -> Duration {
        match self.state {
            LinkState::Advertising { interval, .. } => interval,
            LinkState::Idle => Duration { secs: 0, micros: 0 },
        }
    }

    /// The prebuilt advertising PDU; empty while idle.
    pub open spec fn spec_pdu(self) -> Seq<u8> {
        match self.state {
            LinkState::Advertising { pdu, .. } => pdu@,
            LinkState::Idle => Seq::empty(),
        }
    }

    /// The advertising event counter; zero while idle.
    pub open spec fn spec_count(self) -> u64 {
        match self.state {
            LinkState::Advertising { adv_count, .. } => adv_count,
            LinkState::Idle => 0,
        }
    }

    pub fn new(addr: DeviceAddress) -> (r: LinkLayer)
        ensures
            r.addr == addr,
            r.state is Idle,
            r.wf(),
    {
        LinkLayer { addr, state: LinkState::Idle }
    }

    /// Validates the payload against the advertising-data budget, builds the
    /// canonical advertising PDU, enters the Advertising state, and returns
    /// the first wakeup deadline (one interval from now). Fails, leaving the
    /// state untouched, exactly when the encoded payload exceeds the budget.
    pub fn start_advertise(&mut self, interval: Duration, ads: &Vec<AdStructure>) -> (r:
        Result<Duration, ConfigError>)
        requires
            interval.wf(),
        ensures
            final(self).addr == old(self).addr,
            match r {
                Ok(d) => {
                    &&& spec_encode_ads(ads_model(ads@)).len() <= MAX_AD_DATA_SIZE
                    &&& d == interval
                    &&& final(self).wf()
                    &&& final(self).spec_is_advertising()
                    &&& final(self).spec_interval() == interval
                    &&& final(self).spec_pdu() == spec_adv_pdu(
                        old(self).addr,
                        spec_encode_ads(ads_model(ads@)),
                    )
                    &&& final(self).spec_count() == 0
                },
                Err(_) => {
                    &&& spec_encode_ads(ads_model(ads@)).len() > MAX_AD_DATA_SIZE
                    &&& *final(self) == *old(self)
                },
            },
    {
        let ad = match encode_ads(ads) {
            Ok(v) => v,
            Err(e) => {
                return Err(e);
            },
        };
        let pdu = build_adv_pdu(&self.addr, &ad);
        self.state = LinkState::Advertising { interval, pdu, adv_count: 0 };
        Ok(interval)
    }

    /// Timer-expiry step. While advertising: advance the event counter,
    /// request retransmission of the advertising PDU, and schedule the next
    /// event one interval ahead. While idle: do nothing and leave the timer
    /// stopped. Safe against a spurious extra invocation: each call advances
    /// the counter exactly one step and changes nothing else.
    pub fn on_timer_event(&mut self) -> (r: (Option<RadioAction>, Option<Duration>))
        requires
            old(self).wf(),
        ensures
            final(self).wf(),
            final(self).addr == old(self).addr,
            !old(self).spec_is_advertising() ==> {
                &&& *final(self) == *old(self)
                &&& r.0 is None
                &&& r.1 is None
            },
            old(self).spec_is_advertising() ==> {
                &&& final(self).spec_is_advertising()
                &&& final(self).spec_interval() == old(self).spec_interval()
                &&& final(self).spec_pdu() == old(self).spec_pdu()
                &&& final(self).spec_count() == inc64(old(self).spec_count())
                &&& match r.0 {
                    Some(RadioAction::Transmit(p)) => p@ == old(self).spec_pdu(),
                    _ => false,
                }
                &&& r.1 == Some(old(self).spec_interval())
            },
    {
        match &self.state {
            LinkState::Idle => (None, None),
            LinkState::Advertising { interval, pdu, adv_count } => {
                let iv = *interval;
                let n = *adv_count;
                let kept = copy_bytes(pdu);
                let to_send = copy_bytes(pdu);
                let next = if n == u64::MAX {
                    0
                } else {
                    n + 1
                };
                self.state = LinkState::Advertising { interval: iv, pdu: kept, adv_count: next };
                (Some(RadioAction::Transmit(to_send)), Some(iv))
            },
        }
    }

    /// Radio-completion step. While advertising: after our own transmission
    /// completes, arm the receiver for the response window; on a received
    /// scan request addressed to us, request the scan-response transmission;
    /// any other traffic is irrelevant, keep listening. Never returns a new
    /// deadline: the pending advertising schedule continues to govern, and a
    /// logically simultaneous timer deadline is superseded only by what the
    /// next timer event itself does.
    pub fn on_radio_event(&mut self, outcome: RadioOutcome) -> (r: (
        Option<RadioAction>,
        Option<Duration>,
    ))
        requires
            old(self).wf(),
        ensures
            *final(self) == *old(self),
            r.1 is None,
            !old(self).spec_is_advertising() ==> r.0 is None,
            old(self).spec_is_advertising() ==> match outcome {
                RadioOutcome::TxDone => r.0 == Some(RadioAction::Listen),
                RadioOutcome::RxDone { pdu, crc_ok } => {
                    if crc_ok && spec_is_scan_req_for(old(self).addr, pdu@) {
                        match r.0 {
                            Some(RadioAction::Transmit(p)) => p@ == spec_scan_rsp_pdu(
                                old(self).addr,
                            ),
                            _ => false,
                        }
                    } else {
                        r.0 == Some(RadioAction::Listen)
                    }
                },
            },
    {
        match &self.state {
            LinkState::Idle => (None, None),
            LinkState::Advertising { .. } => {
                match outcome {
                    RadioOutcome::TxDone => (Some(RadioAction::Listen), None),
                    RadioOutcome::RxDone { pdu, crc_ok } => {
                        if crc_ok && is_scan_request_for(&self.addr, &pdu) {
                            (Some(RadioAction::Transmit(build_scan_rsp_pdu(&self.addr))), None)
                        } else {
                            (Some(RadioAction::Listen), None)
                        }
                    },
                }
            },
        }
    }
}

} // verus!
