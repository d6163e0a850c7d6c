//! The baseband scheduler: the single shared resource both interrupt
//! handlers touch. It glues the radio driver model to the link-layer state
//! machine and exposes exactly two entry points, one per interrupt source.
//!
//! Each entry point takes the scheduler by exclusive reference, so the two
//! handler bodies can never interleave against a partially mutated state:
//! any serial interleaving of the two events preserves the invariant, which
//! `deliver_events` states and proves for every event sequence at once.

use vstd::prelude::*;
use crate::link::{
    inc64, spec_is_scan_req_for, spec_scan_rsp_pdu, LinkLayer, RadioAction, RadioOutcome,
};
use crate::radio::{BleRadio, RadioMode};
use crate::time::Duration;
use crate::MAX_PDU_SIZE;

verus! {

/// One delivery from either interrupt source.
pub enum Event {
    Radio(RadioOutcome),
    Timer,
}

/// The receive buffer after the hardware leaves `pdu` in it: the received
/// bytes, capped at the buffer's fixed size, over the old remainder.
pub open spec fn spec_loaded(buf: Seq<u8>, pdu: Seq<u8>) -> Seq<u8> {
    if pdu.len() <= buf.len() {
        pdu + buf.skip(pdu.len() as int)
    } else {
        pdu.take(buf.len() as int)
    }
}

/// The scheduler: radio driver, receive packet buffer, link layer. A single
/// instance is created after hardware init and handed to both interrupt
/// handlers through an exclusive cell.
#[derive(Debug)]
pub struct Baseband {
    pub radio: BleRadio,
    pub rx_buf: Vec<u8>,
    pub ll: LinkLayer,
}

impl Baseband {
    pub open spec fn wf(self) -> bool {
        &&& self.radio.wf()
        &&& self.rx_buf@.len() == MAX_PDU_SIZE + 1
        &&& self.ll.wf()
    }

    /// Takes ownership of the radio driver, the receive buffer and the link
    /// layer.
    pub fn new(radio: BleRadio, rx_buf: Vec<u8>, ll: LinkLayer) -> (r: Baseband)
        requires
            radio.wf(),
            rx_buf@.len() == MAX_PDU_SIZE + 1,
            ll.wf(),
        ensures
            r.wf(),
            r.radio == radio,
            r.rx_buf == rx_buf,
            r.ll == ll,
    {
        Baseband { radio, rx_buf, ll }
    }

    /// Radio-event entry point: records received bytes in the receive
    /// buffer, forwards the outcome to the link layer, and applies the
    /// radio action it asks for. The link-layer state is untouched and the
    /// timer is never reprogrammed: a logically simultaneous timer deadline
    /// keeps governing the schedule.
    pub fn interrupt(&mut self, outcome: RadioOutcome) -> (r: Option<Duration>)
        requires
            old(self).wf(),
        ensures
            final(self).wf(),
            r is None,
            final(self).ll == old(self).ll,
            match outcome {
                RadioOutcome::RxDone { pdu, .. } => final(self).rx_buf@ == spec_loaded(
                    old(self).rx_buf@,
                    pdu@,
                ),
                RadioOutcome::TxDone => final(self).rx_buf@ == old(self).rx_buf@,
            },
            !old(self).ll.spec_is_advertising() ==> final(self).radio == old(self).radio,
            old(self).ll.spec_is_advertising() ==> match outcome {
                RadioOutcome::TxDone => {
                    &&& final(self).radio.mode == RadioMode::Listening
                    &&& final(self).radio.spec_tx_pdu() == old(self).radio.spec_tx_pdu()
                },
                RadioOutcome::RxDone { pdu, crc_ok } => {
                    if crc_ok && spec_is_scan_req_for(old(self).ll.addr, pdu@) {
                        &&& final(self).radio.mode == RadioMode::Transmitting
                        &&& final(self).radio.spec_tx_pdu() == spec_scan_rsp_pdu(old(self).ll.addr)
                    } else {
                        &&& final(self).radio.mode == RadioMode::Listening
                        &&& final(self).radio.spec_tx_pdu() == old(self).radio.spec_tx_pdu()
                    }
                },
            },
    {
        if let RadioOutcome::RxDone { pdu, .. } = &outcome {
            let n = if pdu.len() <= MAX_PDU_SIZE + 1 {
                pdu.len()
            } else {
                MAX_PDU_SIZE + 1
            };
            let mut i: usize = 0;
            while i < n
                invariant
                    i <= n,
                    n <= pdu@.len(),
                    n <= MAX_PDU_SIZE + 1,
                    n == if pdu@.len() <= MAX_PDU_SIZE + 1 {
                        pdu@.len() as int
                    } else {
                        MAX_PDU_SIZE + 1
                    },
                    self.rx_buf@.len() == MAX_PDU_SIZE + 1,
                    forall|m: int| 0 <= m < i ==> self.rx_buf@[m] == pdu@[m],
                    forall|m: int| i <= m < self.rx_buf@.len() ==> self.rx_buf@[m] == old(
                        self,
                    ).rx_buf@[m],
                    self.radio == old(self).radio,
                    self.ll == old(self).ll,
                decreases n - i,
            {
                self.rx_buf[i] = pdu[i];
                i += 1;
            }
            proof {
                if pdu@.len() <= MAX_PDU_SIZE + 1 {
                    assert(self.rx_buf@ =~= spec_loaded(old(self).rx_buf@, pdu@));
                } else {
                    assert(self.rx_buf@ =~= spec_loaded(old(self).rx_buf@, pdu@));
                }
            }
        }
        let (action, deadline) = self.ll.on_radio_event(outcome);
        match action {
            Some(RadioAction::Transmit(p)) => {
                self.radio.transmit(&p);
            },
            Some(RadioAction::Listen) => {
                self.radio.listen();
            },
            None => {},
        }
        deadline
    }

    /// Timer-event entry point: forwards to the link layer's timer step and
    /// applies the radio action it asks for. While advertising this requests
    /// one transmission of the advertising PDU, advances the event counter by
    /// exactly one step, and returns one interval as the next deadline; while
    /// idle it changes nothing and stops the timer. A spurious extra call,
    /// as the documented stale-latch race can make, is therefore tolerated.
    pub fn update(&mut self) -> (r: Option<Duration>)
        requires
            old(self).wf(),
        ensures
            final(self).wf(),
            final(self).ll.addr == old(self).ll.addr,
            final(self).rx_buf@ == old(self).rx_buf@,
            !old(self).ll.spec_is_advertising() ==> {
                &&& *final(self) == *old(self)
                &&& r is None
            },
            old(self).ll.spec_is_advertising() ==> {
                &&& final(self).ll.spec_is_advertising()
                &&& final(self).ll.spec_interval() == old(self).ll.spec_interval()
                &&& final(self).ll.spec_pdu() == old(self).ll.spec_pdu()
                &&& final(self).ll.spec_count() == inc64(old(self).ll.spec_count())
                &&& final(self).radio.mode == RadioMode::Transmitting
                &&& final(self).radio.spec_tx_pdu() == old(self).ll.spec_pdu()
                &&& r == Some(old(self).ll.spec_interval())
            },
    {
        let (action, deadline) = self.ll.on_timer_event();
        match action {
            Some(RadioAction::Transmit(p)) => {
                self.radio.transmit(&p);
            },
            Some(RadioAction::Listen) => {
                self.radio.listen();
            },
            None => {},
        }
        deadline
    }
}

/// Timer events in a delivery sequence.
pub open spec fn count_timer_events(evs: Seq<Event>) -> nat
    decreases evs.len(),
{
    if evs.len() == 0 {
        0
    } else {
        count_timer_events(evs.drop_last()) + if evs.last() is Timer {
            1nat
        } else {
            0nat
        }
    }
}

/// The counter after `k` timer steps.
pub open spec fn iter_inc(n: u64, k: nat) -> u64
    decreases k,
{
    if k == 0 {
        n
    } else {
        inc64(iter_inc(n, (k - 1) as nat))
    }
}

/// Law: any serial interleaving of radio-complete and timer-expiry events —
/// the only way the two handlers can ever run, since both take the scheduler
/// by exclusive reference — leaves the scheduler well-formed, never disturbs
/// the device identity or the advertising configuration, and advances the
/// advertising event counter by exactly one step per timer event.
pub fn deliver_events(bb: &mut Baseband, events: Vec<Event>)
    requires
        old(bb).wf(),
    ensures
        final(bb).wf(),
        final(bb).ll.addr == old(bb).ll.addr,
        !old(bb).ll.spec_is_advertising() ==> final(bb).ll == old(bb).ll,
        old(bb).ll.spec_is_advertising() ==> {
            &&& final(bb).ll.spec_is_advertising()
            &&& final(bb).ll.spec_interval() == old(bb).ll.spec_interval()
            &&& final(bb).ll.spec_pdu() == old(bb).ll.spec_pdu()
            &&& final(bb).ll.spec_count() == iter_inc(
                old(bb).ll.spec_count(),
                count_timer_events(events@),
            )
        },
{
    let ghost total: nat = count_timer_events(events@);
    let ghost mut processed: nat = 0;
    let mut remaining = events;
    while remaining.len() > 0
        invariant
            bb.wf(),
            bb.ll.addr == old(bb).ll.addr,
            count_timer_events(remaining@) + processed == total,
            !old(bb).ll.spec_is_advertising() ==> bb.ll == old(bb).ll,
            old(bb).ll.spec_is_advertising() ==> {
                &&& bb.ll.spec_is_advertising()
                &&& bb.ll.spec_interval() == old(bb).ll.spec_interval()
                &&& bb.ll.spec_pdu() == old(bb).ll.spec_pdu()
                &&& bb.ll.spec_count() == iter_inc(old(bb).ll.spec_count(), processed)
            },
        decreases remaining@.len(),
    {
        let ev = remaining.pop().unwrap();
        match ev {
            Event::Radio(outcome) => {
                let _ = bb.interrupt(outcome);
            },
            Event::Timer => {
                proof {
                    processed = processed + 1;
                }
                let _ = bb.update();
            },
        }
    }
}

} // verus!
