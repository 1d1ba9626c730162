//! Flow Control Coordinator, receive side: decides which Flow Control
//! frame to answer a First Frame (or a still-pending block) with. It
//! advertises the configured block size and separation time, asks the
//! sender to wait while the local buffer is not ready — at most
//! `wftmax` consecutive times before it must give up — and signals
//! overflow for a message the receiver cannot hold.

use vstd::prelude::*;

use crate::codec::FlowStatus;
use crate::codec::Pdu;
use crate::codec::PduV;
use crate::options::flag_set;
use crate::options::FlowControlOptions;
use crate::options::IsoTpOptions;
use crate::options::CAN_ISOTP_LISTEN_MODE;

verus! {

/// The mathematical shape of a `FlowControlCoordinator`.
pub struct FlowControlCoordinatorV {
    pub bs: u8,
    pub stmin: u8,
    pub wftmax: u8,
    pub waits_sent: u8,
}

/// The receive-side flow-control decision maker of one session.
pub struct FlowControlCoordinator {
    /// The block size to advertise; 0 = unlimited.
    bs: u8,
    /// The separation time to advertise, in wire format.
    stmin: u8,
    /// How many consecutive Wait frames may go out before the receiver
    /// must accept or signal overflow.
    wftmax: u8,
    /// Consecutive Wait frames sent since the last grant.
    waits_sent: u8,
}

impl View for FlowControlCoordinator {
    type V = FlowControlCoordinatorV;

    closed spec fn view(&self) -> FlowControlCoordinatorV {
        FlowControlCoordinatorV {
            bs: self.bs,
            stmin: self.stmin,
            wftmax: self.wftmax,
            waits_sent: self.waits_sent,
        }
    }
}

impl FlowControlCoordinator {
    /// A fresh coordinator advertising the given flow-control options.
    pub fn new(opts: &FlowControlOptions) -> (r: FlowControlCoordinator)
        ensures
            r@.bs == opts@.bs,
            r@.stmin == opts@.stmin,
            r@.wftmax == opts@.wftmax,
            r@.waits_sent == 0,
    {
        FlowControlCoordinator {
            bs: opts.get_bs(),
            stmin: opts.get_stmin(),
            wftmax: opts.get_wftmax(),
            waits_sent: 0,
        }
    }

    /// The Flow Control frame owed after a First Frame, or `None` in
    /// listen-only mode, where the session observes the bus and sends
    /// nothing.
    pub fn answer_first_frame(&mut self, opts: &IsoTpOptions, fits: bool, ready: bool) -> (r:
        Option<Pdu>)
        ensures
            final(self)@.bs == old(self)@.bs,
            final(self)@.stmin == old(self)@.stmin,
            final(self)@.wftmax == old(self)@.wftmax,
            flag_set(opts@.flags, CAN_ISOTP_LISTEN_MODE) ==> r is None && final(self)@ == old(
                self,
            )@,
            !flag_set(opts@.flags, CAN_ISOTP_LISTEN_MODE) ==> r is Some,
            !flag_set(opts@.flags, CAN_ISOTP_LISTEN_MODE) && !fits ==> (r matches Some(p) && p@
                == (PduV::FlowControl {
                status: FlowStatus::Overflow,
                block_size: old(self)@.bs,
                st_min: old(self)@.stmin,
            })) && final(self)@.waits_sent == 0,
            !flag_set(opts@.flags, CAN_ISOTP_LISTEN_MODE) && fits && ready ==> (r matches Some(p)
                && p@ == (PduV::FlowControl {
                status: FlowStatus::ContinueToSend,
                block_size: old(self)@.bs,
                st_min: old(self)@.stmin,
            })) && final(self)@.waits_sent == 0,
            !flag_set(opts@.flags, CAN_ISOTP_LISTEN_MODE) && fits && !ready && old(
                self,
            )@.waits_sent < old(self)@.wftmax ==> (r matches Some(p) && p@ == (PduV::FlowControl {
                status: FlowStatus::Wait,
                block_size: old(self)@.bs,
                st_min: old(self)@.stmin,
            })) && final(self)@.waits_sent == old(self)@.waits_sent + 1,
            !flag_set(opts@.flags, CAN_ISOTP_LISTEN_MODE) && fits && !ready && old(
                self,
            )@.waits_sent >= old(self)@.wftmax ==> (r matches Some(p) && p@ == (
            PduV::FlowControl {
                status: FlowStatus::Overflow,
                block_size: old(self)@.bs,
                st_min: old(self)@.stmin,
            })) && final(self)@.waits_sent == 0,
    {
        if opts.has_flag(CAN_ISOTP_LISTEN_MODE) {
            None
        } else {
            Some(self.respond(fits, ready))
        }
    }

    /// The Flow Control frame owed to the sender. `fits` says whether
    /// the announced message fits the receive capacity; `ready` whether
    /// the local buffer can take the next block now.
    ///
    /// A message that does not fit is refused with `Overflow`. A fitting
    /// message is granted with `ContinueToSend` when ready; while not
    /// ready, up to `wftmax` consecutive `Wait` frames go out, after
    /// which the receiver signals `Overflow` rather than stall the
    /// sender forever.
    pub fn respond(&mut self, fits: bool, ready: bool) -> (r: Pdu)
        ensures
            final(self)@.bs == old(self)@.bs,
            final(self)@.stmin == old(self)@.stmin,
            final(self)@.wftmax == old(self)@.wftmax,
            !fits ==> r@ == (PduV::FlowControl {
                status: FlowStatus::Overflow,
                block_size: old(self)@.bs,
                st_min: old(self)@.stmin,
            }) && final(self)@.waits_sent == 0,
            fits && ready ==> r@ == (PduV::FlowControl {
                status: FlowStatus::ContinueToSend,
                block_size: old(self)@.bs,
                st_min: old(self)@.stmin,
            }) && final(self)@.waits_sent == 0,
            fits && !ready && old(self)@.waits_sent < old(self)@.wftmax ==> r@ == (
            PduV::FlowControl {
                status: FlowStatus::Wait,
                block_size: old(self)@.bs,
                st_min: old(self)@.stmin,
            }) && final(self)@.waits_sent == old(self)@.waits_sent + 1,
            fits && !ready && old(self)@.waits_sent >= old(self)@.wftmax ==> r@ == (
            PduV::FlowControl {
                status: FlowStatus::Overflow,
                block_size: old(self)@.bs,
                st_min: old(self)@.stmin,
            }) && final(self)@.waits_sent == 0,
    {
        if !fits {
            self.waits_sent = 0;
            Pdu::FlowControl {
                status: FlowStatus::Overflow,
                block_size: self.bs,
                st_min: self.stmin,
            }
        } else if ready {
            self.waits_sent = 0;
            Pdu::FlowControl {
                status: FlowStatus::ContinueToSend,
                block_size: self.bs,
                st_min: self.stmin,
            }
        } else if self.waits_sent < self.wftmax {
            self.waits_sent = self.waits_sent + 1;
            Pdu::FlowControl { status: FlowStatus::Wait, block_size: self.bs, st_min: self.stmin }
        } else {
            self.waits_sent = 0;
            Pdu::FlowControl {
                status: FlowStatus::Overflow,
                block_size: self.bs,
                st_min: self.stmin,
            }
        }
    }
}

} // verus!
