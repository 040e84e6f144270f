//! The statistics collector's accounting.
//!
//! The collector receives fire-and-forget events (see [`crate::event`]) and
//! keeps a running total and count of successful payments, from which it
//! reports the average latency.  Receiving the events is the surrounding
//! process's job; the accounting lives here.

use crate::event::Event;
use vstd::prelude::*;

verus! {

/// Running totals of the statistics collector.
pub struct Stats {
    /// Total latency of all successful payments, in milliseconds.
    pub tot_time: u32,
    /// Number of successful payments seen.
    pub payments_count: u32,
}

impl Stats {
    /// Creates a collector that has seen nothing.
    pub fn new() -> (r: Self)
        ensures
            r.tot_time == 0,
            r.payments_count == 0,
    {
        Stats { tot_time: 0, payments_count: 0 }
    }

    /// Absorbs one event.  A successful payment adds its latency to the
    /// totals, and the new running average is returned for display; every
    /// other event kind only gets displayed and leaves the totals alone.
    pub fn handle(&mut self, msg: &Event) -> (r: Option<u32>)
        requires
            msg matches Event::PaymentSuccess { duration } ==> old(self).tot_time + *duration
                <= u32::MAX && old(self).payments_count < u32::MAX,
        ensures
            msg matches Event::PaymentSuccess { duration } ==> {
                &&& final(self).tot_time == old(self).tot_time + *duration
                &&& final(self).payments_count == old(self).payments_count + 1
                &&& r matches Some(avg) && avg == final(self).tot_time as int
                    / final(self).payments_count as int
            },
            !(msg is PaymentSuccess) ==> *final(self) == *old(self) && r is None,
    {
        match msg {
            Event::PaymentSuccess { duration } => {
                self.tot_time = self.tot_time + *duration;
                self.payments_count = self.payments_count + 1;
                Some(self.tot_time / self.payments_count)
            },
            _ => None,
        }
    }
}

} // verus!
