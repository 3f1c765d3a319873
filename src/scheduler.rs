//! Admission of addresses to the probe pipeline under a concurrency cap,
//! and collection of what the pipelines find.
use vstd::prelude::*;
use crate::range::{AddressCursor, AddressRange};
use crate::types::GatewayDetection;

verus! {

/// Pipelines allowed at once unless configured otherwise.
pub const CONCURRENCY: usize = 512;

/// The bookkeeping of a scan: the addresses still to admit, the pipelines in
/// flight and the detections collected so far.
pub struct Scheduler {
    pending: AddressCursor,
    limit: usize,
    in_flight: usize,
    results: Vec<GatewayDetection>,
}

/// `d` as a sequence of zero or one detection.
pub open spec fn outcome_seq(d: Option<GatewayDetection>) -> Seq<GatewayDetection> {
    match d {
        Some(x) => seq![x],
        None => Seq::empty(),
    }
}

impl Scheduler {
    /// The cap holds, and the cap is at least one.
    pub closed spec fn wf(&self) -> bool {
        &&& self.pending.wf()
        &&& 1 <= self.limit
        &&& self.in_flight <= self.limit
    }

    pub closed spec fn pending(&self) -> Seq<u32> {
        self.pending.remaining()
    }

    pub closed spec fn limit(&self) -> nat {
        self.limit as nat
    }

    pub closed spec fn active(&self) -> nat {
        self.in_flight as nat
    }

    pub closed spec fn found(&self) -> Seq<GatewayDetection> {
        self.results@
    }

    /// A scan of `range` with at most `limit` pipelines at once.
    pub fn new(range: AddressRange, limit: usize) -> (r: Scheduler)
        requires
            limit >= 1,
        ensures
            r.wf(),
            r.pending() == range.addresses(),
            r.limit() == limit,
            r.active() == 0,
            r.found() == Seq::<GatewayDetection>::empty(),
    {
        Scheduler { pending: range.into_iter(), limit, in_flight: 0, results: Vec::new() }
    }

    /// The next address to probe, when one is left and a slot is free; that
    /// address then counts as in flight.
    pub fn next_address(&mut self) -> (r: Option<u32>)
        requires
            old(self).wf(),
        ensures
            final(self).wf(),
            final(self).active() <= final(self).limit(),
            final(self).limit() == old(self).limit(),
            final(self).found() == old(self).found(),
            old(self).active() < old(self).limit() && old(self).pending().len() > 0 ==> r == Some(
                old(self).pending()[0],
            ) && final(self).pending() == old(self).pending().drop_first() && final(self).active()
                == old(self).active() + 1,
            !(old(self).active() < old(self).limit() && old(self).pending().len() > 0) ==> r is None
                && final(self).pending() == old(self).pending() && final(self).active() == old(
                self,
            ).active(),
    {
        if self.in_flight < self.limit && !self.pending.is_empty() {
            let a = self.pending.next();
            self.in_flight = self.in_flight + 1;
            a
        } else {
            None
        }
    }

    /// Records that one pipeline in flight has ended, with its detection if
    /// it found one.
    pub fn complete(&mut self, outcome: Option<GatewayDetection>)
        requires
            old(self).wf(),
            old(self).active() > 0,
        ensures
            final(self).wf(),
            final(self).limit() == old(self).limit(),
            final(self).pending() == old(self).pending(),
            final(self).active() == old(self).active() - 1,
            final(self).found() == old(self).found() + outcome_seq(outcome),
    {
        self.in_flight = self.in_flight - 1;
        match outcome {
            Some(d) => {
                self.results.push(d);
            },
            None => {},
        }
        assert(self.results@ =~= old(self).results@ + outcome_seq(outcome));
    }

    /// How many pipelines are in flight.
    pub fn in_flight(&self) -> (r: usize)
        ensures
            r == self.active(),
    {
        self.in_flight
    }

    /// Whether every address has been admitted and every pipeline has ended.
    pub fn is_done(&self) -> (r: bool)
        ensures
            r == (self.pending().len() == 0 && self.active() == 0),
    {
        self.in_flight == 0 && self.pending.is_empty()
    }

    /// The detections collected, in order of completion.
    pub fn into_results(self) -> (r: Vec<GatewayDetection>)
        ensures
            r@ == self.found(),
    {
        self.results
    }
}

/// In every well-formed state, hence after every step from `new`, no more
/// pipelines are in flight than the cap allows.
pub proof fn lemma_cap_holds(s: &Scheduler)
    requires
        s.wf(),
    ensures
        s.active() <= s.limit(),
        s.limit() >= 1,
{
}

} // verus!
