//! The inclusive range of IPv4 addresses to scan, walked lazily.
use vstd::prelude::*;

verus! {

/// The addresses from `start` to `end`, both included, in ascending order;
/// empty when `start > end`.
pub open spec fn range_addresses(start: u32, end: u32) -> Seq<u32> {
    if start <= end {
        Seq::new((end - start + 1) as nat, |i: int| (start + i) as u32)
    } else {
        Seq::empty()
    }
}

/// Inclusive bounds of the scan. A range whose start lies above its end is
/// empty rather than an error.
#[derive(Clone, Copy, Debug, PartialEq, Eq, Structural)]
pub struct AddressRange {
    pub start: u32,
    pub end: u32,
}

/// A position in an [`AddressRange`]: hands out the addresses still to come.
#[derive(Clone, Copy, Debug)]
pub struct AddressCursor {
    next: u64,
    end: u64,
}

impl AddressRange {
    pub open spec fn addresses(&self) -> Seq<u32> {
        range_addresses(self.start, self.end)
    }

    pub fn new(start: u32, end: u32) -> (r: AddressRange)
        ensures
            r.start == start,
            r.end == end,
    {
        AddressRange { start, end }
    }

    /// How many addresses the range holds.
    pub fn len(&self) -> (r: u64)
        ensures
            r == self.addresses().len(),
    {
        if self.start <= self.end {
            (self.end - self.start) as u64 + 1
        } else {
            0
        }
    }

    /// A cursor at the first address of the range. The range itself is a
    /// plain value, so walking it again starts from a fresh cursor.
    pub fn into_iter(self) -> (c: AddressCursor)
        ensures
            c.wf(),
            c.remaining() == self.addresses(),
    {
        let c = AddressCursor { next: self.start as u64, end: self.end as u64 };
        assert(c.remaining() =~= self.addresses());
        c
    }
}

impl AddressCursor {
    pub closed spec fn wf(&self) -> bool {
        self.end <= u32::MAX && self.next <= u32::MAX as u64 + 1
    }

    /// The addresses that this cursor has still to hand out, in order.
    pub closed spec fn remaining(&self) -> Seq<u32> {
        if self.next <= self.end {
            Seq::new((self.end - self.next + 1) as nat, |i: int| (self.next + i) as u32)
        } else {
            Seq::empty()
        }
    }

    /// The next address, or `None` once the range is exhausted.
    pub fn next(&mut self) -> (r: Option<u32>)
        requires
            old(self).wf(),
        ensures
            final(self).wf(),
            old(self).remaining().len() == 0 ==> r is None && final(self).remaining() == old(
                self,
            ).remaining(),
            old(self).remaining().len() > 0 ==> r == Some(old(self).remaining()[0])
                && final(self).remaining() == old(self).remaining().drop_first(),
    {
        if self.next <= self.end {
            let a = self.next as u32;
            self.next = self.next + 1;
            assert(self.remaining() =~= old(self).remaining().drop_first());
            Some(a)
        } else {
            None
        }
    }

    /// Whether no address is left.
    pub fn is_empty(&self) -> (r: bool)
        ensures
            r == (self.remaining().len() == 0),
    {
        self.next > self.end
    }
}

/// A range with `start <= end` holds exactly `end - start + 1` addresses,
/// strictly ascending, from `start` to `end`.
pub proof fn lemma_range_shape(start: u32, end: u32)
    requires
        start <= end,
    ensures
        range_addresses(start, end).len() == end - start + 1,
        range_addresses(start, end)[0] == start,
        range_addresses(start, end).last() == end,
        forall|i: int, j: int|
            0 <= i < j < range_addresses(start, end).len() ==> range_addresses(start, end)[i]
                < range_addresses(start, end)[j],
{
}

} // verus!
