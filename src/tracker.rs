//! The counters themselves, and the accounting done at each of the four
//! points where memory is acquired or released.
use vstd::prelude::*;
use crate::model::{consistent, larger, step, Event, Usage};

verus! {

/// The live-bytes and high-water-mark counters of an allocation shim.
///
/// Sizes are the sizes that callers asked for; a release must name the size
/// of a region that is still live, as an allocator's callers guarantee.
#[derive(Debug, Clone, Copy)]
pub struct PeakAlloc {
    current: usize,
    peak: usize,
}

impl View for PeakAlloc {
    type V = Usage;

    closed spec fn view(&self) -> Usage {
        Usage { current: self.current as nat, peak: self.peak as nat }
    }
}

impl PeakAlloc {
    /// The high-water mark is at or above the live bytes.
    pub open spec fn wf(&self) -> bool {
        consistent(self@)
    }

    /// Both counters at zero.
    pub fn new() -> (r: PeakAlloc)
        ensures
            r.wf(),
            r@ == (Usage { current: 0, peak: 0 }),
    {
        PeakAlloc { current: 0, peak: 0 }
    }

    /// Returns the number of bytes that are currently allocated.
    pub fn current_usage(&self) -> (r: usize)
        ensures
            r == self@.current,
    {
        self.current
    }

    /// Returns the most bytes that have been allocated at once since the
    /// counters started or the mark was last reset.
    pub fn peak_usage(&self) -> (r: usize)
        ensures
            r == self@.peak,
    {
        self.peak
    }

    /// Restarts the high-water mark from the bytes currently allocated.
    pub fn reset_peak_usage(&mut self)
        ensures
            final(self)@ == step(old(self)@, Event::ResetPeak),
            final(self)@.current == old(self)@.current,
            final(self)@.peak == old(self)@.current,
            final(self).wf(),
    {
        self.peak = self.current;
    }

    /// Counts `size` more live bytes and raises the high-water mark to the
    /// new total if it lies above it.
    pub fn add_memory(&mut self, size: usize)
        requires
            old(self).wf(),
            old(self)@.current + size <= usize::MAX,
        ensures
            final(self)@ == step(old(self)@, Event::Alloc(size as nat)),
            final(self)@.current == old(self)@.current + size,
            final(self)@.peak == larger(old(self)@.peak, (old(self)@.current + size) as nat),
            final(self).wf(),
    {
        let now: usize = self.current + size;
        self.current = now;
        if now > self.peak {
            self.peak = now;
        }
    }

    /// Counts `size` fewer live bytes; the high-water mark stays.
    pub fn sub_memory(&mut self, size: usize)
        requires
            old(self).wf(),
            size <= old(self)@.current,
        ensures
            final(self)@ == step(old(self)@, Event::Dealloc(size as nat)),
            final(self)@.current == old(self)@.current - size,
            final(self)@.peak == old(self)@.peak,
            final(self).wf(),
    {
        self.current = self.current - size;
    }

    /// Accounts an allocation of `size` bytes: counted when the delegate
    /// allocator `acquired` the region, left alone when it failed.
    pub fn account_alloc(&mut self, size: usize, acquired: bool)
        requires
            old(self).wf(),
            acquired ==> old(self)@.current + size <= usize::MAX,
        ensures
            final(self)@ == (if acquired {
                step(old(self)@, Event::Alloc(size as nat))
            } else {
                old(self)@
            }),
            final(self).wf(),
    {
        if acquired {
            self.add_memory(size);
        }
    }

    /// Accounts a zero-filled allocation, which is counted as a plain one.
    pub fn account_alloc_zeroed(&mut self, size: usize, acquired: bool)
        requires
            old(self).wf(),
            acquired ==> old(self)@.current + size <= usize::MAX,
        ensures
            final(self)@ == (if acquired {
                step(old(self)@, Event::Alloc(size as nat))
            } else {
                old(self)@
            }),
            final(self).wf(),
    {
        self.account_alloc(size, acquired);
    }

    /// Accounts the release of a live region of `size` bytes.
    pub fn account_dealloc(&mut self, size: usize)
        requires
            old(self).wf(),
            size <= old(self)@.current,
        ensures
            final(self)@ == step(old(self)@, Event::Dealloc(size as nat)),
            final(self).wf(),
    {
        self.sub_memory(size);
    }

    /// Accounts moving a live region of `old_size` bytes to a new one of
    /// `new_size` bytes. When the new region was `acquired`, the new size is
    /// counted before the old one is released; when it was not, the counters
    /// stay as they were and the old region stays counted.
    pub fn account_realloc(&mut self, old_size: usize, new_size: usize, acquired: bool)
        requires
            old(self).wf(),
            old_size <= old(self)@.current,
            acquired ==> old(self)@.current + new_size <= usize::MAX,
        ensures
            final(self)@ == (if acquired {
                step(
                    step(old(self)@, Event::Alloc(new_size as nat)),
                    Event::Dealloc(old_size as nat),
                )
            } else {
                old(self)@
            }),
            acquired ==> final(self)@.current == old(self)@.current + new_size - old_size,
            acquired ==> final(self)@.peak == larger(
                old(self)@.peak,
                (old(self)@.current + new_size) as nat,
            ),
            final(self).wf(),
    {
        if acquired {
            self.add_memory(new_size);
            self.sub_memory(old_size);
        }
    }
}

impl Default for PeakAlloc {
    fn default() -> (r: PeakAlloc)
        ensures
            r.wf(),
            r@ == (Usage { current: 0, peak: 0 }),
    {
        PeakAlloc::new()
    }
}

} // verus!
