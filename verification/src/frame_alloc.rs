//! A bump allocator of 4 KiB frames.
use vstd::prelude::*;
use crate::lpae::PAGE_SIZE;

verus! {

/// Hands out the frames from an address on, lowest first.
pub struct FrameAllocator {
    bottom: u64,
}

impl FrameAllocator {
    /// The address of the frame that is handed out next.
    pub closed spec fn bottom(&self) -> u64 {
        self.bottom
    }

    /// An allocator whose first frame is at `bottom`.
    pub fn new(bottom: u64) -> (allocator: FrameAllocator)
        ensures
            allocator.bottom() == bottom,
    {
        FrameAllocator { bottom: bottom }
    }

    /// Hands out the next frame and moves on by one page.
    pub fn alloc_frame(&mut self) -> (frame: u64)
        requires
            old(self).bottom() + PAGE_SIZE <= u64::MAX,
        ensures
            frame == old(self).bottom(),
            final(self).bottom() == old(self).bottom() + PAGE_SIZE,
    {
        let tmp = self.bottom;
        self.bottom += PAGE_SIZE as u64;

        tmp
    }
}

} // verus!
