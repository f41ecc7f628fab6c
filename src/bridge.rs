use vstd::prelude::*;

verus! {

/// Bytes read from the source per chunk pushed into a streamed request body.
pub const CHUNK_SIZE: usize = 1024;

/// Chunks that may wait in the channel between the reader and the request body.
pub const CHANNEL_CAPACITY: usize = 1;

/// The bytes of a ranged part upload that are still to be forwarded.
#[derive(Debug)]
pub struct RangeBudget {
    pub remaining: i64,
}

impl RangeBudget {
    /// A budget for a range of `read_len` bytes.
    pub fn new(read_len: i64) -> (r: Self)
        requires
            read_len >= 0,
        ensures
            r.remaining == read_len,
    {
        RangeBudget { remaining: read_len }
    }

    /// Of `n` bytes just read, how many belong to the range: all of them, or only the
    /// first ones when the read overruns the range's end.
    pub fn take(&mut self, n: usize) -> (r: usize)
        requires
            old(self).remaining >= 0,
        ensures
            r as int == if (n as int) < old(self).remaining { n as int } else { old(self).remaining as int },
            final(self).remaining == old(self).remaining - r,
            final(self).remaining >= 0,
    {
        let r: usize = if (n as u64) < (self.remaining as u64) {
            n
        } else {
            self.remaining as usize
        };
        self.remaining = self.remaining - r as i64;
        r
    }

    /// Whether the whole range has been forwarded.
    pub fn is_done(&self) -> (r: bool)
        ensures
            r == (self.remaining == 0),
    {
        self.remaining == 0
    }
}

} // verus!
