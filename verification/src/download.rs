//! The count of what a download has received.
//!
//! The transfer itself is the caller's. After each read the caller tells how many bytes
//! came, and learns whether to read on and what to show.
use vstd::prelude::*;

verus! {

/// How far a download has come.
#[derive(Clone, Copy, Debug, PartialEq, Eq, Structural)]
pub struct DownloadProgress {
    /// The bytes received so far.
    pub received: u64,
    /// The size that the server announced; 0 where it announced none.
    pub total: u64,
}

/// `received` with `chunk` more bytes, counted no further than `u64::MAX`.
pub open spec fn received_after(received: u64, chunk: usize) -> u64 {
    if received + chunk > u64::MAX {
        u64::MAX
    } else {
        (received + chunk) as u64
    }
}

impl DownloadProgress {
    /// A download of which nothing was received yet. `content_length` is the size that the
    /// server announced.
    pub fn new(content_length: Option<u64>) -> (out: DownloadProgress)
        ensures
            out.received == 0,
            out.total == match content_length {
                Some(length) => length,
                None => 0,
            },
    {
        let total: u64 = match content_length {
            Some(length) => length,
            None => 0,
        };
        DownloadProgress { received: 0, total }
    }

    /// Takes note of a read that gave `chunk` bytes, and tells whether to read on: a read
    /// that gave nothing is the end of the body.
    pub fn record(&mut self, chunk: usize) -> (more: bool)
        ensures
            more == (chunk != 0),
            final(self).received == received_after(old(self).received, chunk),
            final(self).total == old(self).total,
    {
        let wide: u128 = self.received as u128 + chunk as u128;
        if wide > u64::MAX as u128 {
            self.received = u64::MAX;
        } else {
            self.received = wide as u64;
        }
        chunk != 0
    }
}

} // verus!
