//! The buffer between a transport channel and the decoder of its
//! messages.

use vstd::prelude::*;

verus! {

/// The bytes that have arrived on a channel and are not decoded yet.
#[derive(Clone, Debug, PartialEq, Eq)]
pub struct WireBuffer {
    pub pending: Vec<u8>,
}

impl WireBuffer {
    /// A buffer with nothing in it.
    pub fn new() -> (buffer: WireBuffer)
        ensures
            buffer.pending@ == Seq::<u8>::empty(),
    {
        WireBuffer { pending: Vec::new() }
    }

    /// Takes in what has arrived, behind what is waiting.
    pub fn extend(&mut self, data: &[u8])
        ensures
            final(self).pending@ == old(self).pending@ + data@,
    {
        self.pending.extend_from_slice(data);
        assert(self.pending@ =~= old(self).pending@ + data@);
    }

    /// Drops the bytes of a decoded message from the front. The decoder
    /// never reads more than it was given.
    pub fn consume(&mut self, read_size: usize)
        requires
            read_size <= old(self).pending@.len(),
        ensures
            final(self).pending@ == old(self).pending@.subrange(
                read_size as int,
                old(self).pending@.len() as int,
            ),
    {
        let rest = self.pending.split_off(read_size);
        self.pending = rest;
    }
}

} // verus!
