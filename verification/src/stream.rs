//! A placeholder for the connection's byte channel. The framer buffers all
//! bytes itself, so this layer carries no state; the socket lives with the
//! caller that owns the connection.

use vstd::prelude::*;

use crate::errors::ProtoResult;

verus! {

/// The stand-in for a connection's byte channel.
pub struct Stream {}

impl Stream {
    /// Accepts a payload for the peer; the buffered framer already holds
    /// the bytes, so nothing is left to do.
    pub fn write(&mut self, payload: &[u8]) -> (r: ProtoResult<()>)
        ensures
            r == Ok::<(), crate::errors::ProtoError>(()),
            *final(self) == *old(self),
    {
        let _ = payload;
        Ok(())
    }

    /// Polls the channel; the buffered framer already holds the bytes, so
    /// nothing is left to do.
    pub fn read(&mut self) -> (r: ProtoResult<()>)
        ensures
            r == Ok::<(), crate::errors::ProtoError>(()),
            *final(self) == *old(self),
    {
        Ok(())
    }
}

} // verus!
