use vstd::prelude::*;

verus! {

/// The owner of one channel for the whole of its life: one handshake, one
/// streaming phase, one shutdown. The channel is whatever the caller reads
/// from, writes to, flushes and shuts down; this crate never touches it.
pub struct Connection<IO> {
    pub stream: IO,
}

impl<IO> Connection<IO> {
    /// Takes ownership of the channel.
    pub fn new(iostream: IO) -> (connection: Connection<IO>)
        ensures
            connection.stream == iostream,
    {
        Connection { stream: iostream }
    }
}

} // verus!
