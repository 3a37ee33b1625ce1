use vstd::prelude::*;

verus! {

/// The largest message the socket accepts: 64 MiB.
pub const MAX_MESSAGE_SIZE: usize = 64 << 20;

/// The largest frame the socket accepts: 16 MiB.
pub const MAX_FRAME_SIZE: usize = 16 << 20;

/// The protocol limits the feed's socket is dialed with. No cap is put on
/// the depth of the send queue.
#[derive(Debug, Clone, Copy, PartialEq, Eq, Structural)]
pub struct ConnectionLimits {
    pub max_message_size: usize,
    pub max_frame_size: usize,
    pub accept_unmasked_frames: bool,
}

impl ConnectionLimits {
    /// Messages up to 64 MiB, frames up to 16 MiB, unmasked frames refused.
    pub fn standard() -> (r: ConnectionLimits)
        ensures
            r.max_message_size == 64 * 1024 * 1024,
            r.max_frame_size == 16 * 1024 * 1024,
            !r.accept_unmasked_frames,
    {
        assert(MAX_MESSAGE_SIZE == 64 * 1024 * 1024) by (bit_vector);
        assert(MAX_FRAME_SIZE == 16 * 1024 * 1024) by (bit_vector);
        ConnectionLimits {
            max_message_size: MAX_MESSAGE_SIZE,
            max_frame_size: MAX_FRAME_SIZE,
            accept_unmasked_frames: false,
        }
    }
}

} // verus!
