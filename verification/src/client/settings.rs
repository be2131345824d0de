use vstd::prelude::*;

verus! {

/// Capacities of the two channels that connect a client to its socket task.
pub struct Settings {
    /// Capacity of the channel that carries received messages; 0 stands
    /// for an unbounded channel.
    pub receiver_channel_bounds: usize,
    /// Capacity of the channel that carries outgoing requests; 0 stands
    /// for an unbounded channel.
    pub sender_channel_bounds: usize,
}

/// The capacity of a channel configured with `bounds`: `None` for an
/// unbounded channel, otherwise the (non-zero) bound.
pub open spec fn channel_capacity(bounds: usize) -> Option<usize> {
    if bounds == 0 {
        None
    } else {
        Some(bounds)
    }
}

impl Default for Settings {
    fn default() -> (r: Self)
        ensures
            r.receiver_channel_bounds == 0,
            r.sender_channel_bounds == 0,
    {
        Settings { receiver_channel_bounds: 0, sender_channel_bounds: 0 }
    }
}

impl Settings {
    /// Capacity of the receive channel: `None` when it is unbounded.
    pub fn receiver_channel_capacity(&self) -> (r: Option<usize>)
        ensures
            r == channel_capacity(self.receiver_channel_bounds),
            r matches Some(c) ==> c > 0,
    {
        if self.receiver_channel_bounds == 0 {
            None
        } else {
            Some(self.receiver_channel_bounds)
        }
    }

    /// Capacity of the send channel: `None` when it is unbounded.
    pub fn sender_channel_capacity(&self) -> (r: Option<usize>)
        ensures
            r == channel_capacity(self.sender_channel_bounds),
            r matches Some(c) ==> c > 0,
    {
        if self.sender_channel_bounds == 0 {
            None
        } else {
            Some(self.sender_channel_bounds)
        }
    }
}

} // verus!
