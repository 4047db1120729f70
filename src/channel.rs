use crate::level::{active_low, active_low_spec, Level};
use vstd::prelude::*;

verus! {

/// The fixed wiring of one channel: its number (from 1), how long it holds a
/// state before passing it on, and whether it passes it on at all.
#[derive(Clone, Copy, Debug, PartialEq, Eq, Structural)]
pub struct ChannelController {
    pub channel: usize,
    pub delay_ms: u16,
    pub forwards: bool,
}

/// What a channel does with one received state, in this order: drive its
/// output to `level`, record `(channel, state)`, wait `delay_ms`, then send
/// `forward` (if any) to the next slot.
#[derive(Clone, Copy, Debug, PartialEq, Eq)]
pub struct Stage {
    pub level: Level,
    pub channel: usize,
    pub state: bool,
    pub delay_ms: u16,
    pub forward: Option<bool>,
}

impl ChannelController {
    /// A channel of a self-timed chain: it holds each state for `delay_ms`
    /// and then passes it on unchanged.
    pub fn chained(channel: usize, delay_ms: u16) -> (r: ChannelController)
        ensures
            r.channel == channel,
            r.delay_ms == delay_ms,
            r.forwards,
    {
        ChannelController { channel, delay_ms, forwards: true }
    }

    /// A channel driven step by step from outside: it neither waits nor
    /// passes anything on.
    pub fn direct(channel: usize) -> (r: ChannelController)
        ensures
            r.channel == channel,
            r.delay_ms == 0,
            !r.forwards,
    {
        ChannelController { channel, delay_ms: 0, forwards: false }
    }

    /// The stage that a received `state` sets off. The output follows the
    /// active-low mapping and the state passed on is the one received.
    pub fn handle(&self, state: bool) -> (r: Stage)
        ensures
            r.level == active_low_spec(state),
            r.channel == self.channel,
            r.state == state,
            r.delay_ms == self.delay_ms,
            r.forward == (if self.forwards {
                Some(state)
            } else {
                None
            }),
    {
        let forward = if self.forwards {
            Some(state)
        } else {
            None
        };
        Stage { level: active_low(state), channel: self.channel, state, delay_ms: self.delay_ms, forward }
    }
}

} // verus!
