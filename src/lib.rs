//! A chase of output channels: each channel drives an active-low output when
//! it is signaled, holds for its forwarding delay, and passes the same state to
//! the next channel; a sequencer closes the loop by inverting the state.
pub mod level;
pub mod slot;
pub mod channel;
pub mod sequencer;
pub mod chase;
