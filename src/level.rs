use vstd::prelude::*;

verus! {

/// The physical level of a digital output line.
#[derive(Clone, Copy, Debug, PartialEq, Eq, Structural)]
pub enum Level {
    Low,
    High,
}

/// Active-low wiring: an active channel pulls its line low.
pub open spec fn active_low_spec(state: bool) -> Level {
    if state {
        Level::Low
    } else {
        Level::High
    }
}

/// The level that shows `state` on an active-low output.
pub fn active_low(state: bool) -> (r: Level)
    ensures
        r == active_low_spec(state),
{
    if state {
        Level::Low
    } else {
        Level::High
    }
}

/// The state that an active-low output at `level` shows.
pub fn state_of_level(level: Level) -> (r: bool)
    ensures
        r == (level == Level::Low),
{
    match level {
        Level::Low => true,
        Level::High => false,
    }
}

/// A channel's line is low exactly when it is driven with `true`, and the
/// state can be read back from the level.
pub proof fn lemma_active_low(state: bool)
    ensures
        (active_low_spec(state) == Level::Low) <==> state,
        (active_low_spec(state) == Level::High) <==> !state,
        (active_low_spec(state) == Level::Low) == state,
{
}

} // verus!
