//! Reading what the sound mixer reports.

use vstd::prelude::*;

verus! {

/// Whether the master channel is muted, given its playback switch as the
/// mixer reports it: the channel plays unless the switch is zero.
pub fn is_muted(playback_switch: i32) -> (r: bool)
    ensures
        r == (playback_switch == 0),
{
    playback_switch == 0
}

} // verus!
