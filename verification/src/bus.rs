//! What the driver asks of the host's bus and timer.

use vstd::prelude::*;

verus! {

/// One thing for the host to do on behalf of the driver.
#[derive(Clone, Copy, Debug, PartialEq, Eq, Structural)]
pub enum BusAction {
    /// Write `frame(value)` to the expander at `LCD_ADDRESS`.
    Write(u8),
    /// Block for this many microseconds.
    DelayUs(u32),
    /// Block for this many milliseconds.
    DelayMs(u32),
}

/// How the host fared with the action it was last given.
#[derive(Clone, Copy, Debug, PartialEq, Eq, Structural)]
pub enum BusOutcome {
    /// The action was carried out, or none has been handed out yet.
    Done,
    /// The bus refused the write.
    Failed,
}

/// One entry of the driver's queue: an action for the host, or a change to
/// the driver's own record that takes effect once everything queued before
/// it has been carried out.
#[derive(Clone, Copy, Debug, PartialEq, Eq, Structural)]
pub enum Step {
    Bus(BusAction),
    /// Record the row the cursor was placed on.
    SetLine(u8),
    /// Record display on, cursor off, blink off.
    DefaultControl,
    /// Record left-to-right entry without autoscroll.
    DefaultMode,
}

pub open spec fn frame_of(value: u8) -> Seq<u8> {
    seq![0x00u8, value]
}

/// The two bytes that go over the wire for `BusAction::Write(value)`.
pub fn frame(value: u8) -> (bytes: [u8; 2])
    ensures
        bytes@ == frame_of(value),
{
    let bytes: [u8; 2] = [0x00, value];
    assert(bytes@ =~= frame_of(value));
    bytes
}

} // verus!
