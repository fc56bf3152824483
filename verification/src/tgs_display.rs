use vstd::prelude::*;

use crate::text::bit_of;

verus! {

/// Which segments of a seven-segment digit are lit.
#[derive(Clone, Copy, Debug, PartialEq, Eq, Structural)]
pub struct Segments {
    pub top: bool,
    pub upper_right: bool,
    pub lower_right: bool,
    pub bottom: bool,
    pub lower_left: bool,
    pub upper_left: bool,
    pub middle: bool,
}

/// The segments that the output byte `state` lights: bit 0 the top bar,
/// then clockwise round the digit up to bit 5, and bit 6 the middle bar.
/// Bit 7 lights nothing.
pub open spec fn lit_segments(state: u8) -> Segments {
    Segments {
        top: bit_of(state, 1) == 1,
        upper_right: bit_of(state, 2) == 1,
        lower_right: bit_of(state, 4) == 1,
        bottom: bit_of(state, 8) == 1,
        lower_left: bit_of(state, 16) == 1,
        upper_left: bit_of(state, 32) == 1,
        middle: bit_of(state, 64) == 1,
    }
}

/// Reads the segments to light off an output register's value.
pub fn segments(state: u8) -> (lit: Segments)
    ensures
        lit == lit_segments(state),
{
    assert({
        &&& (state & 0b0000_0001 == 0b0000_0001) == (state % 2 == 1)
        &&& (state & 0b0000_0010 == 0b0000_0010) == ((state / 2) % 2 == 1)
        &&& (state & 0b0000_0100 == 0b0000_0100) == ((state / 4) % 2 == 1)
        &&& (state & 0b0000_1000 == 0b0000_1000) == ((state / 8) % 2 == 1)
        &&& (state & 0b0001_0000 == 0b0001_0000) == ((state / 16) % 2 == 1)
        &&& (state & 0b0010_0000 == 0b0010_0000) == ((state / 32) % 2 == 1)
        &&& (state & 0b0100_0000 == 0b0100_0000) == ((state / 64) % 2 == 1)
    }) by (bit_vector);
    Segments {
        top: state & 0b0000_0001 == 0b0000_0001,
        upper_right: state & 0b0000_0010 == 0b0000_0010,
        lower_right: state & 0b0000_0100 == 0b0000_0100,
        bottom: state & 0b0000_1000 == 0b0000_1000,
        lower_left: state & 0b0001_0000 == 0b0001_0000,
        upper_left: state & 0b0010_0000 == 0b0010_0000,
        middle: state & 0b0100_0000 == 0b0100_0000,
    }
}

} // verus!
