//! The model of the host's drawing surface: an ordered list of pending
//! rectangle commands, appended to by the one registered host operation and
//! flushed by the host once per frame, outside this crate.
//!
//! Positions and sizes are 32-bit floats on the host side; the bridge never
//! computes with them, it only passes them through, so the model carries them
//! as their IEEE-754 bit patterns.

use vstd::prelude::*;

verus! {

/// Width of every rectangle the bridge draws, as the bit pattern of the
/// 32-bit float `4.0`.
pub const RECT_WIDTH_BITS: u32 = 0x4080_0000;

/// Height of every rectangle the bridge draws, as the bit pattern of the
/// 32-bit float `4.0`.
pub const RECT_HEIGHT_BITS: u32 = 0x4080_0000;

/// Red channel of the fixed fill colour (plum).
pub const RECT_RED: u8 = 221;

/// Green channel of the fixed fill colour (plum).
pub const RECT_GREEN: u8 = 160;

/// Blue channel of the fixed fill colour (plum).
pub const RECT_BLUE: u8 = 221;

/// One invocation of the rectangle host operation by the script: the
/// requested position, as the bit patterns of two 32-bit floats.
#[derive(Clone, Copy, PartialEq, Eq, Structural, Debug)]
pub struct RectCall {
    pub x_bits: u32,
    pub y_bits: u32,
}

/// One drawing command pending on the surface: a position, a size and a
/// fill colour, all chosen by the bridge when the host operation fires.
#[derive(Clone, Copy, PartialEq, Eq, Structural, Debug)]
pub struct DrawCmd {
    pub x_bits: u32,
    pub y_bits: u32,
    pub width_bits: u32,
    pub height_bits: u32,
    pub red: u8,
    pub green: u8,
    pub blue: u8,
}

/// The command that one host-operation call appends: the caller's position,
/// the fixed size and the fixed colour.
pub open spec fn rect_cmd(call: RectCall) -> DrawCmd {
    DrawCmd {
        x_bits: call.x_bits,
        y_bits: call.y_bits,
        width_bits: RECT_WIDTH_BITS,
        height_bits: RECT_HEIGHT_BITS,
        red: RECT_RED,
        green: RECT_GREEN,
        blue: RECT_BLUE,
    }
}

/// The batch of commands that a sequence of host-operation calls appends:
/// one command per call, in call order.
pub open spec fn rect_batch(calls: Seq<RectCall>) -> Seq<DrawCmd> {
    calls.map_values(|call: RectCall| rect_cmd(call))
}

/// The drawing surface's pending command list.
pub struct Surface {
    pub cmds: Vec<DrawCmd>,
}

impl Surface {
    /// A surface with no pending commands.
    pub fn new() -> (s: Surface)
        ensures
            s.cmds@ == Seq::<DrawCmd>::empty(),
    {
        Surface { cmds: Vec::new() }
    }

    /// Appends exactly one rectangle command at the given position, with the
    /// fixed size and colour; every earlier command stays in place.
    pub fn rect(&mut self, x_bits: u32, y_bits: u32)
        ensures
            final(self).cmds@ == old(self).cmds@.push(rect_cmd(RectCall { x_bits, y_bits })),
    {
        self.cmds.push(DrawCmd {
            x_bits,
            y_bits,
            width_bits: RECT_WIDTH_BITS,
            height_bits: RECT_HEIGHT_BITS,
            red: RECT_RED,
            green: RECT_GREEN,
            blue: RECT_BLUE,
        });
    }

    /// How many commands are pending.
    pub fn len(&self) -> (n: usize)
        ensures
            n == self.cmds@.len(),
    {
        self.cmds.len()
    }
}

} // verus!
