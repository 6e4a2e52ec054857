//! The input port: a latched gamepad bitfield exposed through the serial
//! register at $4016.  The host polls its devices outside the core and
//! hands the button states in as plain booleans.

use vstd::prelude::*;

verus! {

/// The eight buttons of the standard gamepad.
#[derive(Clone, Copy, Debug, PartialEq, Eq, Structural)]
pub struct GamePad {
    pub a: bool,
    pub b: bool,
    pub select: bool,
    pub start: bool,
    pub up: bool,
    pub down: bool,
    pub left: bool,
    pub right: bool,
}

/// All buttons released.
pub open spec fn spec_released() -> GamePad {
    GamePad {
        a: false,
        b: false,
        select: false,
        start: false,
        up: false,
        down: false,
        left: false,
        right: false,
    }
}

impl GamePad {
    /// All buttons released.
    pub fn new() -> (r: GamePad)
        ensures
            r == (GamePad {
                a: false,
                b: false,
                select: false,
                start: false,
                up: false,
                down: false,
                left: false,
                right: false,
            }),
    {
        GamePad {
            a: false,
            b: false,
            select: false,
            start: false,
            up: false,
            down: false,
            left: false,
            right: false,
        }
    }
}

/// The button reported at shift position `i`, in the documented read-out
/// order A, B, Select, Start, Up, Down, Left, Right; beyond the eighth
/// read the port reports pressed.
pub open spec fn spec_button_at(g: GamePad, i: u8) -> bool {
    if i == 0 {
        g.a
    } else if i == 1 {
        g.b
    } else if i == 2 {
        g.select
    } else if i == 3 {
        g.start
    } else if i == 4 {
        g.up
    } else if i == 5 {
        g.down
    } else if i == 6 {
        g.left
    } else if i == 7 {
        g.right
    } else {
        true
    }
}

/// The serial input port at $4016.
pub struct Input {
    /// The latched button states.
    pub gamepad: GamePad,
    /// While the strobe is high every read reports the A button.
    pub strobe: bool,
    /// Next button to shift out, 0..=8.
    pub shift: u8,
}

impl Input {
    pub open spec fn wf(self) -> bool {
        self.shift <= 8
    }

    pub fn new() -> (r: Input)
        ensures
            r.wf(),
            r.gamepad == spec_released(),
            !r.strobe,
            r.shift == 0,
    {
        Input { gamepad: GamePad::new(), strobe: false, shift: 0 }
    }

    /// A write to $4016: bit 0 is the strobe; raising it relatches and
    /// rewinds the shift position.
    pub fn write_strobe(&mut self, v: u8)
        requires
            old(self).wf(),
        ensures
            final(self).wf(),
            final(self).strobe == (v % 2 == 1),
            final(self).shift == (if v % 2 == 1 {
                0u8
            } else {
                old(self).shift
            }),
            final(self).gamepad == old(self).gamepad,
    {
        self.strobe = v % 2 == 1;
        if self.strobe {
            self.shift = 0;
        }
    }

    /// A read of $4016: one button per read in the documented order,
    /// or the A button while the strobe is high.
    pub fn read(&mut self) -> (r: u8)
        requires
            old(self).wf(),
        ensures
            final(self).wf(),
            final(self).gamepad == old(self).gamepad,
            final(self).strobe == old(self).strobe,
            old(self).strobe ==> {
                &&& r == (if old(self).gamepad.a {
                    1u8
                } else {
                    0u8
                })
                &&& final(self).shift == old(self).shift
            },
            !old(self).strobe ==> {
                &&& r == (if spec_button_at(old(self).gamepad, old(self).shift) {
                    1u8
                } else {
                    0u8
                })
                &&& final(self).shift == (if old(self).shift < 8 {
                    (old(self).shift + 1) as u8
                } else {
                    old(self).shift
                })
            },
    {
        if self.strobe {
            if self.gamepad.a {
                1
            } else {
                0
            }
        } else {
            let pressed: bool = if self.shift == 0 {
                self.gamepad.a
            } else if self.shift == 1 {
                self.gamepad.b
            } else if self.shift == 2 {
                self.gamepad.select
            } else if self.shift == 3 {
                self.gamepad.start
            } else if self.shift == 4 {
                self.gamepad.up
            } else if self.shift == 5 {
                self.gamepad.down
            } else if self.shift == 6 {
                self.gamepad.left
            } else if self.shift == 7 {
                self.gamepad.right
            } else {
                true
            };
            if self.shift < 8 {
                self.shift = self.shift + 1;
            }
            if pressed {
                1
            } else {
                0
            }
        }
    }
}

} // verus!
