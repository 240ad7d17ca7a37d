//! Standard controller: an 8-bit button state shifted out one bit per read
//! under the strobe protocol. A strobe write holds and restarts the shifter;
//! releasing it lets the eight button bits shift out in order. The shifter
//! reads the live button byte rather than a snapshot frozen at the strobe
//! write — indistinguishable unless the host changes buttons in the middle
//! of one eight-read burst.

use vstd::prelude::*;

verus! {

/// The eight buttons of the standard controller, in shift-out order.
#[derive(Clone, Copy, PartialEq, Eq, Structural, Debug)]
pub enum StandardNESKey {
    A,
    B,
    Select,
    Start,
    Up,
    Down,
    Left,
    Right,
}

impl StandardNESKey {
    /// Position of this button in the serial shift order.
    pub open spec fn spec_bit(self) -> u8 {
        match self {
            StandardNESKey::A => 0u8,
            StandardNESKey::B => 1u8,
            StandardNESKey::Select => 2u8,
            StandardNESKey::Start => 3u8,
            StandardNESKey::Up => 4u8,
            StandardNESKey::Down => 5u8,
            StandardNESKey::Left => 6u8,
            StandardNESKey::Right => 7u8,
        }
    }
}

/// Bit `bit` of `v`, as 0 or 1.
pub open spec fn spec_bit_of(v: u8, bit: u8) -> u8 {
    (v >> bit) & 1
}

/// One controller port: the live button states and the serial shift register.
#[derive(Clone, PartialEq, Eq, Structural, Debug)]
pub struct Controller {
    /// Current button states, one bit per button in shift order.
    pub buttons: u8,
    /// While true, reads keep returning the first button.
    pub strobe: bool,
    /// Next bit to be shifted out; reads past the eighth return 1.
    pub shift_index: u8,
}

impl Controller {
    pub open spec fn wf(self) -> bool {
        self.shift_index <= 8
    }

    /// A controller at power-on: nothing pressed, shift register idle.
    pub fn power_on() -> (r: Controller)
        ensures
            r.wf(),
            r.buttons == 0,
            !r.strobe,
            r.shift_index == 0,
    {
        Controller { buttons: 0, strobe: false, shift_index: 0 }
    }

    /// Presses or releases one button, leaving every other button unchanged.
    pub fn set_state(&mut self, key: StandardNESKey, pressed: bool)
        requires
            old(self).wf(),
        ensures
            final(self).wf(),
            spec_bit_of(final(self).buttons, key.spec_bit()) == if pressed {
                1u8
            } else {
                0u8
            },
            forall|k: StandardNESKey|
                k != key ==> spec_bit_of(final(self).buttons, k.spec_bit()) == spec_bit_of(
                    old(self).buttons,
                    k.spec_bit(),
                ),
            final(self).strobe == old(self).strobe,
            final(self).shift_index == old(self).shift_index,
    {
        let mask: u8 = match key {
            StandardNESKey::A => 1,
            StandardNESKey::B => 2,
            StandardNESKey::Select => 4,
            StandardNESKey::Start => 8,
            StandardNESKey::Up => 16,
            StandardNESKey::Down => 32,
            StandardNESKey::Left => 64,
            StandardNESKey::Right => 128,
        };
        if pressed {
            self.buttons = self.buttons | mask;
        } else {
            self.buttons = self.buttons & !mask;
        }
        proof {
            let ob = old(self).buttons;
            let tb = key.spec_bit();
            assert(mask == (1u8 << tb)) by {
                assert((1u8 << 0) == 1 && (1u8 << 1) == 2 && (1u8 << 2) == 4 && (1u8 << 3) == 8 && (
                1u8 << 4) == 16 && (1u8 << 5) == 32 && (1u8 << 6) == 64 && (1u8 << 7) == 128)
                    by (bit_vector);
            }
            if pressed {
                assert(((ob | (1u8 << tb)) >> tb) & 1 == 1) by (bit_vector)
                    requires
                        tb < 8,
                ;
                assert(forall|kb: u8|
                    kb < 8 && kb != tb ==> ((ob | (1u8 << tb)) >> kb) & 1 == (ob >> kb) & 1)
                    by (bit_vector)
                    requires
                        tb < 8,
                ;
            } else {
                assert(((ob & !(1u8 << tb)) >> tb) & 1 == 0) by (bit_vector)
                    requires
                        tb < 8,
                ;
                assert(forall|kb: u8|
                    kb < 8 && kb != tb ==> ((ob & !(1u8 << tb)) >> kb) & 1 == (ob >> kb) & 1)
                    by (bit_vector)
                    requires
                        tb < 8,
                ;
            }
        }
    }

    /// A write to the strobe register: bit 0 set holds the shift register on
    /// the first button; clearing it lets subsequent reads shift.
    pub fn strobe_write(&mut self, data: u8)
        requires
            old(self).wf(),
        ensures
            final(self).wf(),
            final(self).strobe == ((data & 1) == 1),
            final(self).buttons == old(self).buttons,
            final(self).strobe ==> final(self).shift_index == 0,
            !final(self).strobe ==> final(self).shift_index == old(self).shift_index,
    {
        self.strobe = data & 1 == 1;
        if self.strobe {
            self.shift_index = 0;
        }
    }

    /// A serial read: returns the next button bit (1 once all eight have been
    /// shifted out), advancing the shift register unless the strobe is held.
    pub fn serial_read(&mut self) -> (r: u8)
        requires
            old(self).wf(),
        ensures
            final(self).wf(),
            final(self).buttons == old(self).buttons,
            final(self).strobe == old(self).strobe,
            old(self).strobe ==> r == spec_bit_of(old(self).buttons, 0) && final(self).shift_index
                == old(self).shift_index,
            !old(self).strobe && old(self).shift_index < 8 ==> r == spec_bit_of(
                old(self).buttons,
                old(self).shift_index,
            ) && final(self).shift_index == old(self).shift_index + 1,
            !old(self).strobe && old(self).shift_index == 8 ==> r == 1 && final(self).shift_index
                == 8,
    {
        if self.strobe {
            (self.buttons >> 0u8) & 1
        } else if self.shift_index < 8 {
            let idx = self.shift_index;
            let r = (self.buttons >> idx) & 1;
            self.shift_index = idx + 1;
            r
        } else {
            1
        }
    }
}

} // verus!
