//! The controller port: a strobe-gated shift register feeding a one-bit read
//! port. The button-state byte holds, from bit 7 down to bit 0: A, B,
//! Select, Start, Up, Down, Left, Right. While the strobe is high the shift
//! mask is pinned to the A position; while it is low each read reports the
//! selected button and moves the mask one position to the right, reloading
//! at the A position after the last button.

use vstd::prelude::*;

verus! {

/// Plain-value view of a controller port.
#[verifier::ext_equal]
pub ghost struct ControllerV {
    pub shift: u8,
    pub buttons: u8,
    pub strobe: bool,
}

/// The button mask a host key selects: U, I, V, B, W, S, A and D choose the
/// A, B, Select, Start, Up, Down, Left and Right buttons; any other key
/// selects nothing.
pub open spec fn key_mask_s(key: char) -> u8 {
    if key == 'U' {
        0x80u8
    } else if key == 'I' {
        0x40u8
    } else if key == 'V' {
        0x20u8
    } else if key == 'B' {
        0x10u8
    } else if key == 'W' {
        0x08u8
    } else if key == 'S' {
        0x04u8
    } else if key == 'A' {
        0x02u8
    } else if key == 'D' {
        0x01u8
    } else {
        0x00u8
    }
}

/// One read from the port: the returned bit, paired with the state after
/// the read.
pub open spec fn controller_read_s(c: ControllerV) -> (ControllerV, u8) {
    let v: u8 = if c.buttons & c.shift != 0 { 1 } else { 0 };
    if !c.strobe {
        let sh = c.shift >> 1;
        let sh2: u8 = if sh == 0 { 0x80 } else { sh };
        (ControllerV { shift: sh2, ..c }, v)
    } else {
        (c, v)
    }
}

/// The state after `n` reads with nothing between them.
pub open spec fn controller_after_reads(c: ControllerV, n: nat) -> ControllerV
    decreases n,
{
    if n == 0 {
        c
    } else {
        controller_read_s(controller_after_reads(c, (n - 1) as nat)).0
    }
}

/// The bit returned by the `n`-th read (counting from 0) of an uninterrupted
/// run of reads.
pub open spec fn controller_nth_read(c: ControllerV, n: nat) -> u8 {
    controller_read_s(controller_after_reads(c, n)).1
}

#[derive(Clone)]
pub struct Controller {
    shift: u8,
    button_states: u8,
    strobe: bool,
}

impl View for Controller {
    type V = ControllerV;

    closed spec fn view(&self) -> ControllerV {
        ControllerV { shift: self.shift, buttons: self.button_states, strobe: self.strobe }
    }
}

impl Controller {
    pub fn new() -> (r: Self)
        ensures
            r@ == (ControllerV { shift: 0x80u8, buttons: 0u8, strobe: false }),
    {
        Controller { shift: 0x80, button_states: 0x00, strobe: false }
    }

    /// Reads one bit from the port and, when the strobe is low, advances the
    /// shift mask.
    pub fn read(&mut self) -> (r: u8)
        ensures
            (final(self)@, r) == controller_read_s(old(self)@),
    {
        let mut res: u8 = 0;
        if self.button_states & self.shift != 0 {
            res = 0x01;
        }
        if !self.strobe {
            self.shift = self.shift >> 1;
            if self.shift == 0 {
                self.shift = 0x80;
            }
        }
        res
    }

    /// Raises the strobe and pins the shift mask to the A button.
    pub fn set_strobe(&mut self)
        ensures
            final(self)@ == (ControllerV { shift: 0x80u8, strobe: true, ..old(self)@ }),
    {
        self.strobe = true;
        self.shift = 0x80;
    }

    /// Lowers the strobe; the next reads walk the buttons in order.
    pub fn reset_strobe(&mut self)
        ensures
            final(self)@ == (ControllerV { strobe: false, ..old(self)@ }),
    {
        self.strobe = false;
    }

    /// Applies a host key event: pressing a mapped key raises the button
    /// bit it selects, releasing lowers it, and an unmapped key leaves the
    /// buttons as they were.
    pub fn keyboard_input(&mut self, key: char, pressed: bool)
        ensures
            final(self)@ == (ControllerV {
                buttons: if pressed {
                    old(self)@.buttons | key_mask_s(key)
                } else {
                    (old(self)@.buttons & !key_mask_s(key)) as u8
                },
                ..old(self)@
            }),
    {
        let mask: u8 = if key == 'U' {
            0x80
        } else if key == 'I' {
            0x40
        } else if key == 'V' {
            0x20
        } else if key == 'B' {
            0x10
        } else if key == 'W' {
            0x08
        } else if key == 'S' {
            0x04
        } else if key == 'A' {
            0x02
        } else if key == 'D' {
            0x01
        } else {
            0x00
        };
        self.set_button_state(mask, pressed);
    }

    /// Records a press or release of the buttons selected by `mask`.
    pub fn set_button_state(&mut self, mask: u8, pressed: bool)
        ensures
            final(self)@ == (ControllerV {
                buttons: if pressed { old(self)@.buttons | mask } else { old(self)@.buttons & !mask },
                ..old(self)@
            }),
    {
        if pressed {
            self.button_states |= mask;
        } else {
            self.button_states &= !mask;
        }
    }
}

/// With the strobe low and the shift mask at the A position, the first eight
/// reads report the buttons in order A, B, Select, Start, Up, Down, Left,
/// Right (bit 7 of the button byte down to bit 0); the ninth read reports
/// the A button again, and after eight reads the port is back in its
/// starting state, so the readout repeats with period eight.
pub proof fn lemma_controller_read_order(c: ControllerV, n: nat)
    requires
        !c.strobe,
        c.shift == 0x80,
        n < 8,
    ensures
        controller_nth_read(c, n) == ((c.buttons >> ((7 - n) as u8)) & 1),
        controller_nth_read(c, 8) == ((c.buttons >> 7) & 1),
        controller_after_reads(c, 8) == c,
{
    let b = c.buttons;
    assert forall|k: nat| k <= 8 implies #[trigger] controller_after_reads(c, k).shift == shift_mask(k)
        && !controller_after_reads(c, k).strobe && controller_after_reads(c, k).buttons == b by {
        lemma_controller_shift_walk(c, k);
    }
    assert(forall|m: u8, i: u8|
        i < 8 ==> ((m & (0x80u8 >> i) != 0) <==> ((m >> ((7 - i) as u8)) & 1 == 1))) by (bit_vector);
    assert(forall|m: u8, i: u8| i < 8 ==> (m >> i) & 1 == 0 || (m >> i) & 1 == 1) by (bit_vector);
    assert((0x80u8 >> 0) == 0x80u8 && (0x80u8 >> 1) == 0x40u8 && (0x80u8 >> 2) == 0x20u8
        && (0x80u8 >> 3) == 0x10u8 && (0x80u8 >> 4) == 0x08u8 && (0x80u8 >> 5) == 0x04u8
        && (0x80u8 >> 6) == 0x02u8 && (0x80u8 >> 7) == 0x01u8) by (bit_vector);
    assert(shift_mask(n) == 0x80u8 >> (n as u8));
    assert(shift_mask(8) == 0x80u8 >> 0);
}

/// The one-hot mask selected before the `k`-th read of a strobe-low run that
/// started at the A position.
pub open spec fn shift_mask(k: nat) -> u8 {
    if k % 8 == 0 { 0x80u8 }
    else if k % 8 == 1 { 0x40u8 }
    else if k % 8 == 2 { 0x20u8 }
    else if k % 8 == 3 { 0x10u8 }
    else if k % 8 == 4 { 0x08u8 }
    else if k % 8 == 5 { 0x04u8 }
    else if k % 8 == 6 { 0x02u8 }
    else { 0x01u8 }
}

proof fn lemma_controller_shift_walk(c: ControllerV, k: nat)
    requires
        !c.strobe,
        c.shift == 0x80,
    ensures
        controller_after_reads(c, k).shift == shift_mask(k),
        !controller_after_reads(c, k).strobe,
        controller_after_reads(c, k).buttons == c.buttons,
    decreases k,
{
    assert((0x80u8 >> 1) == 0x40u8 && (0x40u8 >> 1) == 0x20u8 && (0x20u8 >> 1) == 0x10u8
        && (0x10u8 >> 1) == 0x08u8 && (0x08u8 >> 1) == 0x04u8 && (0x04u8 >> 1) == 0x02u8
        && (0x02u8 >> 1) == 0x01u8 && (0x01u8 >> 1) == 0x00u8) by (bit_vector);
    if k > 0 {
        lemma_controller_shift_walk(c, (k - 1) as nat);
        assert((k - 1) % 8 == if k % 8 == 0 { 7int } else { k % 8 - 1 });
    }
}

} // verus!
