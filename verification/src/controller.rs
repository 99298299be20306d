//! Standard 8-button controller: a strobe-latched shift register read one
//! bit at a time through address 0x4016.

use vstd::prelude::*;

verus! {

#[derive(Clone, Copy)]
pub enum Button {
    UP,
    DOWN,
    LEFT,
    RIGHT,
    A,
    B,
    SELECT,
    START,
}

/// Eight per-button 0/1 values, the shift index, and the strobe flag.
/// While strobe is high the shift index is pinned at 0; when strobe goes low
/// the next eight reads shift out A, B, Select, Start, Up, Down, Left, Right
/// in that order, and later reads return 1.
pub struct Controller {
    pub up: u8,
    pub down: u8,
    pub left: u8,
    pub right: u8,
    pub a: u8,
    pub b: u8,
    pub select: u8,
    pub start: u8,
    pub read_counter: u8,
    pub strobe_high: bool,
}

impl Controller {
    pub open spec fn wf(self) -> bool {
        self.up <= 1 && self.down <= 1 && self.left <= 1 && self.right <= 1 && self.a <= 1
            && self.b <= 1 && self.select <= 1 && self.start <= 1 && self.read_counter <= 8
            && (self.strobe_high ==> self.read_counter == 0)
    }

    /// The button reported at shift position `i`, in hardware shift order.
    pub open spec fn spec_button(self, i: u8) -> u8 {
        if i == 0 {
            self.a
        } else if i == 1 {
            self.b
        } else if i == 2 {
            self.select
        } else if i == 3 {
            self.start
        } else if i == 4 {
            self.up
        } else if i == 5 {
            self.down
        } else if i == 6 {
            self.left
        } else {
            self.right
        }
    }

    /// What a read of 0x4016 returns in this state.
    pub open spec fn spec_read_result(self) -> u8 {
        (0x40u8 | (if self.read_counter < 8 {
            self.spec_button(self.read_counter)
        } else {
            1u8
        })) as u8
    }

    /// The state after one read: the shift index advances only while strobe
    /// is low and buttons remain to shift out.
    pub open spec fn spec_after_read(self) -> Controller {
        if !self.strobe_high && self.read_counter < 8 {
            Controller { read_counter: (self.read_counter + 1) as u8, ..self }
        } else {
            self
        }
    }

    /// The state after a write to 0x4016: bit 0 drives the strobe, and a high
    /// strobe pins the shift index at 0.
    pub open spec fn spec_after_write(self, value: u8) -> Controller {
        if value & 0x01 != 0 {
            Controller { strobe_high: true, read_counter: 0, ..self }
        } else {
            Controller { strobe_high: false, ..self }
        }
    }

    /// The state in which the button named by `button` has the 0/1 value
    /// `pressed` and everything else is unchanged.
    pub open spec fn spec_with_button(self, button: Button, pressed: u8) -> Controller {
        match button {
            Button::UP => Controller { up: pressed, ..self },
            Button::DOWN => Controller { down: pressed, ..self },
            Button::LEFT => Controller { left: pressed, ..self },
            Button::RIGHT => Controller { right: pressed, ..self },
            Button::A => Controller { a: pressed, ..self },
            Button::B => Controller { b: pressed, ..self },
            Button::SELECT => Controller { select: pressed, ..self },
            Button::START => Controller { start: pressed, ..self },
        }
    }

    /// The freshly constructed controller: no buttons held, strobe high.
    pub open spec fn spec_new() -> Controller {
        Controller {
            up: 0u8,
            down: 0u8,
            left: 0u8,
            right: 0u8,
            a: 0u8,
            b: 0u8,
            select: 0u8,
            start: 0u8,
            read_counter: 0u8,
            strobe_high: true,
        }
    }

    pub fn new() -> (c: Controller)
        ensures
            c.wf(),
            c == Controller::spec_new(),
    {
        Self {
            up: 0,
            down: 0,
            left: 0,
            right: 0,
            a: 0,
            b: 0,
            select: 0,
            start: 0,
            read_counter: 0,
            strobe_high: true,
        }
    }

    pub fn pressed(&mut self, button: Button)
        requires
            old(self).wf(),
        ensures
            final(self).wf(),
            *final(self) == old(self).spec_with_button(button, 1),
    {
        self.button_change(button, true);
    }

    pub fn released(&mut self, button: Button)
        requires
            old(self).wf(),
        ensures
            final(self).wf(),
            *final(self) == old(self).spec_with_button(button, 0),
    {
        self.button_change(button, false);
    }

    fn button_change(&mut self, button: Button, pressed: bool)
        requires
            old(self).wf(),
        ensures
            final(self).wf(),
            *final(self) == old(self).spec_with_button(button, if pressed { 1u8 } else { 0u8 }),
    {
        let value: u8 = match pressed {
            true => 1,
            false => 0,
        };
        match button {
            Button::UP => self.up = value,
            Button::DOWN => self.down = value,
            Button::LEFT => self.left = value,
            Button::RIGHT => self.right = value,
            Button::A => self.a = value,
            Button::B => self.b = value,
            Button::SELECT => self.select = value,
            Button::START => self.start = value,
        }
    }

    pub fn read(&mut self) -> (r: u8)
        requires
            old(self).wf(),
        ensures
            final(self).wf(),
            r == old(self).spec_read_result(),
            *final(self) == old(self).spec_after_read(),
    {
        let value: u8 = match self.read_counter {
            0 => self.a,
            1 => self.b,
            2 => self.select,
            3 => self.start,
            4 => self.up,
            5 => self.down,
            6 => self.left,
            7 => self.right,
            _ => 1,
        };
        if !self.strobe_high && self.read_counter < 8 {
            self.read_counter += 1;
        }
        return 0x40 | value;
    }

    pub fn write(&mut self, value: u8)
        requires
            old(self).wf(),
        ensures
            final(self).wf(),
            *final(self) == old(self).spec_after_write(value),
    {
        self.strobe_high = value & 0x01 != 0;
        if self.strobe_high {
            self.read_counter = 0;
        }
    }
}

/// The state reached after reading `k` times in a row from `c`.
pub open spec fn reads_after(c: Controller, k: nat) -> Controller
    decreases k,
{
    if k == 0 {
        c
    } else {
        reads_after(c, (k - 1) as nat).spec_after_read()
    }
}

/// Controller shift order: after driving the strobe high and then low with
/// only A and Start pressed, the low bits of the first eight reads of 0x4016
/// are 1, 0, 0, 1, 0, 0, 0, 0.
pub proof fn lemma_shift_order(c: Controller)
    requires
        c.wf(),
        c.a == 1,
        c.start == 1,
        c.b == 0,
        c.select == 0,
        c.up == 0,
        c.down == 0,
        c.left == 0,
        c.right == 0,
    ensures
        ({
            let s = c.spec_after_write(1).spec_after_write(0);
            &&& reads_after(s, 0).spec_read_result() & 1 == 1
            &&& reads_after(s, 1).spec_read_result() & 1 == 0
            &&& reads_after(s, 2).spec_read_result() & 1 == 0
            &&& reads_after(s, 3).spec_read_result() & 1 == 1
            &&& reads_after(s, 4).spec_read_result() & 1 == 0
            &&& reads_after(s, 5).spec_read_result() & 1 == 0
            &&& reads_after(s, 6).spec_read_result() & 1 == 0
            &&& reads_after(s, 7).spec_read_result() & 1 == 0
        }),
{
    assert(1u8 & 0x01 == 1 && 0u8 & 0x01 == 0) by (bit_vector);
    let s = c.spec_after_write(1).spec_after_write(0);
    assert(s.read_counter == 0 && !s.strobe_high);
    assert(reads_after(s, 0) == s);
    assert(reads_after(s, 1) == reads_after(s, 0).spec_after_read());
    assert(reads_after(s, 2) == reads_after(s, 1).spec_after_read());
    assert(reads_after(s, 3) == reads_after(s, 2).spec_after_read());
    assert(reads_after(s, 4) == reads_after(s, 3).spec_after_read());
    assert(reads_after(s, 5) == reads_after(s, 4).spec_after_read());
    assert(reads_after(s, 6) == reads_after(s, 5).spec_after_read());
    assert(reads_after(s, 7) == reads_after(s, 6).spec_after_read());
    assert((0x40u8 | 1u8) & 1 == 1 && (0x40u8 | 0u8) & 1 == 0) by (bit_vector);
}

} // verus!
