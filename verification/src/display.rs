//! The display driver: two bytes of mode flags and the encoding of every
//! display operation as an ordered list of effects.

use vstd::prelude::*;
use vstd::std_specs::iter::IteratorSpec;
use crate::protocol::{
    Effect, command_frame, data_frame, backlight_frame, delay, code_unit, ddram_address,
    cgram_address, with_flag, char_code_unit, cursor_address, glyph_address, apply_flag,
    CMD_CLEAR, CMD_HOME, CMD_ENTRY, CMD_ENTRY_MODE, CMD_DISPLAY_OFF, CMD_DISPLAY_ON,
    CMD_FUNCTION_SET, CMD_SCROLL_LEFT, CMD_SCROLL_RIGHT, REG_RED, REG_GREEN, REG_BLUE,
};

verus! {

/// Flag of `display_control`: the cursor blinks.
pub const FLAG_BLINK: u8 = 0x01;

/// Flag of `display_control`: the cursor is visible.
pub const FLAG_CURSOR: u8 = 0x02;

/// Flag of `entry_display_mode`: the display scrolls as text is entered.
pub const FLAG_AUTOSCROLL: u8 = 0x01;

/// Flag of `entry_display_mode`: text is entered from left to right.
pub const FLAG_LEFT_TO_RIGHT: u8 = 0x02;

/// The mode flags of a driver, as plain values.
pub struct Modes {
    pub display_control: u8,
    pub entry_display_mode: u8,
}

/// The power-on sequence of the controller.
pub open spec fn init_effects() -> Seq<Effect> {
    seq![
        delay(50),
        command_frame(CMD_FUNCTION_SET),
        delay(5),
        command_frame(CMD_FUNCTION_SET),
        delay(1),
        command_frame(CMD_FUNCTION_SET),
        command_frame(CMD_DISPLAY_ON),
        command_frame(CMD_CLEAR),
        command_frame(CMD_ENTRY),
    ]
}

/// The three register writes that set the backlight colour: red, green, blue.
pub open spec fn color_effects(r: u8, g: u8, b: u8) -> Seq<Effect> {
    seq![backlight_frame(REG_RED, r), backlight_frame(REG_GREEN, g), backlight_frame(REG_BLUE, b)]
}

/// One content write per character of `text`, in order.
pub open spec fn text_effects(text: Seq<char>) -> Seq<Effect> {
    text.map_values(|c: char| data_frame(code_unit(c)))
}

/// One content write per pattern byte, in order.
pub open spec fn pattern_effects(pattern: Seq<u8>) -> Seq<Effect> {
    pattern.map_values(|b: u8| data_frame(b))
}

/// The instruction that opens glyph slot `slot`, then its pattern bytes.
pub open spec fn glyph_effects(slot: u8, pattern: Seq<u8>) -> Seq<Effect> {
    seq![command_frame(cgram_address(slot))] + pattern_effects(pattern)
}

/// An instruction followed by the two milliseconds the controller needs for it.
pub open spec fn slow_command_effects(cmd: u8) -> Seq<Effect> {
    seq![command_frame(cmd), delay(2)]
}

/// Switching one of the two defined flags leaves the other bits as they were.
pub proof fn lemma_flag_stays_in_range(bits: u8, mask: u8, on: bool)
    requires
        bits <= 3,
        mask == 1 || mask == 2,
    ensures
        with_flag(bits, mask, on) <= 3,
{
    assert(bits <= 3 && (mask == 1 || mask == 2) ==> (bits | mask) <= 3 && (bits & !mask) <= 3)
        by (bit_vector);
}

/// Driver state of one JHD1313M1 display.
pub struct JHD1313M1 {
    display_control: u8,
    entry_display_mode: u8,
}

impl View for JHD1313M1 {
    type V = Modes;

    closed spec fn view(&self) -> Modes {
        Modes {
            display_control: self.display_control,
            entry_display_mode: self.entry_display_mode,
        }
    }
}

impl Modes {
    /// Only the two defined flags of each byte can be set.
    pub open spec fn wf(self) -> bool {
        self.display_control <= 3 && self.entry_display_mode <= 3
    }

    pub open spec fn cursor_visible(self) -> bool {
        self.display_control & FLAG_CURSOR != 0
    }

    pub open spec fn cursor_blinks(self) -> bool {
        self.display_control & FLAG_BLINK != 0
    }

    pub open spec fn left_to_right(self) -> bool {
        self.entry_display_mode & FLAG_LEFT_TO_RIGHT != 0
    }

    pub open spec fn autoscroll(self) -> bool {
        self.entry_display_mode & FLAG_AUTOSCROLL != 0
    }

    /// The modes after a flag of `display_control` is switched.
    pub open spec fn switch_display(self, mask: u8, on: bool) -> Modes {
        Modes { display_control: with_flag(self.display_control, mask, on), ..self }
    }

    /// The modes after a flag of `entry_display_mode` is switched.
    pub open spec fn switch_entry(self, mask: u8, on: bool) -> Modes {
        Modes { entry_display_mode: with_flag(self.entry_display_mode, mask, on), ..self }
    }

    /// The instruction that transmits the display-control flags.
    pub open spec fn display_command(self) -> u8 {
        CMD_DISPLAY_OFF | self.display_control
    }

    /// The instruction that transmits the entry-mode flags.
    pub open spec fn entry_command(self) -> u8 {
        CMD_ENTRY_MODE | self.entry_display_mode
    }
}

impl JHD1313M1 {
    #[verifier::type_invariant]
    spec fn inv(self) -> bool {
        self@.wf()
    }

    /// A driver with every mode flag cleared. Nothing is sent.
    pub fn new() -> (d: Self)
        ensures
            d@ == (Modes { display_control: 0, entry_display_mode: 0 }),
            d@.wf(),
    {
        JHD1313M1 { display_control: 0, entry_display_mode: 0 }
    }

    /// The display-control flags as last transmitted by a flag operation.
    pub fn display_control(&self) -> (bits: u8)
        ensures
            bits == self@.display_control,
            self@.wf(),
    {
        proof {
            use_type_invariant(self);
        }
        self.display_control
    }

    /// The entry-mode flags as last transmitted by a flag operation.
    pub fn entry_display_mode(&self) -> (bits: u8)
        ensures
            bits == self@.entry_display_mode,
            self@.wf(),
    {
        proof {
            use_type_invariant(self);
        }
        self.entry_display_mode
    }

    /// The power-on sequence: three function-set instructions spaced by the
    /// mandated delays, then display-on, clear and entry-mode default.
    pub fn init(&mut self) -> (effects: Vec<Effect>)
        ensures
            effects@ == init_effects(),
            final(self)@ == old(self)@,
    {
        let mut effects: Vec<Effect> = Vec::new();
        effects.push(Effect::Delay { millis: 50 });
        effects.push(Effect::command(CMD_FUNCTION_SET));
        effects.push(Effect::Delay { millis: 5 });
        effects.push(Effect::command(CMD_FUNCTION_SET));
        effects.push(Effect::Delay { millis: 1 });
        effects.push(Effect::command(CMD_FUNCTION_SET));
        effects.push(Effect::command(CMD_DISPLAY_ON));
        effects.push(Effect::command(CMD_CLEAR));
        effects.push(Effect::command(CMD_ENTRY));
        assert(effects@ =~= init_effects());
        effects
    }

    /// Sets the backlight colour, one register write per channel.
    pub fn set_color(&mut self, r: u8, g: u8, b: u8) -> (effects: Vec<Effect>)
        ensures
            effects@ == color_effects(r, g, b),
            final(self)@ == old(self)@,
    {
        let mut effects: Vec<Effect> = Vec::new();
        effects.push(Effect::backlight(REG_RED, r));
        effects.push(Effect::backlight(REG_GREEN, g));
        effects.push(Effect::backlight(REG_BLUE, b));
        assert(effects@ =~= color_effects(r, g, b));
        effects
    }

    /// Writes text at the cursor: one content write per character, whose
    /// byte is the character's code point modulo 256.
    pub fn write(&mut self, msg: &str) -> (effects: Vec<Effect>)
        ensures
            effects@ == text_effects(msg@),
            final(self)@ == old(self)@,
    {
        broadcast use {vstd::string::axiom_spec_iter, vstd::string::next_postcondition};

        let mut effects: Vec<Effect> = Vec::new();
        let mut chars = msg.chars();
        let ghost mut sent: int = 0;
        loop
            invariant
                0 <= sent <= msg@.len(),
                chars.obeys_prophetic_iter_laws(),
                chars.remaining() == msg@.skip(sent),
                effects@ == text_effects(msg@.take(sent)),
            ensures
                effects@ == text_effects(msg@),
            decreases msg@.len() - sent,
        {
            match chars.next() {
                Some(c) => {
                    assert(c == msg@[sent]);
                    effects.push(Effect::data(char_code_unit(c)));
                    proof {
                        assert(effects@ =~= text_effects(msg@.take(sent + 1)));
                        assert(msg@.skip(sent).drop_first() =~= msg@.skip(sent + 1));
                        sent = sent + 1;
                    }
                },
                None => {
                    assert(msg@.take(sent) =~= msg@);
                    break ;
                },
            }
        }
        effects
    }

    /// Moves the cursor to a cell. The address is not checked against the
    /// geometry of the display: it is sent as computed, modulo 256.
    pub fn set_cursor(&mut self, row: u8, col: u8) -> (effects: Vec<Effect>)
        ensures
            effects@ == seq![command_frame(ddram_address(row, col))],
            final(self)@ == old(self)@,
    {
        let mut effects: Vec<Effect> = Vec::new();
        effects.push(Effect::command(cursor_address(row, col)));
        assert(effects@ =~= seq![command_frame(ddram_address(row, col))]);
        effects
    }

    /// Clears the display and waits out the execution time of the instruction.
    pub fn clear(&mut self) -> (effects: Vec<Effect>)
        ensures
            effects@ == slow_command_effects(CMD_CLEAR),
            final(self)@ == old(self)@,
    {
        Self::slow_command(CMD_CLEAR)
    }

    /// Returns the cursor to the first cell and waits out the execution time.
    pub fn home(&mut self) -> (effects: Vec<Effect>)
        ensures
            effects@ == slow_command_effects(CMD_HOME),
            final(self)@ == old(self)@,
    {
        Self::slow_command(CMD_HOME)
    }

    /// Defines a custom glyph: opens its slot, then sends the eight pattern
    /// rows. The slot is not range-checked: its address is sent modulo 256.
    pub fn create_char(&mut self, slot: u8, data: &[u8; 8]) -> (effects: Vec<Effect>)
        ensures
            effects@ == glyph_effects(slot, data@),
            final(self)@ == old(self)@,
    {
        let mut effects: Vec<Effect> = Vec::new();
        effects.push(Effect::command(glyph_address(slot)));
        let mut i: usize = 0;
        while i < 8
            invariant
                i <= 8,
                effects@ == glyph_effects(slot, data@.take(i as int)),
            decreases 8 - i,
        {
            effects.push(Effect::data(data[i]));
            assert(effects@ =~= glyph_effects(slot, data@.take(i + 1)));
            i += 1;
        }
        assert(data@.take(8) =~= data@);
        effects
    }

    /// Shows or hides the cursor and transmits the display-control flags.
    pub fn cursor_on(&mut self, on: bool) -> (effects: Vec<Effect>)
        ensures
            final(self)@ == old(self)@.switch_display(FLAG_CURSOR, on),
            effects@ == seq![command_frame(final(self)@.display_command())],
            final(self)@.wf(),
    {
        proof {
            use_type_invariant(&*self);
            lemma_flag_stays_in_range(self.display_control, FLAG_CURSOR, on);
        }
        self.display_control = apply_flag(self.display_control, FLAG_CURSOR, on);
        Self::single(CMD_DISPLAY_OFF | self.display_control)
    }

    /// Starts or stops the blinking of the cursor and transmits the display-control flags.
    pub fn cursor_blink_on(&mut self, on: bool) -> (effects: Vec<Effect>)
        ensures
            final(self)@ == old(self)@.switch_display(FLAG_BLINK, on),
            effects@ == seq![command_frame(final(self)@.display_command())],
            final(self)@.wf(),
    {
        proof {
            use_type_invariant(&*self);
            lemma_flag_stays_in_range(self.display_control, FLAG_BLINK, on);
        }
        self.display_control = apply_flag(self.display_control, FLAG_BLINK, on);
        Self::single(CMD_DISPLAY_OFF | self.display_control)
    }

    /// Switches the backlight to white or to black. An earlier colour is not remembered.
    pub fn backlight_on(&mut self, on: bool) -> (effects: Vec<Effect>)
        ensures
            effects@ == if on {
                color_effects(255, 255, 255)
            } else {
                color_effects(0, 0, 0)
            },
            final(self)@ == old(self)@,
    {
        if on {
            self.set_color(255, 255, 255)
        } else {
            self.set_color(0, 0, 0)
        }
    }

    /// Shifts the displayed text one cell to the left.
    pub fn scroll_display_left(&mut self) -> (effects: Vec<Effect>)
        ensures
            effects@ == seq![command_frame(CMD_SCROLL_LEFT)],
            final(self)@ == old(self)@,
    {
        Self::single(CMD_SCROLL_LEFT)
    }

    /// Shifts the displayed text one cell to the right.
    pub fn scroll_display_right(&mut self) -> (effects: Vec<Effect>)
        ensures
            effects@ == seq![command_frame(CMD_SCROLL_RIGHT)],
            final(self)@ == old(self)@,
    {
        Self::single(CMD_SCROLL_RIGHT)
    }

    /// Selects the direction of text entry and transmits the entry-mode flags.
    pub fn entry_left_to_right(&mut self, on: bool) -> (effects: Vec<Effect>)
        ensures
            final(self)@ == old(self)@.switch_entry(FLAG_LEFT_TO_RIGHT, on),
            effects@ == seq![command_frame(final(self)@.entry_command())],
            final(self)@.wf(),
    {
        proof {
            use_type_invariant(&*self);
            lemma_flag_stays_in_range(self.entry_display_mode, FLAG_LEFT_TO_RIGHT, on);
        }
        self.entry_display_mode = apply_flag(self.entry_display_mode, FLAG_LEFT_TO_RIGHT, on);
        Self::single(CMD_ENTRY_MODE | self.entry_display_mode)
    }

    /// Switches autoscroll and transmits the entry-mode flags.
    pub fn autoscroll_on(&mut self, on: bool) -> (effects: Vec<Effect>)
        ensures
            final(self)@ == old(self)@.switch_entry(FLAG_AUTOSCROLL, on),
            effects@ == seq![command_frame(final(self)@.entry_command())],
            final(self)@.wf(),
    {
        proof {
            use_type_invariant(&*self);
            lemma_flag_stays_in_range(self.entry_display_mode, FLAG_AUTOSCROLL, on);
        }
        self.entry_display_mode = apply_flag(self.entry_display_mode, FLAG_AUTOSCROLL, on);
        Self::single(CMD_ENTRY_MODE | self.entry_display_mode)
    }

    /// Switches the display on. The cursor flags are neither read nor changed:
    /// the instruction sent shows no cursor, whatever the flags say.
    pub fn power_on(&mut self) -> (effects: Vec<Effect>)
        ensures
            effects@ == seq![command_frame(CMD_DISPLAY_ON)],
            final(self)@ == old(self)@,
    {
        Self::single(CMD_DISPLAY_ON)
    }

    /// Switches the display off. The cursor flags are neither read nor changed.
    pub fn power_off(&mut self) -> (effects: Vec<Effect>)
        ensures
            effects@ == seq![command_frame(CMD_DISPLAY_OFF)],
            final(self)@ == old(self)@,
    {
        Self::single(CMD_DISPLAY_OFF)
    }

    fn single(cmd: u8) -> (effects: Vec<Effect>)
        ensures
            effects@ == seq![command_frame(cmd)],
    {
        let mut effects: Vec<Effect> = Vec::new();
        effects.push(Effect::command(cmd));
        assert(effects@ =~= seq![command_frame(cmd)]);
        effects
    }

    fn slow_command(cmd: u8) -> (effects: Vec<Effect>)
        ensures
            effects@ == slow_command_effects(cmd),
    {
        let mut effects: Vec<Effect> = Vec::new();
        effects.push(Effect::command(cmd));
        effects.push(Effect::Delay { millis: 2 });
        assert(effects@ =~= slow_command_effects(cmd));
        effects
    }
}

} // verus!
