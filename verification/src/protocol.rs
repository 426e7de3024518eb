//! The wire protocol: bus addresses, opcodes and the two-byte framing.

use vstd::prelude::*;

verus! {

/// Bus address of the text controller.
pub const LCD_ADDRESS: u8 = 0x3E;

/// Bus address of the backlight controller.
pub const RGB_ADDRESS: u8 = 0x62;

/// Control byte that marks the second byte of a write as an instruction.
pub const CONTROL_COMMAND: u8 = 0x80;

/// Control byte that marks the second byte of a write as display content.
pub const CONTROL_DATA: u8 = 0x40;

pub const CMD_CLEAR: u8 = 0x01;

pub const CMD_HOME: u8 = 0x02;

pub const CMD_ENTRY_MODE: u8 = 0x04;

pub const CMD_ENTRY: u8 = 0x06;

pub const CMD_DISPLAY_OFF: u8 = 0x08;

pub const CMD_DISPLAY_ON: u8 = 0x0C;

pub const CMD_SCROLL_LEFT: u8 = 0x18;

pub const CMD_SCROLL_RIGHT: u8 = 0x1E;

pub const CMD_FUNCTION_SET: u8 = 0x38;

pub const CMD_SET_CGRAM_ADDR: u8 = 0x40;

pub const CMD_SET_DDRAM_ADDR: u8 = 0x80;

/// Backlight register of the red channel.
pub const REG_RED: u8 = 0x04;

/// Backlight register of the green channel.
pub const REG_GREEN: u8 = 0x03;

/// Backlight register of the blue channel.
pub const REG_BLUE: u8 = 0x02;

/// One thing the bus owner has to do on behalf of the driver.
#[derive(Clone, Copy, Debug, PartialEq, Eq, Structural)]
pub enum Effect {
    /// Send the two bytes `[control, value]` to the device at `address`.
    Write { address: u8, control: u8, value: u8 },
    /// Wait at least `millis` milliseconds before the next effect.
    Delay { millis: u32 },
}

/// The write that carries instruction `cmd` to the text controller.
pub open spec fn command_frame(cmd: u8) -> Effect {
    Effect::Write { address: LCD_ADDRESS, control: CONTROL_COMMAND, value: cmd }
}

/// The write that carries content byte `byte` to the text controller.
pub open spec fn data_frame(byte: u8) -> Effect {
    Effect::Write { address: LCD_ADDRESS, control: CONTROL_DATA, value: byte }
}

/// The write that stores `value` in backlight register `register`.
pub open spec fn backlight_frame(register: u8, value: u8) -> Effect {
    Effect::Write { address: RGB_ADDRESS, control: register, value }
}

/// A hold-off of `millis` milliseconds.
pub open spec fn delay(millis: u32) -> Effect {
    Effect::Delay { millis }
}

/// The byte sent for a character: its code point reduced modulo 256.
pub open spec fn code_unit(c: char) -> u8 {
    ((c as u32) % 256) as u8
}

/// The display-data address of a cell, reduced modulo 256.
pub open spec fn ddram_address(row: u8, col: u8) -> u8 {
    ((0x80 + 0x40 * row + col) % 256) as u8
}

/// The instruction that opens glyph slot `slot`, reduced modulo 256.
pub open spec fn cgram_address(slot: u8) -> u8 {
    ((0x40 + 8 * slot) % 256) as u8
}

/// `bits` with the bits of `mask` set when `on`, cleared otherwise.
pub open spec fn with_flag(bits: u8, mask: u8, on: bool) -> u8 {
    if on {
        bits | mask
    } else {
        bits & !mask
    }
}

impl Effect {
    /// Frames an instruction for the text controller.
    pub fn command(cmd: u8) -> (e: Effect)
        ensures
            e == command_frame(cmd),
    {
        Effect::Write { address: LCD_ADDRESS, control: CONTROL_COMMAND, value: cmd }
    }

    /// Frames a content byte for the text controller.
    pub fn data(byte: u8) -> (e: Effect)
        ensures
            e == data_frame(byte),
    {
        Effect::Write { address: LCD_ADDRESS, control: CONTROL_DATA, value: byte }
    }

    /// Frames a register write for the backlight controller.
    pub fn backlight(register: u8, value: u8) -> (e: Effect)
        ensures
            e == backlight_frame(register, value),
    {
        Effect::Write { address: RGB_ADDRESS, control: register, value }
    }

    /// Whether this effect is a bus write, the only kind that can fail.
    pub fn is_write(&self) -> (b: bool)
        ensures
            b == (*self is Write),
    {
        match self {
            Effect::Write { .. } => true,
            Effect::Delay { .. } => false,
        }
    }

    /// The two bytes of a write in the order they go on the bus; `None` for a delay.
    pub fn payload(&self) -> (p: Option<[u8; 2]>)
        ensures
            match *self {
                Effect::Write { control, value, .. } => p is Some && p->0@ == seq![control, value],
                Effect::Delay { .. } => p is None,
            },
    {
        match self {
            Effect::Write { control, value, .. } => Some([*control, *value]),
            Effect::Delay { .. } => None,
        }
    }
}

/// Computes the byte sent for a character.
pub fn char_code_unit(c: char) -> (b: u8)
    ensures
        b == code_unit(c),
{
    let wide: u32 = c as u32;
    (wide % 256) as u8
}

/// Computes the display-data address of a cell; out-of-range cells wrap.
pub fn cursor_address(row: u8, col: u8) -> (a: u8)
    ensures
        a == ddram_address(row, col),
{
    let wide: u32 = 0x80 + 0x40 * (row as u32) + (col as u32);
    (wide % 256) as u8
}

/// Computes the instruction that opens a glyph slot; out-of-range slots wrap.
pub fn glyph_address(slot: u8) -> (a: u8)
    ensures
        a == cgram_address(slot),
{
    let wide: u32 = 0x40 + 8 * (slot as u32);
    (wide % 256) as u8
}

/// Sets or clears the bits of `mask` in `bits`.
pub fn apply_flag(bits: u8, mask: u8, on: bool) -> (r: u8)
    ensures
        r == with_flag(bits, mask, on),
{
    if on {
        bits | mask
    } else {
        bits & !mask
    }
}

} // verus!
