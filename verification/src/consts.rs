//! Opcodes and flag bits of the HD44780 instruction set, and the expander's
//! control lines.

use vstd::prelude::*;

verus! {

pub const LCD_CLEARDISPLAY: u8 = 0x01;
pub const LCD_RETURNHOME: u8 = 0x02;
pub const LCD_ENTRYMODESET: u8 = 0x04;
pub const LCD_DISPLAYCONTROL: u8 = 0x08;
pub const LCD_CURSORSHIFT: u8 = 0x10;
pub const LCD_FUNCTIONSET: u8 = 0x20;
pub const LCD_SETCGRAMADDR: u8 = 0x40;
pub const LCD_SETDDRAMADDR: u8 = 0x80;

// Entry mode flags.
pub const LCD_ENTRYLEFT: u8 = 0x02;
pub const LCD_ENTRYSHIFTINCREMENT: u8 = 0x01;
pub const LCD_ENTRYSHIFTDECREMENT: u8 = 0x00;

// Display control flags.
pub const LCD_DISPLAYON: u8 = 0x04;
pub const LCD_CURSORON: u8 = 0x02;
pub const LCD_CURSOROFF: u8 = 0x00;
pub const LCD_BLINKON: u8 = 0x01;
pub const LCD_BLINKOFF: u8 = 0x00;

// Cursor/display shift flags.
pub const LCD_DISPLAYMOVE: u8 = 0x08;
pub const LCD_MOVERIGHT: u8 = 0x04;
pub const LCD_MOVELEFT: u8 = 0x00;

// Function set flags.
pub const LCD_4BITMODE: u8 = 0x00;
pub const LCD_2LINE: u8 = 0x08;
pub const LCD_1LINE: u8 = 0x00;
pub const LCD_5X8DOTS: u8 = 0x00;

// Expander lines.
pub const LCD_BACKLIGHT: u8 = 0x08;
pub const LCD_NOBACKLIGHT: u8 = 0x00;
pub const EN: u8 = 0x04;
pub const RS: u8 = 0x01;

/// The expander's 7-bit bus address.
pub const LCD_ADDRESS: u8 = 0x27;

/// Every flag bit a display-control record may hold.
pub const CONTROL_FLAGS: u8 = 0x07;
/// Every flag bit an entry-mode record may hold.
pub const MODE_FLAGS: u8 = 0x03;

/// How often the power-on sequence repeats the reset write.
pub const RESET_ROUNDS: u8 = 3;

// Settle times.
pub const POWER_ON_MS: u32 = 50;
pub const LATCH_MS: u32 = 1000;
pub const RESET_US: u32 = 4500;
pub const SETTLE_US: u32 = 2000;
pub const ENABLE_HIGH_US: u32 = 1;
pub const ENABLE_CYCLE_US: u32 = 50;

} // verus!
