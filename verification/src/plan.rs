//! The step sequences behind each display operation, as mathematical
//! sequences.

use vstd::prelude::*;
use crate::bus::{BusAction, Step};
use crate::consts::{
    EN, ENABLE_CYCLE_US, ENABLE_HIGH_US, LATCH_MS, LCD_1LINE, LCD_2LINE, LCD_4BITMODE,
    LCD_5X8DOTS, LCD_CLEARDISPLAY, LCD_DISPLAYCONTROL, LCD_DISPLAYON, LCD_ENTRYLEFT,
    LCD_ENTRYMODESET, LCD_FUNCTIONSET, LCD_RETURNHOME, LCD_SETCGRAMADDR, LCD_SETDDRAMADDR,
    POWER_ON_MS, RESET_ROUNDS, RESET_US, RS, SETTLE_US,
};

verus! {

pub open spec fn bus_write(value: u8) -> Step {
    Step::Bus(BusAction::Write(value))
}

pub open spec fn wait_us(us: u32) -> Step {
    Step::Bus(BusAction::DelayUs(us))
}

pub open spec fn wait_ms(ms: u32) -> Step {
    Step::Bus(BusAction::DelayMs(ms))
}

/// The enable strobe that latches `data` into the controller: enable high
/// for the pulse time, then low for the cycle time, the backlight line held
/// throughout.
pub open spec fn pulse_steps(data: u8, backlight: u8) -> Seq<Step> {
    seq![
        bus_write((data | EN) | backlight),
        wait_us(ENABLE_HIGH_US),
        bus_write((data & !EN) | backlight),
        wait_us(ENABLE_CYCLE_US),
    ]
}

/// One nibble frame: the byte goes out twice, once with the enable line
/// high and once with it low, which latches its high nibble into the
/// controller.
pub open spec fn nibble_steps(data: u8, backlight: u8) -> Seq<Step> {
    pulse_steps(data, backlight)
}

pub open spec fn high_frame(value: u8, mode: u8, backlight: u8) -> u8 {
    ((value & 0xf0) | mode) | backlight
}

pub open spec fn low_frame(value: u8, mode: u8, backlight: u8) -> u8 {
    (((value << 4) & 0xf0) | mode) | backlight
}

/// A full byte for the controller: the high nibble's frame, then the low
/// nibble's.
pub open spec fn send_steps(value: u8, mode: u8, backlight: u8) -> Seq<Step> {
    nibble_steps(high_frame(value, mode, backlight), backlight) + nibble_steps(
        low_frame(value, mode, backlight),
        backlight,
    )
}

/// A command byte: register-select low.
pub open spec fn command_steps(command: u8, backlight: u8) -> Seq<Step> {
    send_steps(command, 0x0, backlight)
}

/// Data bytes in order: register-select high, one full byte each.
pub open spec fn data_steps(bytes: Seq<u8>, backlight: u8) -> Seq<Step>
    decreases bytes.len(),
{
    if bytes.len() == 0 {
        Seq::empty()
    } else {
        data_steps(bytes.drop_last(), backlight) + send_steps(bytes.last(), RS, backlight)
    }
}

/// The byte the controller is sent for a character: its code point's low
/// eight bits.
pub open spec fn char_byte(ch: char) -> u8 {
    (ch as u32 % 256) as u8
}

pub open spec fn text_bytes(text: Seq<char>) -> Seq<u8> {
    text.map_values(|ch: char| char_byte(ch))
}

pub open spec fn supported_rows(rows: u8) -> bool {
    rows == 1 || rows == 2 || rows == 4
}

/// The controller's row-start addresses for a display of `rows` rows; empty
/// where the controller has no layout for that many.
pub open spec fn row_offsets(rows: u8) -> Seq<u8> {
    if rows == 1 {
        seq![0x00u8]
    } else if rows == 2 {
        seq![0x00u8, 0x40u8]
    } else if rows == 4 {
        seq![0x00u8, 0x40u8, 0x14u8, 0x54u8]
    } else {
        Seq::empty()
    }
}

/// The display-memory address of a cell.
pub open spec fn ddram_address(col: u8, row: u8, rows: u8) -> int {
    col + row_offsets(rows)[row as int]
}

/// Every cell of a `cols` by `rows` display has an address that fits a byte,
/// and there is at least one column to wrap at.
pub open spec fn addressable(cols: u8, rows: u8) -> bool {
    &&& cols > 0
    &&& supported_rows(rows) ==> forall|row: u8|
        row < rows ==> cols - 1 + #[trigger] row_offsets(rows)[row as int] <= 0xff
}

/// Placing the cursor: the address command, then the record of the row.
pub open spec fn cursor_steps(col: u8, row: u8, rows: u8, backlight: u8) -> Seq<Step> {
    command_steps(LCD_SETDDRAMADDR | (ddram_address(col, row, rows) as u8), backlight) + seq![
        Step::SetLine(row),
    ]
}

pub open spec fn clear_steps(backlight: u8) -> Seq<Step> {
    command_steps(LCD_CLEARDISPLAY, backlight) + seq![wait_us(SETTLE_US), Step::SetLine(0)]
}

pub open spec fn home_steps(backlight: u8) -> Seq<Step> {
    command_steps(LCD_RETURNHOME, backlight) + seq![wait_us(SETTLE_US)]
}

/// One reset write of the power-on sequence with the settle time after it.
pub open spec fn reset_steps(backlight: u8) -> Seq<Step> {
    nibble_steps((0x03u8 << 4) | backlight, backlight) + seq![wait_us(RESET_US)]
}

/// `count` reset writes in a row, each with its settle time.
pub open spec fn reset_rounds(count: nat, backlight: u8) -> Seq<Step>
    decreases count,
{
    if count == 0 {
        Seq::empty()
    } else {
        reset_rounds((count - 1) as nat, backlight) + reset_steps(backlight)
    }
}

pub open spec fn function_flags(rows: u8) -> u8 {
    if rows > 1 {
        LCD_4BITMODE | LCD_2LINE | LCD_5X8DOTS
    } else {
        LCD_4BITMODE | LCD_1LINE | LCD_5X8DOTS
    }
}

/// Latching the expander with the backlight line only, before the
/// controller's registers can be addressed.
pub open spec fn latch_steps(backlight: u8) -> Seq<Step> {
    seq![wait_ms(POWER_ON_MS), bus_write(backlight), wait_ms(LATCH_MS)]
}

/// Forcing the controller into 4-bit mode from whatever state it is in:
/// three reset writes, then the mode-select nibble.
pub open spec fn mode_select_steps(backlight: u8) -> Seq<Step> {
    reset_rounds(RESET_ROUNDS as nat, backlight) + nibble_steps(
        (0x02u8 << 4) | backlight,
        backlight,
    )
}

/// Function set, display on, clear, entry mode, home; the record follows
/// the controller at each point.
pub open spec fn configure_steps(rows: u8, backlight: u8) -> Seq<Step> {
    command_steps(LCD_FUNCTIONSET | function_flags(rows), backlight) + seq![Step::DefaultControl]
        + command_steps(LCD_DISPLAYCONTROL | LCD_DISPLAYON, backlight) + clear_steps(backlight)
        + seq![Step::DefaultMode] + command_steps(LCD_ENTRYMODESET | LCD_ENTRYLEFT, backlight)
        + home_steps(backlight)
}

/// The whole power-on sequence.
pub open spec fn init_steps(rows: u8, backlight: u8) -> Seq<Step> {
    latch_steps(backlight) + mode_select_steps(backlight) + configure_steps(rows, backlight)
}

/// Loading a glyph: the slot's address in glyph memory, then its rows.
pub open spec fn glyph_steps(slot: u8, pattern: Seq<u8>, backlight: u8) -> Seq<Step> {
    command_steps(LCD_SETCGRAMADDR | (slot << 3), backlight) + data_steps(pattern, backlight)
}

/// The column of the `i`-th character of wrapped text.
pub open spec fn wrapped_col(i: int, cols: u8) -> u8 {
    (i % (cols as int)) as u8
}

/// The row of the `i`-th character of wrapped text: past the last row the
/// text goes back to the first.
pub open spec fn wrapped_row(i: int, cols: u8, rows: u8) -> u8 {
    if i / (cols as int) >= rows {
        0
    } else {
        (i / (cols as int)) as u8
    }
}

/// Wrapped text: the cursor goes to the origin, then each byte is placed at
/// its own cell.
pub open spec fn wrapped_steps(bytes: Seq<u8>, cols: u8, rows: u8, backlight: u8) -> Seq<Step>
    decreases bytes.len(),
{
    if bytes.len() == 0 {
        cursor_steps(0, 0, rows, backlight)
    } else {
        let i = bytes.len() - 1;
        wrapped_steps(bytes.drop_last(), cols, rows, backlight) + cursor_steps(
            wrapped_col(i, cols),
            wrapped_row(i, cols, rows),
            rows,
            backlight,
        ) + send_steps(bytes.last(), RS, backlight)
    }
}

/// The row a line advance moves to: the next one, or the first after the
/// last.
pub open spec fn next_row(current: u8, rows: u8) -> u8 {
    if current + 1 < rows {
        (current + 1) as u8
    } else {
        0
    }
}

/// Sending one more data byte extends the sequence by that byte's frames.
pub proof fn lemma_data_steps_next(bytes: Seq<u8>, i: int, backlight: u8)
    requires
        0 <= i < bytes.len(),
    ensures
        data_steps(bytes.take(i + 1), backlight) == data_steps(bytes.take(i), backlight)
            + send_steps(bytes[i], RS, backlight),
{
    assert(bytes.take(i + 1).drop_last() =~= bytes.take(i));
}

/// Placing one more byte of wrapped text extends the sequence by its cursor
/// move and its frames.
pub proof fn lemma_wrapped_steps_next(bytes: Seq<u8>, i: int, cols: u8, rows: u8, backlight: u8)
    requires
        0 <= i < bytes.len(),
    ensures
        wrapped_steps(bytes.take(i + 1), cols, rows, backlight) == wrapped_steps(
            bytes.take(i),
            cols,
            rows,
            backlight,
        ) + cursor_steps(wrapped_col(i, cols), wrapped_row(i, cols, rows), rows, backlight)
            + send_steps(bytes[i], RS, backlight),
{
    assert(bytes.take(i + 1).drop_last() =~= bytes.take(i));
}

} // verus!
