//! The display operations as values, and what each of them queues.

use vstd::prelude::*;
use crate::bus::Step;
use crate::consts::{
    LCD_BACKLIGHT, LCD_BLINKON, LCD_CURSORON, LCD_CURSORSHIFT, LCD_DISPLAYCONTROL,
    LCD_DISPLAYMOVE, LCD_DISPLAYON, LCD_ENTRYLEFT, LCD_ENTRYMODESET, LCD_ENTRYSHIFTINCREMENT,
    LCD_MOVELEFT, LCD_MOVERIGHT, LCD_NOBACKLIGHT, RS,
};
use crate::lcd::{LcdError, LcdView};
use crate::plan::{
    bus_write, char_byte, clear_steps, command_steps, cursor_steps, data_steps, glyph_steps,
    home_steps, init_steps, next_row, send_steps, text_bytes, wrapped_steps,
};

verus! {

/// A display operation with its arguments.
pub enum Command {
    Init,
    DisplayOn,
    DisplayOff,
    Clear,
    SetCursor { col: u8, row: u8 },
    Cursor { on: bool },
    Blink { on: bool },
    Print { ch: char },
    PrintStr { text: Seq<char> },
    PrintLongStr { text: Seq<char> },
    Autoscroll { on: bool },
    ScrollLeft,
    ScrollRight,
    LeftToRight,
    RightToLeft,
    Home,
    NextLine,
    CreateCustomChars { location: u8, charmap: Seq<u8> },
    Send { value: u8, mode: u8 },
    BacklightOn,
    BacklightOff,
}

/// The steps that `command` queues when the driver's record is `s`; none
/// where the command is refused.
pub open spec fn steps_of(s: LcdView, command: Command) -> Seq<Step> {
    let bl = s.backlight;
    match command {
        Command::Init => init_steps(s.rows, bl),
        Command::DisplayOn => command_steps(
            LCD_DISPLAYCONTROL | (s.display_control | LCD_DISPLAYON),
            bl,
        ),
        Command::DisplayOff => command_steps(
            LCD_DISPLAYCONTROL | (s.display_control & !LCD_DISPLAYON),
            bl,
        ),
        Command::Clear => clear_steps(bl),
        Command::SetCursor { col, row } => if s.cursor_result(row) is Ok {
            cursor_steps(col, row, s.rows, bl)
        } else {
            Seq::empty()
        },
        Command::Cursor { on } => command_steps(
            LCD_DISPLAYCONTROL | (if on {
                s.display_control | LCD_CURSORON
            } else {
                s.display_control & !LCD_CURSORON
            }),
            bl,
        ),
        Command::Blink { on } => command_steps(
            LCD_DISPLAYCONTROL | (if on {
                s.display_control | LCD_BLINKON
            } else {
                s.display_control & !LCD_BLINKON
            }),
            bl,
        ),
        Command::Print { ch } => send_steps(char_byte(ch), RS, bl),
        Command::PrintStr { text } => data_steps(text_bytes(text), bl),
        Command::PrintLongStr { text } => if s.cursor_result(0) is Ok {
            wrapped_steps(text_bytes(text), s.cols, s.rows, bl)
        } else {
            Seq::empty()
        },
        Command::Autoscroll { on } => command_steps(
            LCD_ENTRYMODESET | (if on {
                s.display_mode | LCD_ENTRYSHIFTINCREMENT
            } else {
                s.display_mode & !LCD_ENTRYSHIFTINCREMENT
            }),
            bl,
        ),
        Command::ScrollLeft => command_steps(
            LCD_CURSORSHIFT | LCD_DISPLAYMOVE | LCD_MOVELEFT,
            bl,
        ),
        Command::ScrollRight => command_steps(
            LCD_CURSORSHIFT | LCD_DISPLAYMOVE | LCD_MOVERIGHT,
            bl,
        ),
        Command::LeftToRight => command_steps(
            LCD_ENTRYMODESET | (s.display_mode | LCD_ENTRYLEFT),
            bl,
        ),
        Command::RightToLeft => command_steps(
            LCD_ENTRYMODESET | (s.display_mode & !LCD_ENTRYLEFT),
            bl,
        ),
        Command::Home => home_steps(bl),
        Command::NextLine => {
            let row = next_row(s.current_line, s.rows);
            if s.rows != 1 && s.cursor_result(row) is Ok {
                cursor_steps(0, row, s.rows, bl)
            } else {
                Seq::empty()
            }
        },
        Command::CreateCustomChars { location, charmap } => if location <= 7 {
            glyph_steps(location, charmap, bl)
        } else {
            Seq::empty()
        },
        Command::Send { value, mode } => send_steps(value, mode, bl),
        Command::BacklightOn => seq![bus_write(LCD_BACKLIGHT)],
        Command::BacklightOff => seq![bus_write(LCD_NOBACKLIGHT)],
    }
}

/// The driver's record right after `command` was asked of it: what it
/// notes at once and what it queues. A refused command leaves the record as
/// it was, but for the line advance, which notes the new row before the
/// cursor move is looked at.
pub open spec fn after(s: LcdView, command: Command) -> LcdView {
    let bl = s.backlight;
    match command {
        Command::Init => s.queued(init_steps(s.rows, bl)),
        Command::DisplayOn => s.with_control(s.display_control | LCD_DISPLAYON),
        Command::DisplayOff => s.with_control(s.display_control & !LCD_DISPLAYON),
        Command::Clear => s.queued(clear_steps(bl)),
        Command::SetCursor { col, row } => s.cursor_placed(col, row),
        Command::Cursor { on } => s.with_control(
            if on {
                s.display_control | LCD_CURSORON
            } else {
                s.display_control & !LCD_CURSORON
            },
        ),
        Command::Blink { on } => s.with_control(
            if on {
                s.display_control | LCD_BLINKON
            } else {
                s.display_control & !LCD_BLINKON
            },
        ),
        Command::Print { ch } => s.queued(send_steps(char_byte(ch), RS, bl)),
        Command::PrintStr { text } => s.queued(data_steps(text_bytes(text), bl)),
        Command::PrintLongStr { text } => if s.cursor_result(0) is Ok {
            s.queued(wrapped_steps(text_bytes(text), s.cols, s.rows, bl))
        } else {
            s
        },
        Command::Autoscroll { on } => s.with_mode(
            if on {
                s.display_mode | LCD_ENTRYSHIFTINCREMENT
            } else {
                s.display_mode & !LCD_ENTRYSHIFTINCREMENT
            },
        ),
        Command::ScrollLeft => s.queued(
            command_steps(LCD_CURSORSHIFT | LCD_DISPLAYMOVE | LCD_MOVELEFT, bl),
        ),
        Command::ScrollRight => s.queued(
            command_steps(LCD_CURSORSHIFT | LCD_DISPLAYMOVE | LCD_MOVERIGHT, bl),
        ),
        Command::LeftToRight => s.with_mode(s.display_mode | LCD_ENTRYLEFT),
        Command::RightToLeft => s.with_mode(s.display_mode & !LCD_ENTRYLEFT),
        Command::Home => s.queued(home_steps(bl)),
        Command::NextLine => if s.rows == 1 {
            s
        } else {
            let row = next_row(s.current_line, s.rows);
            (LcdView { current_line: row, ..s }).cursor_placed(0, row)
        },
        Command::CreateCustomChars { location, charmap } => if location <= 7 {
            s.queued(glyph_steps(location, charmap, bl))
        } else {
            s
        },
        Command::Send { value, mode } => s.queued(send_steps(value, mode, bl)),
        Command::BacklightOn => s.with_backlight(LCD_BACKLIGHT),
        Command::BacklightOff => s.with_backlight(LCD_NOBACKLIGHT),
    }
}

/// What `command` answers when the driver's record is `s`.
pub open spec fn answer(s: LcdView, command: Command) -> Result<(), LcdError> {
    match command {
        Command::SetCursor { col, row } => s.cursor_result(row),
        Command::PrintLongStr { text } => s.cursor_result(0),
        Command::NextLine => if s.rows == 1 {
            Err(LcdError::NextLineUnsupported)
        } else {
            s.cursor_result(next_row(s.current_line, s.rows))
        },
        Command::CreateCustomChars { location, charmap } => if location <= 7 {
            Ok(())
        } else {
            Err(LcdError::GlyphSlotOutOfRange)
        },
        _ => Ok(()),
    }
}

} // verus!
