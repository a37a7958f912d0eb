//! The display controller: its record of the display's state and the queue
//! of steps still to be carried out.

use std::collections::VecDeque;
use vstd::prelude::*;
use crate::bus::{BusAction, BusOutcome, Step};
use crate::command::{after, answer, Command};
use crate::consts::{
    CONTROL_FLAGS, EN, ENABLE_CYCLE_US, ENABLE_HIGH_US, LATCH_MS, LCD_1LINE, LCD_2LINE,
    LCD_4BITMODE, LCD_5X8DOTS, LCD_BACKLIGHT, LCD_BLINKOFF, LCD_BLINKON, LCD_CLEARDISPLAY,
    LCD_CURSOROFF, LCD_CURSORON, LCD_CURSORSHIFT, LCD_DISPLAYCONTROL, LCD_DISPLAYMOVE,
    LCD_DISPLAYON, LCD_ENTRYLEFT, LCD_ENTRYMODESET, LCD_ENTRYSHIFTDECREMENT,
    LCD_ENTRYSHIFTINCREMENT, LCD_FUNCTIONSET, LCD_MOVELEFT, LCD_MOVERIGHT, LCD_NOBACKLIGHT,
    LCD_RETURNHOME, LCD_SETCGRAMADDR, LCD_SETDDRAMADDR, MODE_FLAGS, POWER_ON_MS, RESET_ROUNDS,
    RESET_US, RS, SETTLE_US,
};
use crate::plan::{
    addressable, bus_write, char_byte, clear_steps, command_steps, configure_steps, cursor_steps,
    data_steps, ddram_address, glyph_steps, home_steps, init_steps, latch_steps,
    lemma_data_steps_next, lemma_wrapped_steps_next, mode_select_steps, next_row, nibble_steps,
    pulse_steps, reset_rounds, reset_steps, row_offsets, send_steps, supported_rows, text_bytes,
    wrapped_steps,
};

verus! {

/// Why an operation was refused, or why the queue was dropped.
#[derive(Clone, Copy, Debug, PartialEq, Eq, Structural)]
pub enum LcdError {
    /// The host reported a failed write on the expander channel.
    BusFailure,
    /// The requested row is not below the configured row count.
    RowOutOfRange,
    /// The configured row count is not 1, 2 or 4.
    UnsupportedRowCount,
    /// A line advance was asked of a single-row display.
    NextLineUnsupported,
    /// The glyph slot is above 7.
    GlyphSlotOutOfRange,
}

/// The driver as a mathematical value.
pub struct LcdView {
    pub cols: u8,
    pub rows: u8,
    pub display_mode: u8,
    pub display_control: u8,
    pub backlight: u8,
    pub current_line: u8,
    /// The steps queued and not yet handed out, oldest first.
    pub pending: Seq<Step>,
}

impl LcdView {
    /// The same record with `steps` added at the back of the queue.
    pub open spec fn queued(self, steps: Seq<Step>) -> LcdView {
        LcdView { pending: self.pending + steps, ..self }
    }

    /// The two flag records hold documented flag bits only, and the
    /// backlight line is either fully on or off.
    pub open spec fn wf(self) -> bool {
        &&& self.display_control & !CONTROL_FLAGS == 0
        &&& self.display_mode & !MODE_FLAGS == 0
        &&& (self.backlight == LCD_BACKLIGHT || self.backlight == LCD_NOBACKLIGHT)
    }

    /// What placing the cursor on `row` answers: the row must be on the
    /// display, and the display must have a row layout.
    pub open spec fn cursor_result(self, row: u8) -> Result<(), LcdError> {
        if row >= self.rows {
            Err(LcdError::RowOutOfRange)
        } else if !supported_rows(self.rows) {
            Err(LcdError::UnsupportedRowCount)
        } else {
            Ok(())
        }
    }

    /// The record after the cursor was asked to (`col`, `row`): the move is
    /// queued where it is accepted, and nothing changes where it is not.
    pub open spec fn cursor_placed(self, col: u8, row: u8) -> LcdView {
        if self.cursor_result(row) is Ok {
            self.queued(cursor_steps(col, row, self.rows, self.backlight))
        } else {
            self
        }
    }

    /// Whether text of `len` characters can be wrapped on this display:
    /// there is a column to wrap at and every cell's address fits a byte.
    /// Nothing is asked where there is no text to place, or where the move
    /// to the origin is refused.
    pub open spec fn wraps(self, len: nat) -> bool {
        self.cursor_result(0) is Ok && len > 0 ==> addressable(self.cols, self.rows)
    }

    /// The record with new display-control flags and the command that tells
    /// the controller of them.
    pub open spec fn with_control(self, control: u8) -> LcdView {
        (LcdView { display_control: control, ..self }).queued(
            command_steps(LCD_DISPLAYCONTROL | control, self.backlight),
        )
    }

    /// The record with new entry-mode flags and the command that tells the
    /// controller of them.
    pub open spec fn with_mode(self, mode: u8) -> LcdView {
        (LcdView { display_mode: mode, ..self }).queued(
            command_steps(LCD_ENTRYMODESET | mode, self.backlight),
        )
    }

    /// The record with the backlight line at `backlight` and the raw write
    /// that puts it on the expander.
    pub open spec fn with_backlight(self, backlight: u8) -> LcdView {
        (LcdView { backlight, ..self }).queued(seq![bus_write(backlight)])
    }

    /// The record after one queued change to it has taken effect.
    pub open spec fn applied(self, step: Step) -> LcdView {
        match step {
            Step::Bus(_) => self,
            Step::SetLine(row) => LcdView { current_line: row, ..self },
            Step::DefaultControl => LcdView { display_control: LCD_DISPLAYON, ..self },
            Step::DefaultMode => LcdView { display_mode: LCD_ENTRYLEFT, ..self },
        }
    }

    /// The record once the host has carried out everything queued, with no
    /// failure on the way.
    pub open spec fn carried_out(self) -> LcdView
        decreases self.pending.len(),
    {
        if self.pending.len() == 0 {
            self
        } else {
            (LcdView {
                pending: self.pending.drop_first(),
                ..self.applied(self.pending[0])
            }).carried_out()
        }
    }

    /// The record once every change queued ahead of the next bus action has
    /// taken effect.
    pub open spec fn settled(self) -> LcdView
        decreases self.pending.len(),
    {
        if self.pending.len() == 0 {
            self
        } else {
            match self.pending[0] {
                Step::Bus(_) => self,
                step => (LcdView { pending: self.pending.drop_first(), ..self.applied(step) }).settled(),
            }
        }
    }
}

/// Each flag lies within the mask of the record it belongs to, and the
/// power-on records are the display-on flag and the left-to-right flag alone.
pub proof fn lemma_flag_masks()
    by (bit_vector)
    ensures
        LCD_DISPLAYON & !CONTROL_FLAGS == 0,
        LCD_CURSORON & !CONTROL_FLAGS == 0,
        LCD_BLINKON & !CONTROL_FLAGS == 0,
        LCD_ENTRYLEFT & !MODE_FLAGS == 0,
        LCD_ENTRYSHIFTINCREMENT & !MODE_FLAGS == 0,
        LCD_ENTRYLEFT | LCD_ENTRYSHIFTDECREMENT == LCD_ENTRYLEFT,
        LCD_DISPLAYON | LCD_CURSOROFF | LCD_BLINKOFF == LCD_DISPLAYON,
{
}

/// Setting or clearing flags that lie within a mask leaves the record
/// within the mask.
pub proof fn lemma_flags_within(bits: u8, flag: u8, mask: u8)
    by (bit_vector)
    requires
        bits & !mask == 0,
        flag & !mask == 0,
    ensures
        (bits | flag) & !mask == 0,
        (bits & !flag) & !mask == 0,
{
}

/// The start address of `row` on a display of `rows` rows.
pub fn row_offset(rows: u8, row: u8) -> (offset: Result<u8, LcdError>)
    ensures
        row >= rows ==> offset == Err::<u8, LcdError>(LcdError::RowOutOfRange),
        row < rows && !supported_rows(rows) ==> offset == Err::<u8, LcdError>(
            LcdError::UnsupportedRowCount,
        ),
        row < rows && supported_rows(rows) ==> offset == Ok::<u8, LcdError>(
            row_offsets(rows)[row as int],
        ),
{
    if row >= rows {
        return Err(LcdError::RowOutOfRange);
    }
    if rows == 1 {
        Ok(0x00)
    } else if rows == 2 {
        if row == 0 {
            Ok(0x00)
        } else {
            Ok(0x40)
        }
    } else if rows == 4 {
        if row == 0 {
            Ok(0x00)
        } else if row == 1 {
            Ok(0x40)
        } else if row == 2 {
            Ok(0x14)
        } else {
            Ok(0x54)
        }
    } else {
        Err(LcdError::UnsupportedRowCount)
    }
}

/// The driver: what it has on record of one display, and the steps it has
/// queued for the host.
pub struct Lcd {
    cols: u8,
    rows: u8,
    display_mode: u8,
    display_control: u8,
    backlight: u8,
    current_line: u8,
    queue: VecDeque<Step>,
}

impl View for Lcd {
    type V = LcdView;

    closed spec fn view(&self) -> LcdView {
        LcdView {
            cols: self.cols,
            rows: self.rows,
            display_mode: self.display_mode,
            display_control: self.display_control,
            backlight: self.backlight,
            current_line: self.current_line,
            pending: self.queue@,
        }
    }
}

impl Lcd {
    /// A driver for a display of `cols` by `rows` cells: display on, cursor
    /// and blink off, left-to-right entry, backlight off, nothing queued.
    pub fn new(cols: u8, rows: u8) -> (lcd: Lcd)
        ensures
            lcd@ == (LcdView {
                cols,
                rows,
                display_mode: LCD_ENTRYLEFT,
                display_control: LCD_DISPLAYON,
                backlight: LCD_NOBACKLIGHT,
                current_line: 0,
                pending: Seq::empty(),
            }),
            lcd@.wf(),
    {
        let lcd = Lcd {
            cols,
            rows,
            display_mode: LCD_ENTRYLEFT | LCD_ENTRYSHIFTDECREMENT,
            display_control: LCD_DISPLAYON | LCD_CURSOROFF | LCD_BLINKOFF,
            backlight: LCD_NOBACKLIGHT,
            current_line: 0,
            queue: VecDeque::new(),
        };
        proof {
            lemma_flag_masks();
        }
        assert(lcd@.pending =~= Seq::empty());
        lcd
    }

    /// Hands out the next bus action, given how the last one went.
    ///
    /// After a failure everything still queued is dropped, changes to the
    /// record included, and the failure is returned. Otherwise the changes
    /// queued ahead of the next action take effect and that action leaves
    /// the queue; `None` says that nothing is left to do.
    pub fn advance(&mut self, last: BusOutcome) -> (next: Result<Option<BusAction>, LcdError>)
        ensures
            last == BusOutcome::Failed ==> next == Err::<Option<BusAction>, LcdError>(
                LcdError::BusFailure,
            ) && final(self)@ == (LcdView { pending: Seq::empty(), ..old(self)@ }),
            last == BusOutcome::Done ==> match next {
                Ok(None) => final(self)@ == old(self)@.settled() && final(self)@.pending.len()
                    == 0,
                Ok(Some(action)) => {
                    let s = old(self)@.settled();
                    &&& s.pending.len() > 0
                    &&& s.pending[0] == Step::Bus(action)
                    &&& final(self)@ == (LcdView { pending: s.pending.drop_first(), ..s })
                },
                Err(_) => false,
            },
            last == BusOutcome::Done ==> final(self)@.carried_out() == old(self)@.carried_out(),
            old(self)@.wf() ==> final(self)@.wf(),
    {
        match last {
            BusOutcome::Failed => {
                self.queue.clear();
                assert(self@.pending =~= Seq::empty());
                return Err(LcdError::BusFailure);
            },
            BusOutcome::Done => {},
        }
        loop
            invariant
                last == BusOutcome::Done,
                self@.settled() == old(self)@.settled(),
                self@.carried_out() == old(self)@.carried_out(),
                old(self)@.wf() ==> self@.wf(),
            decreases self.queue@.len(),
        {
            let ghost before = self@;
            proof {
                lemma_flag_masks();
            }
            match self.queue.pop_front() {
                None => {
                    return Ok(None);
                },
                Some(Step::Bus(action)) => {
                    assert(self@ == (LcdView { pending: before.pending.drop_first(), ..before }));
                    return Ok(Some(action));
                },
                Some(Step::SetLine(row)) => {
                    self.current_line = row;
                },
                Some(Step::DefaultControl) => {
                    self.display_control = LCD_DISPLAYON;
                },
                Some(Step::DefaultMode) => {
                    self.display_mode = LCD_ENTRYLEFT;
                },
            }
            assert(self@ == (LcdView {
                pending: before.pending.drop_first(),
                ..before.applied(before.pending[0])
            }));
        }
    }

    /// Adds one step at the back of the queue.
    fn enqueue(&mut self, step: Step)
        ensures
            final(self)@ == old(self)@.queued(seq![step]),
    {
        self.queue.push_back(step);
        assert(self@.pending =~= old(self)@.pending + seq![step]);
    }

    /// Queues one raw write to the expander.
    fn expander_write(&mut self, data: u8)
        ensures
            final(self)@ == old(self)@.queued(seq![bus_write(data)]),
    {
        self.enqueue(Step::Bus(BusAction::Write(data)));
    }

    /// Queues the enable strobe for `data`.
    fn pulse_enable(&mut self, data: u8)
        ensures
            final(self)@ == old(self)@.queued(pulse_steps(data, old(self)@.backlight)),
    {
        let pulse: u8 = (data | EN) | self.backlight;
        self.expander_write(pulse);
        self.enqueue(Step::Bus(BusAction::DelayUs(ENABLE_HIGH_US)));
        let pulse: u8 = (data & !EN) | self.backlight;
        self.expander_write(pulse);
        self.enqueue(Step::Bus(BusAction::DelayUs(ENABLE_CYCLE_US)));
        assert(self@.pending =~= old(self)@.pending + pulse_steps(data, old(self)@.backlight));
    }

    /// Queues one nibble frame: `data` strobed into the controller.
    fn write4bits(&mut self, data: u8)
        ensures
            final(self)@ == old(self)@.queued(nibble_steps(data, old(self)@.backlight)),
    {
        self.pulse_enable(data);
    }

    /// Queues `value` for the controller as two nibble frames, high nibble
    /// first, each carrying `mode` and the backlight line.
    pub fn send(&mut self, value: u8, mode: u8)
        ensures
            final(self)@ == after(old(self)@, (Command::Send { value, mode })),
            final(self)@ == old(self)@.queued(send_steps(value, mode, old(self)@.backlight)),
    {
        let high_nibble: u8 = value & 0xf0;
        let low_nibble: u8 = (value << 4) & 0xf0;
        let high_cmd: u8 = (high_nibble | mode) | self.backlight;
        self.write4bits(high_cmd);
        let low_cmd: u8 = (low_nibble | mode) | self.backlight;
        self.write4bits(low_cmd);
        assert(self@.pending =~= old(self)@.pending + send_steps(
            value,
            mode,
            old(self)@.backlight,
        ));
    }

    /// Moves the cursor to (`col`, `row`).
    ///
    /// Refused, with nothing queued, where the row is not on the display or
    /// the display has no row layout. The record of the current row follows
    /// once the command has gone out.
    pub fn set_cursor(&mut self, col: u8, row: u8) -> (done: Result<(), LcdError>)
        requires
            old(self)@.cursor_result(row) is Ok ==> ddram_address(col, row, old(self)@.rows)
                <= u8::MAX,
        ensures
            done == answer(old(self)@, (Command::SetCursor { col, row })),
            final(self)@ == after(old(self)@, (Command::SetCursor { col, row })),
            done == old(self)@.cursor_result(row),
            final(self)@ == old(self)@.cursor_placed(col, row),
    {
        let offset: u8 = match row_offset(self.rows, row) {
            Ok(offset) => offset,
            Err(refusal) => {
                return Err(refusal);
            },
        };
        let cmd: u8 = LCD_SETDDRAMADDR | (col + offset);
        self.send(cmd, 0x0);
        self.enqueue(Step::SetLine(row));
        assert(self@.pending =~= old(self)@.pending + cursor_steps(
            col,
            row,
            old(self)@.rows,
            old(self)@.backlight,
        ));
        Ok(())
    }

    /// Sends Clear-Display and waits for it to settle; the record of the
    /// current row then goes back to 0.
    pub fn clear(&mut self)
        ensures
            final(self)@ == after(old(self)@, Command::Clear),
            final(self)@ == old(self)@.queued(clear_steps(old(self)@.backlight)),
    {
        self.send(LCD_CLEARDISPLAY, 0x0);
        self.enqueue(Step::Bus(BusAction::DelayUs(SETTLE_US)));
        self.enqueue(Step::SetLine(0));
        assert(self@.pending =~= old(self)@.pending + clear_steps(old(self)@.backlight));
    }

    /// Sends Return-Home and waits for it to settle.
    pub fn home(&mut self)
        ensures
            final(self)@ == after(old(self)@, Command::Home),
            final(self)@ == old(self)@.queued(home_steps(old(self)@.backlight)),
    {
        self.send(LCD_RETURNHOME, 0x0);
        self.enqueue(Step::Bus(BusAction::DelayUs(SETTLE_US)));
        assert(self@.pending =~= old(self)@.pending + home_steps(old(self)@.backlight));
    }

    /// Queues the wait after power-on and the first raw write, which sets
    /// the backlight line and nothing else.
    fn latch(&mut self)
        ensures
            final(self)@ == old(self)@.queued(latch_steps(old(self)@.backlight)),
    {
        self.enqueue(Step::Bus(BusAction::DelayMs(POWER_ON_MS)));
        self.expander_write(self.backlight);
        self.enqueue(Step::Bus(BusAction::DelayMs(LATCH_MS)));
        assert(self@.pending =~= old(self)@.pending + latch_steps(old(self)@.backlight));
    }

    /// Queues one reset write and its settle time.
    fn reset(&mut self)
        ensures
            final(self)@ == old(self)@.queued(reset_steps(old(self)@.backlight)),
    {
        self.write4bits((0x03u8 << 4) | self.backlight);
        self.enqueue(Step::Bus(BusAction::DelayUs(RESET_US)));
        assert(self@.pending =~= old(self)@.pending + reset_steps(old(self)@.backlight));
    }

    /// Queues the reset writes and the nibble that selects 4-bit mode.
    fn mode_select(&mut self)
        ensures
            final(self)@ == old(self)@.queued(mode_select_steps(old(self)@.backlight)),
    {
        let mut sent: u8 = 0;
        assert(self@.pending =~= old(self)@.pending + reset_rounds(0, self@.backlight));
        while sent < RESET_ROUNDS
            invariant
                sent <= RESET_ROUNDS,
                self@ == old(self)@.queued(reset_rounds(sent as nat, old(self)@.backlight)),
            decreases RESET_ROUNDS - sent,
        {
            self.reset();
            sent += 1;
            assert(self@.pending =~= old(self)@.pending + reset_rounds(
                sent as nat,
                old(self)@.backlight,
            ));
        }
        self.write4bits((0x02u8 << 4) | self.backlight);
        assert(self@.pending =~= old(self)@.pending + mode_select_steps(old(self)@.backlight));
    }

    /// Queues function set, display on, clear, entry mode and home, with the
    /// changes to the record between them.
    fn configure(&mut self)
        ensures
            final(self)@ == old(self)@.queued(
                configure_steps(old(self)@.rows, old(self)@.backlight),
            ),
    {
        let display_function: u8 = if self.rows > 1 {
            LCD_4BITMODE | LCD_2LINE | LCD_5X8DOTS
        } else {
            LCD_4BITMODE | LCD_1LINE | LCD_5X8DOTS
        };
        self.send(LCD_FUNCTIONSET | display_function, 0x0);
        self.enqueue(Step::DefaultControl);
        self.send(LCD_DISPLAYCONTROL | LCD_DISPLAYON, 0x0);
        self.clear();
        self.enqueue(Step::DefaultMode);
        self.send(LCD_ENTRYMODESET | LCD_ENTRYLEFT, 0x0);
        self.home();
        assert(self@.pending =~= old(self)@.pending + configure_steps(
            old(self)@.rows,
            old(self)@.backlight,
        ));
    }

    /// Queues the controller's power-on sequence.
    ///
    /// The record itself is untouched until the host has carried the steps
    /// out: the flag records take their power-on values at the points of the
    /// sequence where the controller takes them.
    pub fn init(&mut self)
        ensures
            final(self)@ == after(old(self)@, Command::Init),
            final(self)@ == old(self)@.queued(init_steps(old(self)@.rows, old(self)@.backlight)),
    {
        self.latch();
        self.mode_select();
        self.configure();
        assert(self@.pending =~= old(self)@.pending + init_steps(
            old(self)@.rows,
            old(self)@.backlight,
        ));
    }

    /// Notes new display-control flags and queues the command for them.
    fn set_control(&mut self, control: u8)
        ensures
            final(self)@ == old(self)@.with_control(control),
    {
        self.display_control = control;
        let cmd: u8 = LCD_DISPLAYCONTROL | self.display_control;
        self.send(cmd, 0x0);
    }

    /// Notes new entry-mode flags and queues the command for them.
    fn set_mode(&mut self, mode: u8)
        ensures
            final(self)@ == old(self)@.with_mode(mode),
    {
        self.display_mode = mode;
        let cmd: u8 = LCD_ENTRYMODESET | self.display_mode;
        self.send(cmd, 0x0);
    }

    /// Turns the display on; cursor and blink flags stay as they are.
    pub fn display_on(&mut self)
        ensures
            final(self)@ == after(old(self)@, Command::DisplayOn),
            final(self)@ == old(self)@.with_control(old(self)@.display_control | LCD_DISPLAYON),
            old(self)@.wf() ==> final(self)@.wf(),
    {
        proof {
            lemma_flag_masks();
            if self@.wf() {
                lemma_flags_within(self.display_control, LCD_DISPLAYON, CONTROL_FLAGS);
            }
        }
        self.set_control(self.display_control | LCD_DISPLAYON);
    }

    /// Turns the display off; cursor and blink flags stay as they are.
    pub fn display_off(&mut self)
        ensures
            final(self)@ == after(old(self)@, Command::DisplayOff),
            final(self)@ == old(self)@.with_control(old(self)@.display_control & !LCD_DISPLAYON),
            old(self)@.wf() ==> final(self)@.wf(),
    {
        proof {
            lemma_flag_masks();
            if self@.wf() {
                lemma_flags_within(self.display_control, LCD_DISPLAYON, CONTROL_FLAGS);
            }
        }
        self.set_control(self.display_control & !LCD_DISPLAYON);
    }

    /// Shows or hides the cursor.
    pub fn cursor(&mut self, on: bool)
        ensures
            final(self)@ == after(old(self)@, (Command::Cursor { on })),
            final(self)@ == old(self)@.with_control(
                if on {
                    old(self)@.display_control | LCD_CURSORON
                } else {
                    old(self)@.display_control & !LCD_CURSORON
                },
            ),
            old(self)@.wf() ==> final(self)@.wf(),
    {
        proof {
            lemma_flag_masks();
            if self@.wf() {
                lemma_flags_within(self.display_control, LCD_CURSORON, CONTROL_FLAGS);
            }
        }
        if on {
            self.set_control(self.display_control | LCD_CURSORON);
        } else {
            self.set_control(self.display_control & !LCD_CURSORON);
        }
    }

    /// Starts or stops the cursor's blinking.
    pub fn blink(&mut self, on: bool)
        ensures
            final(self)@ == after(old(self)@, (Command::Blink { on })),
            final(self)@ == old(self)@.with_control(
                if on {
                    old(self)@.display_control | LCD_BLINKON
                } else {
                    old(self)@.display_control & !LCD_BLINKON
                },
            ),
            old(self)@.wf() ==> final(self)@.wf(),
    {
        proof {
            lemma_flag_masks();
            if self@.wf() {
                lemma_flags_within(self.display_control, LCD_BLINKON, CONTROL_FLAGS);
            }
        }
        if on {
            self.set_control(self.display_control | LCD_BLINKON);
        } else {
            self.set_control(self.display_control & !LCD_BLINKON);
        }
    }

    /// Switches autoscroll on write on or off.
    pub fn autoscroll(&mut self, on: bool)
        ensures
            final(self)@ == after(old(self)@, (Command::Autoscroll { on })),
            final(self)@ == old(self)@.with_mode(
                if on {
                    old(self)@.display_mode | LCD_ENTRYSHIFTINCREMENT
                } else {
                    old(self)@.display_mode & !LCD_ENTRYSHIFTINCREMENT
                },
            ),
            old(self)@.wf() ==> final(self)@.wf(),
    {
        proof {
            lemma_flag_masks();
            if self@.wf() {
                lemma_flags_within(self.display_mode, LCD_ENTRYSHIFTINCREMENT, MODE_FLAGS);
            }
        }
        if on {
            self.set_mode(self.display_mode | LCD_ENTRYSHIFTINCREMENT);
        } else {
            self.set_mode(self.display_mode & !LCD_ENTRYSHIFTINCREMENT);
        }
    }

    /// Text runs left to right from now on.
    pub fn left_to_right(&mut self)
        ensures
            final(self)@ == after(old(self)@, Command::LeftToRight),
            final(self)@ == old(self)@.with_mode(old(self)@.display_mode | LCD_ENTRYLEFT),
            old(self)@.wf() ==> final(self)@.wf(),
    {
        proof {
            lemma_flag_masks();
            if self@.wf() {
                lemma_flags_within(self.display_mode, LCD_ENTRYLEFT, MODE_FLAGS);
            }
        }
        self.set_mode(self.display_mode | LCD_ENTRYLEFT);
    }

    /// Text runs right to left from now on.
    pub fn right_to_left(&mut self)
        ensures
            final(self)@ == after(old(self)@, Command::RightToLeft),
            final(self)@ == old(self)@.with_mode(old(self)@.display_mode & !LCD_ENTRYLEFT),
            old(self)@.wf() ==> final(self)@.wf(),
    {
        proof {
            lemma_flag_masks();
            if self@.wf() {
                lemma_flags_within(self.display_mode, LCD_ENTRYLEFT, MODE_FLAGS);
            }
        }
        self.set_mode(self.display_mode & !LCD_ENTRYLEFT);
    }

    /// Switches the backlight on: the line is raised with a raw write and
    /// stays raised in every write that follows.
    pub fn backlight_on(&mut self)
        ensures
            final(self)@ == after(old(self)@, Command::BacklightOn),
            final(self)@ == old(self)@.with_backlight(LCD_BACKLIGHT),
    {
        self.backlight = LCD_BACKLIGHT;
        self.expander_write(self.backlight);
    }

    /// Switches the backlight off with a raw write.
    pub fn backlight_off(&mut self)
        ensures
            final(self)@ == after(old(self)@, Command::BacklightOff),
            final(self)@ == old(self)@.with_backlight(LCD_NOBACKLIGHT),
    {
        self.backlight = LCD_NOBACKLIGHT;
        self.expander_write(self.backlight);
    }

    /// Shifts the whole display one cell to the left. Nothing is recorded.
    pub fn scroll_left(&mut self)
        ensures
            final(self)@ == after(old(self)@, Command::ScrollLeft),
            final(self)@ == old(self)@.queued(
                command_steps(
                    LCD_CURSORSHIFT | LCD_DISPLAYMOVE | LCD_MOVELEFT,
                    old(self)@.backlight,
                ),
            ),
    {
        let cmd: u8 = LCD_CURSORSHIFT | LCD_DISPLAYMOVE | LCD_MOVELEFT;
        self.send(cmd, 0x0);
    }

    /// Shifts the whole display one cell to the right. Nothing is recorded.
    pub fn scroll_right(&mut self)
        ensures
            final(self)@ == after(old(self)@, Command::ScrollRight),
            final(self)@ == old(self)@.queued(
                command_steps(
                    LCD_CURSORSHIFT | LCD_DISPLAYMOVE | LCD_MOVERIGHT,
                    old(self)@.backlight,
                ),
            ),
    {
        let cmd: u8 = LCD_CURSORSHIFT | LCD_DISPLAYMOVE | LCD_MOVERIGHT;
        self.send(cmd, 0x0);
    }

    /// Writes one character at the cursor.
    pub fn print(&mut self, ch: char)
        ensures
            final(self)@ == after(old(self)@, (Command::Print { ch })),
            final(self)@ == old(self)@.queued(
                send_steps(char_byte(ch), RS, old(self)@.backlight),
            ),
    {
        let code: u32 = ch as u32;
        let data: u8 = (code % 256) as u8;
        self.send(data, RS);
    }

    /// Writes the characters of `text` in order.
    pub fn print_str(&mut self, text: &str)
        ensures
            final(self)@ == after(old(self)@, (Command::PrintStr { text: text@ })),
            final(self)@ == old(self)@.queued(
                data_steps(text_bytes(text@), old(self)@.backlight),
            ),
    {
        let count: usize = text.unicode_len();
        let mut i: usize = 0;
        assert(self@.pending =~= old(self)@.pending + data_steps(
            text_bytes(text@).take(0),
            self@.backlight,
        ));
        while i < count
            invariant
                i <= count,
                count == text@.len(),
                self@ == old(self)@.queued(
                    data_steps(text_bytes(text@).take(i as int), old(self)@.backlight),
                ),
            decreases count - i,
        {
            let ch: char = text.get_char(i);
            self.print(ch);
            proof {
                lemma_data_steps_next(text_bytes(text@), i as int, old(self)@.backlight);
                assert(self@.pending =~= old(self)@.pending + data_steps(
                    text_bytes(text@).take(i + 1),
                    old(self)@.backlight,
                ));
            }
            i += 1;
        }
        assert(text_bytes(text@).take(count as int) =~= text_bytes(text@));
    }

    /// Writes `text` from the origin, one cell per character, row after row;
    /// text that runs past the last row goes on over the first.
    ///
    /// Refused, with nothing queued, where the display has no rows or no row
    /// layout.
    pub fn print_long_str(&mut self, text: &str) -> (done: Result<(), LcdError>)
        requires
            old(self)@.wraps(text@.len()),
        ensures
            done == answer(old(self)@, (Command::PrintLongStr { text: text@ })),
            final(self)@ == after(old(self)@, (Command::PrintLongStr { text: text@ })),
            done == old(self)@.cursor_result(0),
            done is Err ==> final(self)@ == old(self)@,
            done is Ok ==> final(self)@ == old(self)@.queued(
                wrapped_steps(
                    text_bytes(text@),
                    old(self)@.cols,
                    old(self)@.rows,
                    old(self)@.backlight,
                ),
            ),
    {
        match self.set_cursor(0, 0) {
            Ok(()) => {},
            Err(refusal) => {
                return Err(refusal);
            },
        }
        let count: usize = text.unicode_len();
        let cols: usize = self.cols as usize;
        let mut i: usize = 0;
        assert(text_bytes(text@).take(0).len() == 0);
        while i < count
            invariant
                i <= count,
                count == text@.len(),
                cols == old(self)@.cols,
                count > 0 ==> addressable(old(self)@.cols, old(self)@.rows),
                old(self)@.cursor_result(0) is Ok,
                self@ == old(self)@.queued(
                    wrapped_steps(
                        text_bytes(text@).take(i as int),
                        old(self)@.cols,
                        old(self)@.rows,
                        old(self)@.backlight,
                    ),
                ),
            decreases count - i,
        {
            let col: u8 = (i % cols) as u8;
            let line: usize = i / cols;
            let row: u8 = if line >= self.rows as usize {
                0
            } else {
                line as u8
            };
            let ch: char = text.get_char(i);
            let placed = self.set_cursor(col, row);
            assert(placed is Ok);
            self.print(ch);
            proof {
                lemma_wrapped_steps_next(
                    text_bytes(text@),
                    i as int,
                    old(self)@.cols,
                    old(self)@.rows,
                    old(self)@.backlight,
                );
                assert(self@.pending =~= old(self)@.pending + wrapped_steps(
                    text_bytes(text@).take(i + 1),
                    old(self)@.cols,
                    old(self)@.rows,
                    old(self)@.backlight,
                ));
            }
            i += 1;
        }
        assert(text_bytes(text@).take(count as int) =~= text_bytes(text@));
        Ok(())
    }

    /// Moves the cursor to the start of the next row, or of the first row
    /// after the last.
    ///
    /// Refused on a single-row display, with the record untouched. On any
    /// other display the record of the current row advances at once, and the
    /// cursor is placed there as `set_cursor` places it.
    pub fn next_line(&mut self) -> (done: Result<(), LcdError>)
        ensures
            done == answer(old(self)@, Command::NextLine),
            final(self)@ == after(old(self)@, Command::NextLine),
            old(self)@.rows == 1 ==> done == Err::<(), LcdError>(LcdError::NextLineUnsupported)
                && final(self)@ == old(self)@,
            old(self)@.rows != 1 ==> {
                let row = next_row(old(self)@.current_line, old(self)@.rows);
                let advanced = LcdView { current_line: row, ..old(self)@ };
                &&& done == advanced.cursor_result(row)
                &&& final(self)@ == advanced.cursor_placed(0, row)
            },
    {
        if self.rows == 1 {
            return Err(LcdError::NextLineUnsupported);
        }
        if self.current_line < u8::MAX && self.current_line + 1 < self.rows {
            self.current_line += 1;
        } else {
            self.current_line = 0;
        }
        self.set_cursor(0, self.current_line)
    }

    /// Loads a glyph of eight rows into slot `location`.
    ///
    /// Refused, with nothing queued, where the slot is above 7.
    pub fn create_custom_chars(&mut self, location: u8, charmap: &[u8]) -> (done: Result<(), LcdError>)
        requires
            location <= 7 ==> charmap@.len() == 8,
        ensures
            done == answer(old(self)@, (Command::CreateCustomChars { location, charmap: charmap@ })),
            final(self)@ == after(old(self)@, (Command::CreateCustomChars { location, charmap: charmap@ })),
            location > 7 ==> done == Err::<(), LcdError>(LcdError::GlyphSlotOutOfRange)
                && final(self)@ == old(self)@,
            location <= 7 ==> done is Ok && final(self)@ == old(self)@.queued(
                glyph_steps(location, charmap@, old(self)@.backlight),
            ),
    {
        if location > 7 {
            return Err(LcdError::GlyphSlotOutOfRange);
        }
        self.send(LCD_SETCGRAMADDR | (location << 3), 0x0);
        let mut i: usize = 0;
        assert(self@.pending =~= old(self)@.pending + (command_steps(
            LCD_SETCGRAMADDR | (location << 3),
            self@.backlight,
        ) + data_steps(charmap@.take(0), self@.backlight)));
        while i < 8
            invariant
                i <= 8,
                charmap@.len() == 8,
                self@ == old(self)@.queued(
                    command_steps(LCD_SETCGRAMADDR | (location << 3), old(self)@.backlight)
                        + data_steps(charmap@.take(i as int), old(self)@.backlight),
                ),
            decreases 8 - i,
        {
            self.send(charmap[i], RS);
            proof {
                lemma_data_steps_next(charmap@, i as int, old(self)@.backlight);
                assert(self@.pending =~= old(self)@.pending + (command_steps(
                    LCD_SETCGRAMADDR | (location << 3),
                    old(self)@.backlight,
                ) + data_steps(charmap@.take(i + 1), old(self)@.backlight)));
            }
            i += 1;
        }
        assert(charmap@.take(8) =~= charmap@);
        Ok(())
    }

    /// Whether `set_cursor(col, row)` may be called: true where the move
    /// would be refused anyway, and where the cell's address fits a byte.
    pub fn can_place(&self, col: u8, row: u8) -> (fits: bool)
        ensures
            fits == (self@.cursor_result(row) is Ok ==> ddram_address(col, row, self@.rows)
                <= u8::MAX),
    {
        match row_offset(self.rows, row) {
            Ok(offset) => col <= u8::MAX - offset,
            Err(_) => true,
        }
    }

    /// Whether `print_long_str(text)` may be called.
    pub fn can_wrap(&self, text: &str) -> (fits: bool)
        ensures
            fits == self@.wraps(text@.len()),
    {
        if text.unicode_len() == 0 {
            return true;
        }
        if self.cols == 0 {
            return row_offset(self.rows, 0).is_err();
        }
        let last: u8 = self.cols - 1;
        let mut row: u8 = 0;
        while row < self.rows
            invariant
                row <= self.rows,
                last == self.cols - 1,
                self.cols > 0,
                text@.len() > 0,
                forall|r: u8|
                    r < row && supported_rows(self.rows) ==> last + #[trigger] row_offsets(
                        self.rows,
                    )[r as int] <= 0xff,
            decreases self.rows - row,
        {
            match row_offset(self.rows, row) {
                Ok(offset) => {
                    if last > u8::MAX - offset {
                        return false;
                    }
                },
                Err(_) => {
                    return true;
                },
            }
            row += 1;
        }
        true
    }

    pub fn cols(&self) -> (cols: u8)
        ensures
            cols == self@.cols,
    {
        self.cols
    }

    pub fn rows(&self) -> (rows: u8)
        ensures
            rows == self@.rows,
    {
        self.rows
    }

    /// The row the cursor was last placed on.
    pub fn current_line(&self) -> (row: u8)
        ensures
            row == self@.current_line,
    {
        self.current_line
    }

    /// The display-control flags on record.
    pub fn display_control(&self) -> (flags: u8)
        ensures
            flags == self@.display_control,
    {
        self.display_control
    }

    /// The entry-mode flags on record.
    pub fn display_mode(&self) -> (flags: u8)
        ensures
            flags == self@.display_mode,
    {
        self.display_mode
    }

    /// Whether the backlight is on.
    pub fn backlight(&self) -> (on: bool)
        ensures
            on == (self@.backlight == LCD_BACKLIGHT),
    {
        self.backlight == LCD_BACKLIGHT
    }

    /// Whether nothing is queued.
    pub fn is_idle(&self) -> (idle: bool)
        ensures
            idle == (self@.pending.len() == 0),
    {
        self.queue.len() == 0
    }
}

} // verus!
