//! Properties of the operations: what every command keeps, what its writes
//! carry, and what the record holds once the queue was carried out.

use vstd::prelude::*;
use crate::bus::{BusAction, Step};
use crate::command::{after, answer, Command, steps_of};
use crate::consts::{
    CONTROL_FLAGS, EN, ENABLE_CYCLE_US, ENABLE_HIGH_US, LCD_BACKLIGHT, LCD_BLINKON,
    LCD_CLEARDISPLAY, LCD_CURSORON, LCD_DISPLAYCONTROL, LCD_DISPLAYON, LCD_ENTRYLEFT,
    LCD_ENTRYMODESET, LCD_ENTRYSHIFTINCREMENT, LCD_FUNCTIONSET, LCD_SETCGRAMADDR, LCD_SETDDRAMADDR,
    MODE_FLAGS, RESET_ROUNDS, RESET_US, RS, SETTLE_US,
};
use crate::lcd::{LcdView, lemma_flag_masks, lemma_flags_within};
use crate::plan::{
    bus_write, clear_steps, command_steps, configure_steps, cursor_steps, data_steps,
    ddram_address, function_flags, glyph_steps, high_frame, home_steps, init_steps, latch_steps,
    lemma_data_steps_next, low_frame, mode_select_steps, next_row, nibble_steps, reset_rounds,
    reset_steps, send_steps, text_bytes, wait_us, wrapped_col, wrapped_row, wrapped_steps,
};

verus! {

/// A step leaves the backlight on: a write has the backlight line raised,
/// and anything else does not touch the expander.
pub open spec fn lit(step: Step) -> bool {
    match step {
        Step::Bus(BusAction::Write(value)) => value & LCD_BACKLIGHT == LCD_BACKLIGHT,
        _ => true,
    }
}

/// Every write among `steps` has the backlight line raised.
pub open spec fn backlit(steps: Seq<Step>) -> bool {
    forall|i: int| 0 <= i < steps.len() ==> lit(#[trigger] steps[i])
}

/// A byte with the backlight line or-ed in has it raised, whether the
/// enable line was set or cleared before.
proof fn lemma_lines_keep_backlight(data: u8)
    by (bit_vector)
    ensures
        ((data | EN) | LCD_BACKLIGHT) & LCD_BACKLIGHT == LCD_BACKLIGHT,
        ((data & !EN) | LCD_BACKLIGHT) & LCD_BACKLIGHT == LCD_BACKLIGHT,
        LCD_BACKLIGHT & LCD_BACKLIGHT == LCD_BACKLIGHT,
{
}

/// A nibble frame is two writes of the byte: with the enable line high,
/// held for the pulse time, then with it low, held for the cycle time; both
/// carry the backlight line as it stands.
pub proof fn lemma_nibble_is_two_writes(data: u8, backlight: u8)
    ensures
        nibble_steps(data, backlight) == seq![
            bus_write((data | EN) | backlight),
            wait_us(ENABLE_HIGH_US),
            bus_write((data & !EN) | backlight),
            wait_us(ENABLE_CYCLE_US),
        ],
{
}

/// With the backlight on, both writes of a nibble frame carry the
/// backlight line, whatever the byte.
pub proof fn lemma_nibble_backlit(data: u8)
    ensures
        backlit(nibble_steps(data, LCD_BACKLIGHT)),
{
    lemma_lines_keep_backlight(data);
}

/// With the backlight on, both nibble frames of any byte sent in any mode
/// carry the backlight line.
pub proof fn lemma_send_backlit(value: u8, mode: u8)
    ensures
        backlit(send_steps(value, mode, LCD_BACKLIGHT)),
{
    lemma_nibble_backlit(high_frame(value, mode, LCD_BACKLIGHT));
    lemma_nibble_backlit(low_frame(value, mode, LCD_BACKLIGHT));
}

/// With the backlight on, data bytes are backlit.
proof fn lemma_data_backlit(bytes: Seq<u8>)
    ensures
        backlit(data_steps(bytes, LCD_BACKLIGHT)),
    decreases bytes.len(),
{
    if bytes.len() > 0 {
        lemma_data_backlit(bytes.drop_last());
        lemma_send_backlit(bytes.last(), RS);
    }
}

/// With the backlight on, a cursor move is backlit.
proof fn lemma_cursor_backlit(col: u8, row: u8, rows: u8)
    ensures
        backlit(cursor_steps(col, row, rows, LCD_BACKLIGHT)),
{
    lemma_send_backlit(LCD_SETDDRAMADDR | (ddram_address(col, row, rows) as u8), 0x0);
}

/// With the backlight on, wrapped text is backlit.
proof fn lemma_wrapped_backlit(bytes: Seq<u8>, cols: u8, rows: u8)
    ensures
        backlit(wrapped_steps(bytes, cols, rows, LCD_BACKLIGHT)),
    decreases bytes.len(),
{
    if bytes.len() == 0 {
        lemma_cursor_backlit(0, 0, rows);
    } else {
        let i = bytes.len() - 1;
        lemma_wrapped_backlit(bytes.drop_last(), cols, rows);
        lemma_cursor_backlit(wrapped_col(i, cols), wrapped_row(i, cols, rows), rows);
        lemma_send_backlit(bytes.last(), RS);
    }
}

/// With the backlight on, the reset writes are backlit.
proof fn lemma_reset_backlit(count: nat)
    ensures
        backlit(reset_rounds(count, LCD_BACKLIGHT)),
    decreases count,
{
    if count > 0 {
        lemma_reset_backlit((count - 1) as nat);
        lemma_nibble_backlit((0x03u8 << 4) | LCD_BACKLIGHT);
        assert(backlit(reset_steps(LCD_BACKLIGHT)));
    }
}

/// With the backlight on, the power-on sequence is backlit.
proof fn lemma_init_backlit(rows: u8)
    ensures
        backlit(init_steps(rows, LCD_BACKLIGHT)),
{
    lemma_lines_keep_backlight(0);
    assert(backlit(latch_steps(LCD_BACKLIGHT)));
    lemma_reset_backlit(RESET_ROUNDS as nat);
    lemma_nibble_backlit((0x02u8 << 4) | LCD_BACKLIGHT);
    assert(backlit(mode_select_steps(LCD_BACKLIGHT)));
    assert forall|command: u8| backlit(#[trigger] command_steps(command, LCD_BACKLIGHT)) by {
        lemma_send_backlit(command, 0x0);
    }
    assert(backlit(clear_steps(LCD_BACKLIGHT)));
    assert(backlit(home_steps(LCD_BACKLIGHT)));
    assert(backlit(configure_steps(rows, LCD_BACKLIGHT)));
}

/// A command adds its steps at the back of the queue and takes nothing out
/// of it; a refused command adds none.
pub proof fn lemma_after_queues_steps(s: LcdView, command: Command)
    ensures
        after(s, command).pending == s.pending + steps_of(s, command),
        answer(s, command) is Err ==> steps_of(s, command) == Seq::<Step>::empty(),
        after(s, command).cols == s.cols,
        after(s, command).rows == s.rows,
{
    assert(s.pending + Seq::<Step>::empty() =~= s.pending);
}

/// No command but the two backlight switches touches the backlight line.
pub proof fn lemma_backlight_persists(s: LcdView, command: Command)
    requires
        command != Command::BacklightOn,
        command != Command::BacklightOff,
    ensures
        after(s, command).backlight == s.backlight,
{
}

/// Every command leaves documented flag bits only in the two flag records.
pub proof fn lemma_flags_stay_documented(s: LcdView, command: Command)
    requires
        s.wf(),
    ensures
        after(s, command).wf(),
{
    lemma_flag_masks();
    lemma_flags_within(s.display_control, LCD_DISPLAYON, CONTROL_FLAGS);
    lemma_flags_within(s.display_control, LCD_CURSORON, CONTROL_FLAGS);
    lemma_flags_within(s.display_control, LCD_BLINKON, CONTROL_FLAGS);
    lemma_flags_within(s.display_mode, LCD_ENTRYLEFT, MODE_FLAGS);
    lemma_flags_within(s.display_mode, LCD_ENTRYSHIFTINCREMENT, MODE_FLAGS);
}

/// Once the backlight is on, whatever any command but the switch-off queues
/// carries the backlight line in every write, and leaves the backlight on
/// for the next command.
pub proof fn lemma_backlight_carried(s: LcdView, command: Command)
    requires
        s.backlight == LCD_BACKLIGHT,
        command != Command::BacklightOff,
    ensures
        backlit(steps_of(s, command)),
        after(s, command).backlight == LCD_BACKLIGHT,
{
    assert forall|value: u8, mode: u8| backlit(#[trigger] send_steps(value, mode, LCD_BACKLIGHT)) by {
        lemma_send_backlit(value, mode);
    }
    match command {
        Command::Init => {
            lemma_init_backlit(s.rows);
        },
        Command::SetCursor { col, row } => {
            lemma_cursor_backlit(col, row, s.rows);
        },
        Command::PrintStr { text } => {
            lemma_data_backlit(text_bytes(text));
        },
        Command::PrintLongStr { text } => {
            lemma_wrapped_backlit(text_bytes(text), s.cols, s.rows);
        },
        Command::NextLine => {
            lemma_cursor_backlit(0, next_row(s.current_line, s.rows), s.rows);
        },
        Command::CreateCustomChars { location, charmap } => {
            lemma_data_backlit(charmap);
        },
        Command::BacklightOn => {
            lemma_lines_keep_backlight(0);
        },
        _ => {},
    }
}

/// Changes to the record that wait in the queue never touch the backlight:
/// it stays as the last backlight command left it.
pub proof fn lemma_settled_keeps_backlight(s: LcdView)
    ensures
        s.settled().backlight == s.backlight,
        s.settled().cols == s.cols,
        s.settled().rows == s.rows,
    decreases s.pending.len(),
{
    if s.pending.len() > 0 {
        match s.pending[0] {
            Step::Bus(_) => {},
            step => {
                lemma_settled_keeps_backlight(
                    LcdView { pending: s.pending.drop_first(), ..s.applied(step) },
                );
            },
        }
    }
}

/// No step of `steps` changes the record.
pub open spec fn bus_only(steps: Seq<Step>) -> bool {
    forall|i: int| 0 <= i < steps.len() ==> #[trigger] steps[i] is Bus
}

/// Carrying out what was queued first and then `steps` is carrying out the
/// whole queue.
pub proof fn lemma_carried_out_in_turn(s: LcdView, steps: Seq<Step>)
    ensures
        s.queued(steps).carried_out() == s.carried_out().queued(steps).carried_out(),
    decreases s.pending.len(),
{
    if s.pending.len() == 0 {
        assert(s.carried_out() == s);
    } else {
        let next = LcdView { pending: s.pending.drop_first(), ..s.applied(s.pending[0]) };
        assert(s.queued(steps).pending.drop_first() =~= next.pending + steps);
        assert(s.queued(steps).applied(s.pending[0]).pending == s.queued(steps).pending);
        assert((LcdView {
            pending: s.queued(steps).pending.drop_first(),
            ..s.queued(steps).applied(s.pending[0])
        }) == next.queued(steps));
        lemma_carried_out_in_turn(next, steps);
    }
}

/// Carrying out `first + second` is carrying out `first`, then `second`.
pub proof fn lemma_carried_out_concat(s: LcdView, first: Seq<Step>, second: Seq<Step>)
    ensures
        s.queued(first + second).carried_out() == s.queued(first).carried_out().queued(
            second,
        ).carried_out(),
{
    assert(s.queued(first + second) == s.queued(first).queued(second)) by {
        assert(s.pending + (first + second) =~= (s.pending + first) + second);
    }
    lemma_carried_out_in_turn(s.queued(first), second);
}

/// Bus actions leave the record as it is: once carried out, only the queue
/// is shorter.
pub proof fn lemma_bus_only_carried_out(s: LcdView, steps: Seq<Step>)
    requires
        s.pending.len() == 0,
        bus_only(steps),
    ensures
        s.queued(steps).carried_out() == s,
    decreases steps.len(),
{
    let q = s.queued(steps);
    assert(q.pending =~= steps);
    if steps.len() == 0 {
        assert(q == s);
    } else {
        let rest = steps.drop_first();
        assert(steps[0] is Bus);
        assert(bus_only(rest)) by {
            assert forall|i: int| 0 <= i < rest.len() implies #[trigger] rest[i] is Bus by {
                assert(rest[i] == steps[i + 1]);
            }
        }
        assert((LcdView { pending: q.pending.drop_first(), ..q.applied(q.pending[0]) })
            == s.queued(rest)) by {
            assert(s.queued(rest).pending =~= rest);
        }
        lemma_bus_only_carried_out(s, rest);
    }
}

/// A change to the record, once carried out on an idle driver, is the
/// change applied.
pub proof fn lemma_change_carried_out(s: LcdView, step: Step)
    requires
        s.pending.len() == 0,
    ensures
        s.queued(seq![step]).carried_out() == s.applied(step),
{
    let q = s.queued(seq![step]);
    assert(q.pending =~= seq![step]);
    let next = LcdView { pending: q.pending.drop_first(), ..q.applied(step) };
    assert(next.pending =~= s.applied(step).pending);
    assert(next == s.applied(step));
    assert(next.carried_out() == next);
}

/// Once the host has carried out a cursor move, the record holds the row
/// the cursor was placed on, and nothing else of it has changed.
pub proof fn lemma_cursor_recorded(s: LcdView, col: u8, row: u8)
    requires
        s.cursor_result(row) is Ok,
    ensures
        s.cursor_placed(col, row).carried_out() == (LcdView {
            current_line: row,
            ..s.carried_out()
        }),
{
    let done = s.carried_out();
    lemma_carried_out_empties(s);
    let command = command_steps(
        LCD_SETDDRAMADDR | (ddram_address(col, row, s.rows) as u8),
        s.backlight,
    );
    lemma_carried_out_in_turn(s, cursor_steps(col, row, s.rows, s.backlight));
    lemma_carried_out_concat(done, command, seq![Step::SetLine(row)]);
    lemma_bus_only_carried_out(done, command);
    lemma_change_carried_out(done, Step::SetLine(row));
}

/// Once the host has carried out a clear, the record's current row is 0,
/// and nothing else of it has changed.
pub proof fn lemma_clear_recorded(s: LcdView)
    ensures
        s.queued(clear_steps(s.backlight)).carried_out() == (LcdView {
            current_line: 0,
            ..s.carried_out()
        }),
{
    let done = s.carried_out();
    lemma_carried_out_empties(s);
    let bus = command_steps(LCD_CLEARDISPLAY, s.backlight) + seq![wait_us(SETTLE_US)];
    assert(clear_steps(s.backlight) =~= bus + seq![Step::SetLine(0)]);
    lemma_carried_out_in_turn(s, clear_steps(s.backlight));
    lemma_carried_out_concat(done, bus, seq![Step::SetLine(0)]);
    lemma_bus_only_carried_out(done, bus);
    lemma_change_carried_out(done, Step::SetLine(0));
}

/// Once the host has carried out the power-on sequence, the record holds
/// the power-on flags and row 0: display on, cursor and blink off,
/// left-to-right entry without autoscroll.
pub proof fn lemma_init_recorded(s: LcdView)
    ensures
        s.queued(init_steps(s.rows, s.backlight)).carried_out() == (LcdView {
            display_control: LCD_DISPLAYON,
            display_mode: LCD_ENTRYLEFT,
            current_line: 0,
            ..s.carried_out()
        }),
{
    let bl = s.backlight;
    let done = s.carried_out();
    lemma_carried_out_empties(s);
    lemma_carried_out_in_turn(s, init_steps(s.rows, bl));
    // The sequence in five parts, each bus work with at most one change at
    // its end.
    let a = latch_steps(bl) + mode_select_steps(bl) + command_steps(
        LCD_FUNCTIONSET | function_flags(s.rows),
        bl,
    );
    let b = command_steps(LCD_DISPLAYCONTROL | LCD_DISPLAYON, bl) + command_steps(
        LCD_CLEARDISPLAY,
        bl,
    ) + seq![wait_us(SETTLE_US)];
    let c = command_steps(LCD_ENTRYMODESET | LCD_ENTRYLEFT, bl) + home_steps(bl);
    let control = seq![Step::DefaultControl];
    let line = seq![Step::SetLine(0)];
    let mode = seq![Step::DefaultMode];
    assert(init_steps(s.rows, bl) =~= a + control + b + line + mode + c);
    assert(bus_only(a)) by {
        lemma_reset_rounds_bus_only(RESET_ROUNDS as nat, bl);
    }
    assert(bus_only(b));
    assert(bus_only(c));
    let s1 = done.applied(Step::DefaultControl);
    let s2 = s1.applied(Step::SetLine(0));
    let s3 = s2.applied(Step::DefaultMode);
    lemma_carried_out_concat(done, a + control + b + line + mode, c);
    lemma_carried_out_concat(done, a + control + b + line, mode);
    lemma_carried_out_concat(done, a + control + b, line);
    lemma_carried_out_concat(done, a + control, b);
    lemma_carried_out_concat(done, a, control);
    lemma_bus_only_carried_out(done, a);
    lemma_change_carried_out(done, Step::DefaultControl);
    lemma_bus_only_carried_out(s1, b);
    lemma_change_carried_out(s1, Step::SetLine(0));
    lemma_change_carried_out(s2, Step::DefaultMode);
    lemma_bus_only_carried_out(s3, c);
}

/// The reset writes are bus work only.
proof fn lemma_reset_rounds_bus_only(count: nat, backlight: u8)
    ensures
        bus_only(reset_rounds(count, backlight)),
    decreases count,
{
    if count > 0 {
        lemma_reset_rounds_bus_only((count - 1) as nat, backlight);
        assert(bus_only(reset_steps(backlight)));
    }
}

/// Nothing is queued once everything was carried out.
pub proof fn lemma_carried_out_empties(s: LcdView)
    ensures
        s.carried_out().pending.len() == 0,
        s.carried_out().backlight == s.backlight,
        s.carried_out().rows == s.rows,
        s.carried_out().cols == s.cols,
    decreases s.pending.len(),
{
    if s.pending.len() > 0 {
        lemma_carried_out_empties(
            LcdView { pending: s.pending.drop_first(), ..s.applied(s.pending[0]) },
        );
    }
}

/// The power-on sequence forces 4-bit mode with exactly three reset writes,
/// each followed by its settle time, and only then the mode-select nibble.
pub proof fn lemma_three_resets_then_mode_select(backlight: u8)
    ensures
        mode_select_steps(backlight) == reset_steps(backlight) + reset_steps(backlight)
            + reset_steps(backlight) + nibble_steps((0x02u8 << 4) | backlight, backlight),
        reset_steps(backlight) == nibble_steps((0x03u8 << 4) | backlight, backlight) + seq![
            wait_us(RESET_US),
        ],
{
    reveal_with_fuel(reset_rounds, 4);
    assert(reset_rounds(3, backlight) =~= reset_steps(backlight) + reset_steps(backlight)
        + reset_steps(backlight));
}

/// A glyph is loaded with nine bytes: the slot's address as a command, then
/// the eight rows of the pattern as data, first row first.
pub proof fn lemma_glyph_is_address_and_eight_rows(slot: u8, pattern: Seq<u8>, backlight: u8)
    requires
        pattern.len() == 8,
    ensures
        glyph_steps(slot, pattern, backlight) == send_steps(
            LCD_SETCGRAMADDR | (slot << 3),
            0x0,
            backlight,
        ) + (send_steps(pattern[0], RS, backlight) + send_steps(pattern[1], RS, backlight)
            + send_steps(pattern[2], RS, backlight) + send_steps(pattern[3], RS, backlight)
            + send_steps(pattern[4], RS, backlight) + send_steps(pattern[5], RS, backlight)
            + send_steps(pattern[6], RS, backlight) + send_steps(pattern[7], RS, backlight)),
{
    assert(pattern.take(8) =~= pattern);
    assert(data_steps(pattern.take(0), backlight) =~= Seq::<Step>::empty());
    lemma_data_steps_next(pattern, 0, backlight);
    lemma_data_steps_next(pattern, 1, backlight);
    lemma_data_steps_next(pattern, 2, backlight);
    lemma_data_steps_next(pattern, 3, backlight);
    lemma_data_steps_next(pattern, 4, backlight);
    lemma_data_steps_next(pattern, 5, backlight);
    lemma_data_steps_next(pattern, 6, backlight);
    lemma_data_steps_next(pattern, 7, backlight);
    assert(data_steps(pattern.take(1), backlight) =~= send_steps(pattern[0], RS, backlight));
}

/// Switching the display on or off leaves the cursor and blink flags as
/// they were.
pub proof fn lemma_display_toggle_keeps_cursor_and_blink(control: u8)
    by (bit_vector)
    ensures
        (control | LCD_DISPLAYON) & (LCD_CURSORON | LCD_BLINKON) == control & (LCD_CURSORON
            | LCD_BLINKON),
        (control & !LCD_DISPLAYON) & (LCD_CURSORON | LCD_BLINKON) == control & (LCD_CURSORON
            | LCD_BLINKON),
        (control | LCD_DISPLAYON) & LCD_DISPLAYON == LCD_DISPLAYON,
        (control & !LCD_DISPLAYON) & LCD_DISPLAYON == 0,
{
}

} // verus!
