use lcd_i2c::lcd::row_offset;
use lcd_i2c::{frame, BusAction, BusOutcome, Lcd, LcdError};

const EN: u8 = 0x04;
const RS: u8 = 0x01;
const BL: u8 = 0x08;

/// Carries out everything queued on a bus that never fails.
fn drain(lcd: &mut Lcd) -> Vec<BusAction> {
    let mut done = Vec::new();
    while let Some(action) = lcd.advance(BusOutcome::Done).unwrap() {
        done.push(action);
    }
    done
}

/// Carries out `budget` actions, then fails the next write.
fn drain_until_failure(lcd: &mut Lcd, budget: usize) -> (Vec<BusAction>, Result<(), LcdError>) {
    let mut done = Vec::new();
    loop {
        match lcd.advance(BusOutcome::Done) {
            Ok(Some(action)) => {
                if done.len() == budget {
                    return (done, lcd.advance(BusOutcome::Failed).map(|_| ()));
                }
                done.push(action);
            }
            Ok(None) => return (done, Ok(())),
            Err(e) => return (done, Err(e)),
        }
    }
}

fn nibble(data: u8, bl: u8) -> Vec<BusAction> {
    vec![
        BusAction::Write(data | EN | bl),
        BusAction::DelayUs(1),
        BusAction::Write((data & !EN) | bl),
        BusAction::DelayUs(50),
    ]
}

fn writes(actions: &[BusAction]) -> Vec<u8> {
    let mut out = Vec::new();
    for a in actions {
        if let BusAction::Write(b) = a {
            out.push(*b);
        }
    }
    out
}

/// Reads the bytes the controller latches back out of the expander writes:
/// a nibble is latched on each falling edge of the enable line. Each entry
/// is the byte and whether register-select was high.
fn latched(actions: &[BusAction]) -> Vec<(u8, bool)> {
    let w = writes(actions);
    let mut nibbles = Vec::new();
    for pair in w.windows(2) {
        if pair[0] & EN != 0 && pair[1] & EN == 0 {
            nibbles.push((pair[0] & 0xf0, pair[0] & RS != 0));
        }
    }
    assert_eq!(nibbles.len() % 2, 0);
    nibbles
        .chunks(2)
        .map(|c| {
            assert_eq!(c[0].1, c[1].1);
            (c[0].0 | (c[1].0 >> 4), c[0].1)
        })
        .collect()
}

#[test]
fn new_driver_is_idle_with_power_on_flags() {
    let lcd = Lcd::new(16, 2);
    assert_eq!(lcd.cols(), 16);
    assert_eq!(lcd.rows(), 2);
    assert_eq!(lcd.display_control(), 0x04);
    assert_eq!(lcd.display_mode(), 0x02);
    assert_eq!(lcd.current_line(), 0);
    assert!(!lcd.backlight());
    assert!(lcd.is_idle());
}

#[test]
fn frame_is_zero_then_value() {
    assert_eq!(frame(0x5a), [0x00, 0x5a]);
    assert_eq!(frame(0x00), [0x00, 0x00]);
    assert_eq!(lcd_i2c::consts::LCD_ADDRESS, 0x27);
}

#[test]
fn send_emits_high_then_low_nibble_frame() {
    let mut lcd = Lcd::new(16, 2);
    lcd.send(0xa5, RS);
    let mut expected = nibble(0xa1, 0);
    expected.extend(nibble(0x51, 0));
    assert_eq!(drain(&mut lcd), expected);
    assert!(lcd.is_idle());
}

#[test]
fn send_carries_backlight_in_both_frames() {
    let mut lcd = Lcd::new(16, 2);
    lcd.backlight_on();
    assert_eq!(drain(&mut lcd), vec![BusAction::Write(BL)]);
    lcd.send(0x3c, 0);
    let mut expected = nibble(0x30 | BL, BL);
    expected.extend(nibble(0xc0 | BL, BL));
    assert_eq!(drain(&mut lcd), expected);
}

#[test]
fn send_command_zero_mode() {
    let mut lcd = Lcd::new(16, 2);
    lcd.send(0x01, 0);
    assert_eq!(
        writes(&drain(&mut lcd)),
        vec![0x04, 0x00, 0x14, 0x10]
    );
}

#[test]
fn set_cursor_origin_and_second_row() {
    let mut lcd = Lcd::new(16, 2);
    assert_eq!(lcd.set_cursor(0, 0), Ok(()));
    assert_eq!(latched(&drain(&mut lcd)), vec![(0x80, false)]);
    assert_eq!(lcd.current_line(), 0);
    assert_eq!(lcd.set_cursor(0, 1), Ok(()));
    assert_eq!(latched(&drain(&mut lcd)), vec![(0xc0, false)]);
    assert_eq!(lcd.current_line(), 1);
}

#[test]
fn set_cursor_adds_column_to_row_start() {
    let mut lcd = Lcd::new(20, 4);
    assert_eq!(lcd.set_cursor(5, 2), Ok(()));
    assert_eq!(latched(&drain(&mut lcd)), vec![(0x80 | (0x14 + 5), false)]);
    assert_eq!(lcd.set_cursor(19, 3), Ok(()));
    assert_eq!(latched(&drain(&mut lcd)), vec![(0x80 | (0x54 + 19), false)]);
    assert_eq!(lcd.current_line(), 3);
    let mut one = Lcd::new(8, 1);
    assert_eq!(one.set_cursor(7, 0), Ok(()));
    assert_eq!(latched(&drain(&mut one)), vec![(0x87, false)]);
}

#[test]
fn set_cursor_row_out_of_range_queues_nothing() {
    let mut lcd = Lcd::new(16, 2);
    assert_eq!(lcd.set_cursor(0, 2), Err(LcdError::RowOutOfRange));
    assert!(lcd.is_idle());
    assert_eq!(lcd.set_cursor(3, 255), Err(LcdError::RowOutOfRange));
    assert!(lcd.is_idle());
    assert_eq!(lcd.current_line(), 0);
    let mut none = Lcd::new(16, 0);
    assert_eq!(none.set_cursor(0, 0), Err(LcdError::RowOutOfRange));
    assert!(none.is_idle());
}

#[test]
fn set_cursor_unsupported_row_count() {
    let mut lcd = Lcd::new(16, 3);
    assert_eq!(lcd.set_cursor(0, 1), Err(LcdError::UnsupportedRowCount));
    assert!(lcd.is_idle());
    assert_eq!(lcd.set_cursor(0, 3), Err(LcdError::RowOutOfRange));
}

#[test]
fn row_offset_table() {
    assert_eq!(row_offset(1, 0), Ok(0x00));
    assert_eq!(row_offset(2, 0), Ok(0x00));
    assert_eq!(row_offset(2, 1), Ok(0x40));
    assert_eq!(row_offset(4, 0), Ok(0x00));
    assert_eq!(row_offset(4, 1), Ok(0x40));
    assert_eq!(row_offset(4, 2), Ok(0x14));
    assert_eq!(row_offset(4, 3), Ok(0x54));
    assert_eq!(row_offset(3, 0), Err(LcdError::UnsupportedRowCount));
    assert_eq!(row_offset(4, 4), Err(LcdError::RowOutOfRange));
    assert_eq!(row_offset(0, 0), Err(LcdError::RowOutOfRange));
}

#[test]
fn cursor_record_waits_for_the_bus() {
    let mut lcd = Lcd::new(16, 2);
    assert_eq!(lcd.set_cursor(0, 1), Ok(()));
    assert_eq!(lcd.current_line(), 0);
    let (done, result) = drain_until_failure(&mut lcd, 4);
    assert_eq!(done.len(), 4);
    assert_eq!(result, Err(LcdError::BusFailure));
    assert!(lcd.is_idle());
    assert_eq!(lcd.current_line(), 0);
}

#[test]
fn failure_with_nothing_queued_is_reported() {
    let mut lcd = Lcd::new(16, 2);
    assert_eq!(lcd.advance(BusOutcome::Failed), Err(LcdError::BusFailure));
    assert_eq!(lcd.advance(BusOutcome::Done), Ok(None));
}

#[test]
fn glyph_slot_out_of_range_queues_nothing() {
    let mut lcd = Lcd::new(16, 2);
    let pattern = [0x1f, 0x11, 0x11, 0x11, 0x11, 0x11, 0x11, 0x1f];
    assert_eq!(
        lcd.create_custom_chars(8, &pattern),
        Err(LcdError::GlyphSlotOutOfRange)
    );
    assert!(lcd.is_idle());
    assert_eq!(
        lcd.create_custom_chars(255, &pattern),
        Err(LcdError::GlyphSlotOutOfRange)
    );
    assert!(lcd.is_idle());
}

#[test]
fn glyph_is_one_address_and_eight_rows() {
    let mut lcd = Lcd::new(16, 2);
    let pattern = [0x00, 0x0a, 0x1f, 0x1f, 0x0e, 0x04, 0x00, 0x15];
    assert_eq!(lcd.create_custom_chars(0, &pattern), Ok(()));
    let sent = latched(&drain(&mut lcd));
    assert_eq!(sent.len(), 9);
    assert_eq!(sent[0], (0x40, false));
    for i in 0..8 {
        assert_eq!(sent[i + 1], (pattern[i], true));
    }
    assert_eq!(lcd.create_custom_chars(7, &pattern), Ok(()));
    let sent = latched(&drain(&mut lcd));
    assert_eq!(sent.len(), 9);
    assert_eq!(sent[0], (0x40 | (7 << 3), false));
    assert_eq!(lcd.create_custom_chars(3, &pattern), Ok(()));
    assert_eq!(latched(&drain(&mut lcd))[0], (0x58, false));
}

#[test]
fn wrapped_text_goes_back_to_the_first_row() {
    let mut lcd = Lcd::new(16, 2);
    let text = "ABCDEFGHIJKLMNOPQRSTUVWXYZabcdefg";
    assert!(lcd.can_wrap(text));
    assert_eq!(text.chars().count(), 33);
    assert_eq!(lcd.print_long_str(text), Ok(()));
    let sent = latched(&drain(&mut lcd));
    assert_eq!(sent.len(), 1 + 2 * 33);
    assert_eq!(sent[0], (0x80, false));
    let bytes = text.as_bytes();
    for i in 0..33usize {
        let col = (i % 16) as u8;
        let row = if i / 16 >= 2 { 0 } else { i / 16 };
        let start = [0x00u8, 0x40][row];
        assert_eq!(sent[1 + 2 * i], (0x80 | (start + col), false));
        assert_eq!(sent[2 + 2 * i], (bytes[i], true));
    }
    // The 17th character opens the second row, the 33rd overwrites the origin.
    assert_eq!(sent[1 + 2 * 16], (0xc0, false));
    assert_eq!(sent[2 + 2 * 16], (b'Q', true));
    assert_eq!(sent[1 + 2 * 32], (0x80, false));
    assert_eq!(sent[2 + 2 * 32], (b'g', true));
    assert_eq!(lcd.current_line(), 0);
}

#[test]
fn wrapped_text_empty_only_homes_the_cursor() {
    let mut lcd = Lcd::new(16, 2);
    assert_eq!(lcd.print_long_str(""), Ok(()));
    assert_eq!(latched(&drain(&mut lcd)), vec![(0x80, false)]);
}

#[test]
fn wrapped_text_far_past_the_last_row_stays_on_the_first() {
    let mut lcd = Lcd::new(2, 2);
    assert_eq!(lcd.print_long_str("abcdefgh"), Ok(()));
    let sent = latched(&drain(&mut lcd));
    let addresses: Vec<u8> = (0..8).map(|i| sent[1 + 2 * i].0).collect();
    assert_eq!(
        addresses,
        vec![0x80, 0x81, 0xc0, 0xc1, 0x80, 0x81, 0x80, 0x81]
    );
}

#[test]
fn wrapped_text_refused_without_row_layout() {
    let mut lcd = Lcd::new(16, 3);
    assert!(lcd.can_wrap("abc"));
    assert_eq!(
        lcd.print_long_str("abc"),
        Err(LcdError::UnsupportedRowCount)
    );
    assert!(lcd.is_idle());
    let mut none = Lcd::new(16, 0);
    assert!(none.can_wrap("abc"));
    assert_eq!(none.print_long_str("abc"), Err(LcdError::RowOutOfRange));
    assert!(none.is_idle());
}

#[test]
fn can_wrap_and_can_place_guard_the_address_byte() {
    assert!(!Lcd::new(0, 2).can_wrap("a"));
    assert!(Lcd::new(172, 4).can_wrap("a"));
    assert!(!Lcd::new(173, 4).can_wrap("a"));
    assert!(Lcd::new(192, 2).can_wrap("a"));
    assert!(!Lcd::new(193, 2).can_wrap("a"));
    assert!(Lcd::new(255, 1).can_wrap("a"));
    // Nothing to place, or the move to the origin is refused anyway.
    assert!(Lcd::new(0, 2).can_wrap(""));
    assert!(Lcd::new(193, 2).can_wrap(""));
    assert!(Lcd::new(0, 3).can_wrap("a"));
    assert!(Lcd::new(0, 0).can_wrap("a"));
    let lcd = Lcd::new(20, 4);
    assert!(lcd.can_place(171, 3));
    assert!(!lcd.can_place(172, 3));
    assert!(lcd.can_place(255, 0));
    assert!(lcd.can_place(255, 4));
    assert!(Lcd::new(20, 3).can_place(255, 1));
}

#[test]
fn wrapped_text_without_columns() {
    let mut lcd = Lcd::new(0, 2);
    assert_eq!(lcd.print_long_str(""), Ok(()));
    assert_eq!(latched(&drain(&mut lcd)), vec![(0x80, false)]);
    let mut odd = Lcd::new(0, 3);
    assert_eq!(odd.print_long_str("abc"), Err(LcdError::UnsupportedRowCount));
    assert!(odd.is_idle());
}

#[test]
fn nibble_frame_is_two_writes() {
    let mut lcd = Lcd::new(16, 2);
    lcd.send(0xa0, 0);
    let done = drain(&mut lcd);
    assert_eq!(
        done,
        vec![
            BusAction::Write(0xa4),
            BusAction::DelayUs(1),
            BusAction::Write(0xa0),
            BusAction::DelayUs(50),
            BusAction::Write(0x04),
            BusAction::DelayUs(1),
            BusAction::Write(0x00),
            BusAction::DelayUs(50),
        ]
    );
    assert_eq!(writes(&done).len(), 4);
}

#[test]
fn glyph_slot_refused_whatever_the_pattern() {
    let mut lcd = Lcd::new(16, 2);
    lcd.set_cursor(0, 1).unwrap();
    drain(&mut lcd);
    assert_eq!(
        lcd.create_custom_chars(8, &[]),
        Err(LcdError::GlyphSlotOutOfRange)
    );
    assert_eq!(
        lcd.create_custom_chars(9, &[1, 2, 3]),
        Err(LcdError::GlyphSlotOutOfRange)
    );
    assert_eq!(
        lcd.create_custom_chars(200, &[0u8; 12]),
        Err(LcdError::GlyphSlotOutOfRange)
    );
    assert!(lcd.is_idle());
    assert_eq!(lcd.display_control(), 0x04);
    assert_eq!(lcd.display_mode(), 0x02);
    assert_eq!(lcd.current_line(), 1);
    assert!(!lcd.backlight());
}

#[test]
fn backlight_stays_in_every_write_until_switched_off() {
    let mut lcd = Lcd::new(16, 2);
    lcd.backlight_on();
    assert!(lcd.backlight());
    lcd.init();
    lcd.display_off();
    lcd.display_on();
    lcd.clear();
    lcd.set_cursor(3, 1).unwrap();
    lcd.cursor(true);
    lcd.blink(true);
    lcd.print('x');
    lcd.print_str("hello");
    lcd.print_long_str("wrapped text that is long enough to wrap")
        .unwrap();
    lcd.autoscroll(true);
    lcd.scroll_left();
    lcd.scroll_right();
    lcd.right_to_left();
    lcd.left_to_right();
    lcd.home();
    lcd.next_line().unwrap();
    lcd.create_custom_chars(1, &[0u8; 8]).unwrap();
    let lit = writes(&drain(&mut lcd));
    assert!(lit.len() > 100);
    assert!(lit.iter().all(|b| b & BL == BL));
    assert!(lcd.backlight());

    lcd.backlight_off();
    assert!(!lcd.backlight());
    assert_eq!(drain(&mut lcd), vec![BusAction::Write(0x00)]);
    lcd.clear();
    lcd.print_str("dark");
    lcd.set_cursor(0, 0).unwrap();
    let dark = writes(&drain(&mut lcd));
    assert!(dark.iter().all(|b| b & BL == 0));
}

#[test]
fn init_resets_three_times_before_mode_select() {
    let mut lcd = Lcd::new(16, 2);
    lcd.init();
    let done = drain(&mut lcd);
    let mut expected = vec![
        BusAction::DelayMs(50),
        BusAction::Write(0x00),
        BusAction::DelayMs(1000),
    ];
    for _ in 0..3 {
        expected.extend(nibble(0x30, 0));
        expected.push(BusAction::DelayUs(4500));
    }
    expected.extend(nibble(0x20, 0));
    assert_eq!(&done[..expected.len()], &expected[..]);
    let rest = &done[expected.len()..];
    assert_eq!(
        latched(rest),
        vec![
            (0x28, false),
            (0x0c, false),
            (0x01, false),
            (0x06, false),
            (0x02, false)
        ]
    );
    let settles: Vec<&BusAction> = rest
        .iter()
        .filter(|a| **a == BusAction::DelayUs(2000))
        .collect();
    assert_eq!(settles.len(), 2);
    assert_eq!(rest.last(), Some(&BusAction::DelayUs(2000)));
    let resets = writes(&done).iter().filter(|b| **b == 0x34).count();
    assert_eq!(resets, 3);
}

#[test]
fn init_single_row_selects_one_line() {
    let mut lcd = Lcd::new(16, 1);
    lcd.backlight_on();
    drain(&mut lcd);
    lcd.init();
    let done = drain(&mut lcd);
    assert_eq!(done[1], BusAction::Write(BL));
    let commands = latched(&done);
    // Three reset nibbles and the mode-select nibble pair up as 0x33, 0x32.
    assert_eq!(
        commands,
        vec![
            (0x33, false),
            (0x32, false),
            (0x20, false),
            (0x0c, false),
            (0x01, false),
            (0x06, false),
            (0x02, false)
        ]
    );
}

#[test]
fn init_restores_the_flag_records_as_it_goes() {
    let mut lcd = Lcd::new(16, 2);
    lcd.display_off();
    lcd.cursor(true);
    lcd.right_to_left();
    lcd.autoscroll(true);
    lcd.set_cursor(0, 1).unwrap();
    drain(&mut lcd);
    assert_eq!(lcd.display_control(), 0x02);
    assert_eq!(lcd.display_mode(), 0x01);
    assert_eq!(lcd.current_line(), 1);
    lcd.init();
    assert_eq!(lcd.display_control(), 0x02);
    drain(&mut lcd);
    assert_eq!(lcd.display_control(), 0x04);
    assert_eq!(lcd.display_mode(), 0x02);
    assert_eq!(lcd.current_line(), 0);
}

#[test]
fn init_aborted_by_the_bus_leaves_the_record() {
    let mut lcd = Lcd::new(16, 2);
    lcd.display_off();
    lcd.right_to_left();
    drain(&mut lcd);
    lcd.init();
    let (done, result) = drain_until_failure(&mut lcd, 1);
    assert_eq!(done, vec![BusAction::DelayMs(50)]);
    assert_eq!(result, Err(LcdError::BusFailure));
    assert!(lcd.is_idle());
    assert_eq!(lcd.display_control(), 0x00);
    assert_eq!(lcd.display_mode(), 0x00);
}

#[test]
fn display_toggle_keeps_cursor_and_blink() {
    let mut lcd = Lcd::new(16, 2);
    lcd.cursor(true);
    assert_eq!(latched(&drain(&mut lcd)), vec![(0x0e, false)]);
    lcd.blink(true);
    assert_eq!(latched(&drain(&mut lcd)), vec![(0x0f, false)]);
    lcd.display_off();
    assert_eq!(latched(&drain(&mut lcd)), vec![(0x0b, false)]);
    assert_eq!(lcd.display_control(), 0x03);
    lcd.display_on();
    assert_eq!(latched(&drain(&mut lcd)), vec![(0x0f, false)]);
    lcd.cursor(false);
    assert_eq!(latched(&drain(&mut lcd)), vec![(0x0d, false)]);
    lcd.blink(false);
    assert_eq!(latched(&drain(&mut lcd)), vec![(0x0c, false)]);
    assert_eq!(lcd.display_control(), 0x04);
}

#[test]
fn entry_mode_flags() {
    let mut lcd = Lcd::new(16, 2);
    lcd.autoscroll(true);
    assert_eq!(latched(&drain(&mut lcd)), vec![(0x07, false)]);
    lcd.right_to_left();
    assert_eq!(latched(&drain(&mut lcd)), vec![(0x05, false)]);
    lcd.autoscroll(false);
    assert_eq!(latched(&drain(&mut lcd)), vec![(0x04, false)]);
    assert_eq!(lcd.display_mode(), 0x00);
    lcd.left_to_right();
    assert_eq!(latched(&drain(&mut lcd)), vec![(0x06, false)]);
    assert_eq!(lcd.display_mode(), 0x02);
}

#[test]
fn scrolling_is_momentary() {
    let mut lcd = Lcd::new(16, 2);
    lcd.scroll_left();
    assert_eq!(latched(&drain(&mut lcd)), vec![(0x18, false)]);
    lcd.scroll_right();
    assert_eq!(latched(&drain(&mut lcd)), vec![(0x1c, false)]);
    assert_eq!(lcd.display_control(), 0x04);
    assert_eq!(lcd.display_mode(), 0x02);
    assert_eq!(lcd.current_line(), 0);
    lcd.set_cursor(2, 1).unwrap();
    assert_eq!(latched(&drain(&mut lcd)), vec![(0xc2, false)]);
}

#[test]
fn clear_settles_and_resets_the_row() {
    let mut lcd = Lcd::new(16, 2);
    lcd.set_cursor(0, 1).unwrap();
    drain(&mut lcd);
    lcd.clear();
    let mut expected = nibble(0x00, 0);
    expected.extend(nibble(0x10, 0));
    expected.push(BusAction::DelayUs(2000));
    assert_eq!(lcd.current_line(), 1);
    assert_eq!(drain(&mut lcd), expected);
    assert_eq!(lcd.current_line(), 0);
}

#[test]
fn home_settles() {
    let mut lcd = Lcd::new(16, 2);
    lcd.home();
    let mut expected = nibble(0x00, 0);
    expected.extend(nibble(0x20, 0));
    expected.push(BusAction::DelayUs(2000));
    assert_eq!(drain(&mut lcd), expected);
}

#[test]
fn print_sends_the_low_byte_as_data() {
    let mut lcd = Lcd::new(16, 2);
    lcd.print('A');
    assert_eq!(latched(&drain(&mut lcd)), vec![(0x41, true)]);
    lcd.print('\u{e9}');
    assert_eq!(latched(&drain(&mut lcd)), vec![(0xe9, true)]);
    lcd.print('\u{20ac}');
    assert_eq!(latched(&drain(&mut lcd)), vec![(0xac, true)]);
}

#[test]
fn print_str_keeps_the_order() {
    let mut lcd = Lcd::new(16, 2);
    lcd.print_str("Hi!");
    assert_eq!(
        latched(&drain(&mut lcd)),
        vec![(0x48, true), (0x69, true), (0x21, true)]
    );
    lcd.print_str("");
    assert!(lcd.is_idle());
}

#[test]
fn print_str_aborted_leaves_the_rest_unwritten() {
    let mut lcd = Lcd::new(16, 2);
    lcd.print_str("abc");
    let (done, result) = drain_until_failure(&mut lcd, 10);
    assert_eq!(done.len(), 10);
    assert_eq!(latched(&done[..8]), vec![(0x61, true)]);
    assert_eq!(done[8], BusAction::Write(0x60 | RS | EN));
    assert_eq!(result, Err(LcdError::BusFailure));
    assert!(lcd.is_idle());
    assert_eq!(lcd.advance(BusOutcome::Done), Ok(None));
}

#[test]
fn next_line_refused_on_one_row() {
    let mut lcd = Lcd::new(16, 1);
    assert_eq!(lcd.next_line(), Err(LcdError::NextLineUnsupported));
    assert!(lcd.is_idle());
    assert_eq!(lcd.current_line(), 0);
}

#[test]
fn next_line_advances_and_wraps() {
    let mut lcd = Lcd::new(16, 2);
    assert_eq!(lcd.next_line(), Ok(()));
    assert_eq!(lcd.current_line(), 1);
    assert_eq!(latched(&drain(&mut lcd)), vec![(0xc0, false)]);
    assert_eq!(lcd.next_line(), Ok(()));
    assert_eq!(lcd.current_line(), 0);
    assert_eq!(latched(&drain(&mut lcd)), vec![(0x80, false)]);

    let mut four = Lcd::new(20, 4);
    let mut seen = Vec::new();
    for _ in 0..5 {
        assert_eq!(four.next_line(), Ok(()));
        seen.push(latched(&drain(&mut four))[0].0);
    }
    assert_eq!(seen, vec![0xc0, 0x94, 0xd4, 0x80, 0xc0]);
}

#[test]
fn next_line_without_row_layout() {
    let mut lcd = Lcd::new(16, 3);
    assert_eq!(lcd.next_line(), Err(LcdError::UnsupportedRowCount));
    assert_eq!(lcd.current_line(), 1);
    assert!(lcd.is_idle());
    let mut none = Lcd::new(16, 0);
    assert_eq!(none.next_line(), Err(LcdError::RowOutOfRange));
    assert_eq!(none.current_line(), 0);
}

#[test]
fn flag_records_hold_documented_bits_only() {
    let mut lcd = Lcd::new(16, 2);
    for round in 0..4u8 {
        lcd.cursor(round & 1 == 0);
        lcd.blink(round & 2 == 0);
        lcd.autoscroll(round & 1 != 0);
        if round & 2 != 0 {
            lcd.right_to_left();
            lcd.display_off();
        } else {
            lcd.left_to_right();
            lcd.display_on();
        }
        assert_eq!(lcd.display_control() & !0x07, 0);
        assert_eq!(lcd.display_mode() & !0x03, 0);
        for (byte, data) in latched(&drain(&mut lcd)) {
            assert!(!data);
            assert!(byte & 0xf8 == 0x08 || byte & 0xfc == 0x04);
        }
    }
    assert_eq!(lcd.display_control(), 0x00);
    assert_eq!(lcd.display_mode(), 0x01);
}

#[test]
fn commands_queue_behind_what_is_pending() {
    let mut lcd = Lcd::new(16, 2);
    lcd.print('a');
    lcd.print('b');
    assert!(!lcd.is_idle());
    assert_eq!(latched(&drain(&mut lcd)), vec![(0x61, true), (0x62, true)]);
    assert!(lcd.is_idle());
}
