use hd44780_pcf8574::instructions::{FnsetFont, FnsetLines};
use hd44780_pcf8574::interface::recorder::Recorder;
use hd44780_pcf8574::interface::{Exchange, InterfaceError, InterfaceTrait};
use hd44780_pcf8574::types::DisplayTypeFont5x8;
use hd44780_pcf8574::{is_addressable, Hd44780, Hd44780Error};

fn lcd(fail_at: Option<usize>, answers: &[u8]) -> Hd44780<Recorder, DisplayTypeFont5x8> {
    Hd44780::new(
        Recorder::new(fail_at, answers.to_vec()),
        DisplayTypeFont5x8::new(2, 16, FnsetLines::Two),
    )
}

#[test]
fn recorder_keeps_every_exchange() {
    let mut recorder = Recorder::new(None, vec![0x12]);
    assert!(recorder.exchanges().is_empty());
    assert!(recorder.init(FnsetLines::One, FnsetFont::Dots5x10).is_ok());
    assert!(recorder.send_byte::<false>(0x01).is_ok());
    assert!(recorder.send_byte::<true>(0x41).is_ok());
    recorder.delay_us(37);
    assert!(recorder.backlight(false).is_ok());
    let mut byte = 0u8;
    assert!(recorder.receive_byte::<true>(&mut byte).is_ok());
    assert_eq!(byte, 0x12);
    assert_eq!(
        *recorder.exchanges(),
        vec![
            Exchange::Init { lines: FnsetLines::One, font: FnsetFont::Dots5x10, ok: true },
            Exchange::Send { rs: false, byte: 0x01, ok: true },
            Exchange::Send { rs: true, byte: 0x41, ok: true },
            Exchange::Delay { us: 37 },
            Exchange::Backlight { on: false, ok: true },
            Exchange::Receive { rs: true, got: Some(0x12) },
        ]
    );
}

#[test]
fn recorder_fails_the_exchange_it_was_told_to() {
    let mut recorder = Recorder::new(Some(1), vec![]);
    assert!(recorder.send_byte::<true>(0x41).is_ok());
    assert!(matches!(
        recorder.send_byte::<true>(0x42),
        Err(InterfaceError::Pcf8574I2cError)
    ));
    assert!(recorder.send_byte::<true>(0x43).is_ok());
    assert_eq!(
        *recorder.exchanges(),
        vec![
            Exchange::Send { rs: true, byte: 0x41, ok: true },
            Exchange::Send { rs: true, byte: 0x42, ok: false },
            Exchange::Send { rs: true, byte: 0x43, ok: true },
        ]
    );
}

#[test]
fn recorder_answers_in_order_and_then_with_zero() {
    let mut recorder = Recorder::new(Some(2), vec![0xAA, 0xBB]);
    let mut byte = 0x55u8;
    assert!(recorder.receive_byte::<false>(&mut byte).is_ok());
    assert_eq!(byte, 0xAA);
    assert!(recorder.receive_byte::<false>(&mut byte).is_ok());
    assert_eq!(byte, 0xBB);
    assert!(recorder.receive_byte::<false>(&mut byte).is_err());
    assert_eq!(byte, 0xBB);
    assert!(recorder.receive_byte::<false>(&mut byte).is_ok());
    assert_eq!(byte, 0x00);
    assert_eq!(recorder.exchanges()[2], Exchange::Receive { rs: false, got: None });
    assert_eq!(recorder.exchanges()[3], Exchange::Receive { rs: false, got: Some(0) });
}

#[test]
fn recorder_sends_and_receives_runs_of_bytes() {
    let mut recorder = Recorder::new(None, vec![7, 8, 9]);
    assert!(recorder.send_bytes::<true>(b"ab").is_ok());
    let mut buffer = [0u8; 3];
    assert!(recorder.receive_bytes::<true>(&mut buffer).is_ok());
    assert_eq!(buffer, [7, 8, 9]);
    assert_eq!(
        *recorder.exchanges(),
        vec![
            Exchange::Send { rs: true, byte: 0x61, ok: true },
            Exchange::Send { rs: true, byte: 0x62, ok: true },
            Exchange::Receive { rs: true, got: Some(7) },
            Exchange::Receive { rs: true, got: Some(8) },
            Exchange::Receive { rs: true, got: Some(9) },
        ]
    );
}

#[test]
fn recorder_cuts_a_run_short_at_the_failure() {
    let mut recorder = Recorder::new(Some(1), vec![]);
    assert!(recorder.send_bytes::<false>(&[1, 2, 3]).is_err());
    assert_eq!(
        *recorder.exchanges(),
        vec![
            Exchange::Send { rs: false, byte: 1, ok: true },
            Exchange::Send { rs: false, byte: 2, ok: false },
        ]
    );
    let mut recorder = Recorder::new(Some(2), vec![4, 5, 6]);
    let mut buffer = [0xEEu8; 4];
    assert!(recorder.receive_bytes::<true>(&mut buffer).is_err());
    assert_eq!(buffer, [4, 5, 0xEE, 0xEE]);
    assert_eq!(recorder.exchanges().len(), 3);
    assert_eq!(recorder.exchanges()[2], Exchange::Receive { rs: true, got: None });
}

#[test]
fn display_start_up_is_recorded_in_full() {
    let mut lcd = lcd(None, &[]);
    assert!(lcd.init().is_ok());
    assert_eq!(
        *lcd.interface().exchanges(),
        vec![
            Exchange::Init { lines: FnsetLines::Two, font: FnsetFont::Dots5x8, ok: true },
            Exchange::Send { rs: false, byte: 0x0C, ok: true },
            Exchange::Send { rs: false, byte: 0x01, ok: true },
            Exchange::Delay { us: 1_520 },
        ]
    );
}

#[test]
fn display_start_up_is_cut_short_by_a_failure() {
    let mut lcd = lcd(Some(1), &[]);
    assert!(matches!(
        lcd.init(),
        Err(Hd44780Error::InterfaceError(InterfaceError::Pcf8574I2cError))
    ));
    assert_eq!(
        *lcd.interface().exchanges(),
        vec![
            Exchange::Init { lines: FnsetLines::Two, font: FnsetFont::Dots5x8, ok: true },
            Exchange::Send { rs: false, byte: 0x0C, ok: false },
        ]
    );
}

#[test]
fn position_is_one_command_or_none() {
    let mut lcd = lcd(None, &[]);
    assert!(lcd.position(1, 0).is_ok());
    assert!(lcd.position(2, 0).is_err());
    assert!(lcd.position(0, 16).is_err());
    assert!(lcd.position(0, 15).is_ok());
    assert_eq!(
        *lcd.interface().exchanges(),
        vec![
            Exchange::Send { rs: false, byte: 0xC0, ok: true },
            Exchange::Send { rs: false, byte: 0x8F, ok: true },
        ]
    );
}

#[test]
fn status_reads_are_recorded_with_what_they_brought() {
    let mut lcd = lcd(Some(2), &[0x93, 0x13]);
    assert!(matches!(lcd.is_busy(), Ok(true)));
    assert!(matches!(lcd.read_address_counter(), Ok(0x13)));
    assert!(lcd.is_busy().is_err());
    assert_eq!(
        *lcd.interface().exchanges(),
        vec![
            Exchange::Receive { rs: false, got: Some(0x93) },
            Exchange::Receive { rs: false, got: Some(0x13) },
            Exchange::Receive { rs: false, got: None },
        ]
    );
}

#[test]
fn display_tells_which_cells_are_addressable() {
    let lcd = lcd(None, &[]);
    assert!(lcd.is_addressable(0, 0));
    assert!(lcd.is_addressable(1, 15));
    assert!(lcd.is_addressable(24, 0));
    assert!(!lcd.is_addressable(25, 0));
    assert!(lcd.interface().exchanges().is_empty());
}

#[test]
fn cells_are_addressable_while_the_address_fits_a_byte() {
    let two_lines = DisplayTypeFont5x8::new(2, 16, FnsetLines::Two);
    assert!(is_addressable(&two_lines, 1, 15));
    assert!(is_addressable(&two_lines, 7, 15));
    assert!(is_addressable(&two_lines, 23, 15));
    assert!(is_addressable(&two_lines, 24, 0));
    assert!(!is_addressable(&two_lines, 25, 0));
    assert!(!is_addressable(&two_lines, 32, 0));
    let one_line = DisplayTypeFont5x8::new(16, 16, FnsetLines::One);
    assert!(is_addressable(&one_line, 15, 15));
    assert!(!is_addressable(&one_line, 16, 0));
    let wide = DisplayTypeFont5x8::new(2, 200, FnsetLines::Two);
    assert!(is_addressable(&wide, 0, 199));
    assert!(is_addressable(&wide, 1, 191));
    assert!(!is_addressable(&wide, 1, 192));
}
