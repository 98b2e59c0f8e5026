use hd44780_pcf8574::instructions::{FnsetFont, FnsetLines};
use hd44780_pcf8574::interface::pcf8574::{
    BusOperation, BusStep, Pcf8574Encoder, Pcf8574EncoderDefault, Pcf8574Interface, Progress,
    Transfer,
};
use hd44780_pcf8574::interface::InterfaceError;

type Conventional = Pcf8574EncoderDefault<0x01, 0x02, 0x04, 0x08>;

fn bridge() -> Pcf8574Interface<Conventional> {
    Pcf8574Interface::new(0x27, Conventional::new())
}

fn copy(step: &BusStep) -> BusStep {
    match step {
        BusStep::Write(bytes) => BusStep::Write(bytes.clone()),
        BusStep::DelayUs(us) => BusStep::DelayUs(*us),
    }
}

/// Plays the host: performs every step, and fails the step with index `fail_at`.
fn run(
    mut transfer: Transfer,
    fail_at: Option<usize>,
) -> (Vec<BusStep>, Result<(), InterfaceError>) {
    let mut performed = Vec::new();
    loop {
        let ok = match transfer.poll() {
            Progress::Finished(result) => return (performed, result),
            Progress::Perform(step) => {
                performed.push(copy(step));
                fail_at != Some(performed.len() - 1)
            }
        };
        transfer.report(ok);
    }
}

#[test]
fn bridge_keeps_its_address() {
    assert_eq!(bridge().address(), 0x27);
    assert_eq!(Pcf8574Interface::new(0x3F, Conventional::new()).address(), 0x3F);
}

#[test]
fn init_wakes_three_times_then_switches_to_four_bits() {
    let (steps, result) = run(bridge().init(FnsetLines::Two, FnsetFont::Dots5x8), None);
    assert!(result.is_ok());
    assert_eq!(
        steps,
        vec![
            BusStep::Write(vec![0x3C, 0x38]),
            BusStep::DelayUs(4_100),
            BusStep::Write(vec![0x3C, 0x38]),
            BusStep::DelayUs(100),
            BusStep::Write(vec![0x3C, 0x38]),
            BusStep::Write(vec![0x2C, 0x28]),
            BusStep::Write(vec![0x2C, 0x28, 0x8C, 0x88]),
        ]
    );
}

#[test]
fn init_carries_lines_and_font() {
    let (steps, _) = run(bridge().init(FnsetLines::One, FnsetFont::Dots5x10), None);
    assert_eq!(steps[5], BusStep::Write(vec![0x2C, 0x28]));
    assert_eq!(steps[6], BusStep::Write(vec![0x2C, 0x28, 0x4C, 0x48]));
    let (steps, _) = run(bridge().init(FnsetLines::One, FnsetFont::Dots5x8), None);
    assert_eq!(steps[6], BusStep::Write(vec![0x2C, 0x28, 0x0C, 0x08]));
    let (steps, _) = run(bridge().init(FnsetLines::Two, FnsetFont::Dots5x10), None);
    assert_eq!(steps[6], BusStep::Write(vec![0x2C, 0x28, 0xCC, 0xC8]));
}

#[test]
fn init_stops_at_the_first_failed_write() {
    for fail_at in 0..7usize {
        let (steps, result) =
            run(bridge().init(FnsetLines::Two, FnsetFont::Dots5x8), Some(fail_at));
        assert!(matches!(result, Err(InterfaceError::Pcf8574I2cError)));
        assert_eq!(steps.len(), fail_at + 1);
    }
}

#[test]
fn send_byte_is_one_write_of_a_whole_frame() {
    let (steps, result) = run(bridge().send_byte::<true>(0x41), None);
    assert!(result.is_ok());
    assert_eq!(steps, vec![BusStep::Write(vec![0x4D, 0x49, 0x1D, 0x19])]);
    let (steps, result) = run(bridge().send_byte::<false>(0x01), None);
    assert!(result.is_ok());
    assert_eq!(steps, vec![BusStep::Write(vec![0x0C, 0x08, 0x1C, 0x18])]);
}

#[test]
fn send_byte_reports_a_failed_write() {
    let (steps, result) = run(bridge().send_byte::<true>(0x41), Some(0));
    assert!(matches!(result, Err(InterfaceError::Pcf8574I2cError)));
    assert_eq!(steps.len(), 1);
}

#[test]
fn send_byte_after_init_uses_whole_frames_only() {
    let bridge = bridge();
    let (_, result) = run(bridge.init(FnsetLines::Two, FnsetFont::Dots5x8), None);
    assert!(result.is_ok());
    for byte in [0x00u8, 0x01, 0x38, 0x80, 0xFF] {
        let (steps, _) = run(bridge.send_byte::<false>(byte), None);
        assert_eq!(steps.len(), 1);
        match &steps[0] {
            BusStep::Write(bytes) => assert_eq!(bytes.len(), 4),
            BusStep::DelayUs(_) => panic!("a pause where a frame was due"),
        }
    }
}

#[test]
fn send_bytes_is_one_write_for_each_byte() {
    let (steps, result) = run(bridge().send_bytes::<true>(b"Hi"), None);
    assert!(result.is_ok());
    assert_eq!(
        steps,
        vec![
            BusStep::Write(vec![0x4D, 0x49, 0x8D, 0x89]),
            BusStep::Write(vec![0x6D, 0x69, 0x9D, 0x99]),
        ]
    );
    let (steps, result) = run(bridge().send_bytes::<true>(b""), None);
    assert!(result.is_ok());
    assert!(steps.is_empty());
}

#[test]
fn send_bytes_stops_at_the_first_failed_byte() {
    let (steps, result) = run(bridge().send_bytes::<true>(b"Hello"), Some(2));
    assert!(matches!(result, Err(InterfaceError::Pcf8574I2cError)));
    assert_eq!(steps.len(), 3);
}

#[test]
fn backlight_goes_out_in_an_idle_port_value() {
    let mut bridge = bridge();
    let (steps, result) = run(bridge.backlight(false), None);
    assert!(result.is_ok());
    assert_eq!(steps, vec![BusStep::Write(vec![0x00])]);
    let (steps, _) = run(bridge.backlight(true), None);
    assert_eq!(steps, vec![BusStep::Write(vec![0x08])]);
}

#[test]
fn backlight_is_kept_on_later_frames() {
    let mut bridge = bridge();
    let (steps, _) = run(bridge.send_byte::<false>(0x00), None);
    assert_eq!(steps, vec![BusStep::Write(vec![0x0C, 0x08, 0x0C, 0x08])]);
    let _ = bridge.backlight(false);
    let (steps, _) = run(bridge.send_byte::<false>(0x00), None);
    assert_eq!(steps, vec![BusStep::Write(vec![0x04, 0x00, 0x04, 0x00])]);
    let (steps, _) = run(bridge.init(FnsetLines::Two, FnsetFont::Dots5x8), None);
    assert_eq!(steps[0], BusStep::Write(vec![0x34, 0x30]));
}

#[test]
fn backlight_is_kept_when_its_write_fails() {
    let mut bridge = bridge();
    let (_, result) = run(bridge.backlight(false), Some(0));
    assert!(result.is_err());
    let (steps, _) = run(bridge.send_byte::<false>(0x00), None);
    assert_eq!(steps, vec![BusStep::Write(vec![0x04, 0x00, 0x04, 0x00])]);
}

#[test]
fn receive_byte_is_five_operations_in_order() {
    let operations = bridge().receive_byte::<false>();
    assert_eq!(
        operations,
        vec![
            BusOperation::Write(vec![0xFE]),
            BusOperation::Read,
            BusOperation::Write(vec![0x0A, 0xFE]),
            BusOperation::Read,
            BusOperation::Write(vec![0x0A]),
        ]
    );
    let operations = bridge().receive_byte::<true>();
    assert_eq!(
        operations,
        vec![
            BusOperation::Write(vec![0xFF]),
            BusOperation::Read,
            BusOperation::Write(vec![0x0B, 0xFF]),
            BusOperation::Read,
            BusOperation::Write(vec![0x0B]),
        ]
    );
}

#[test]
fn received_byte_decodes_the_two_samples() {
    let bridge = bridge();
    let mut byte = 0u8;
    assert!(bridge.received_byte(Some([0x8A, 0x3A]), &mut byte).is_ok());
    assert_eq!(byte, 0x83);
    assert!(bridge.received_byte(Some([0x4E, 0x1E]), &mut byte).is_ok());
    assert_eq!(byte, 0x41);
}

#[test]
fn received_byte_leaves_the_byte_when_the_bus_failed() {
    let bridge = bridge();
    let mut byte = 0x5Au8;
    let result = bridge.received_byte(None, &mut byte);
    assert!(matches!(result, Err(InterfaceError::Pcf8574I2cError)));
    assert_eq!(byte, 0x5A);
}

#[test]
fn received_byte_follows_the_wiring() {
    let bridge = Pcf8574Interface::new(
        0x20,
        Pcf8574Encoder::<0x80, 0x40, 0x20, 0x10, 0x02, 0x08, 0x01, 0x04>::new(),
    );
    let mut byte = 0u8;
    assert!(bridge.received_byte(Some([0xFC, 0xF3]), &mut byte).is_ok());
    assert_eq!(byte, 0xA5);
    let operations = bridge.receive_byte::<false>();
    assert_eq!(operations.len(), 5);
    assert_eq!(operations[0], BusOperation::Write(vec![0x7F]));
    assert_eq!(operations[4], BusOperation::Write(vec![0x50]));
}

#[test]
fn finished_transfer_ignores_further_reports() {
    let mut transfer = bridge().send_byte::<true>(0x41);
    transfer.report(true);
    assert!(matches!(transfer.poll(), Progress::Finished(Ok(()))));
    transfer.report(false);
    assert!(matches!(transfer.poll(), Progress::Finished(Ok(()))));
    let mut failed = bridge().send_bytes::<true>(b"ab");
    failed.report(false);
    failed.report(true);
    assert!(matches!(
        failed.poll(),
        Progress::Finished(Err(InterfaceError::Pcf8574I2cError))
    ));
}

#[test]
fn poll_repeats_the_step_until_it_is_reported() {
    let mut transfer = bridge().init(FnsetLines::Two, FnsetFont::Dots5x8);
    assert!(matches!(transfer.poll(), Progress::Perform(BusStep::Write(_))));
    assert!(matches!(transfer.poll(), Progress::Perform(BusStep::Write(_))));
    transfer.report(true);
    assert!(matches!(transfer.poll(), Progress::Perform(BusStep::DelayUs(4_100))));
    assert!(matches!(transfer.poll(), Progress::Perform(BusStep::DelayUs(4_100))));
}
