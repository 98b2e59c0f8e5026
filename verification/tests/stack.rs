use hd44780_pcf8574::characters::CustomFont5x8;
use hd44780_pcf8574::instructions::{
    DpBlink, DpCursor, DpState, EntryAds, EntryDir, FnsetFont, FnsetLines,
};
use hd44780_pcf8574::interface::pcf8574::{
    BusOperation, BusStep, Pcf8574Encoder, Pcf8574EncoderDefault, Pcf8574EncoderTrait,
    Pcf8574Interface, Progress, Transfer,
};
use hd44780_pcf8574::interface::{InterfaceError, InterfaceTrait, Trace};
use hd44780_pcf8574::types::DisplayTypeFont5x8;
use hd44780_pcf8574::Hd44780;
use std::cell::RefCell;
use std::rc::Rc;

/// The wiring of a module, as the masks of its eight lines.
#[derive(Clone, Copy)]
struct Wiring {
    rs: u8,
    rnw: u8,
    en: u8,
    bl: u8,
    data: [u8; 4],
}

const USUAL: Wiring = Wiring {
    rs: 0x01,
    rnw: 0x02,
    en: 0x04,
    bl: 0x08,
    data: [0x10, 0x20, 0x40, 0x80],
};

const CROSSED: Wiring = Wiring {
    rs: 0x80,
    rnw: 0x40,
    en: 0x20,
    bl: 0x10,
    data: [0x02, 0x08, 0x01, 0x04],
};

#[derive(Debug, PartialEq)]
enum Seen {
    Instruction(u8),
    Data(u8),
    Pause(u32),
}

/// A controller behind an expander, as far as the bus can tell: it latches a nibble on
/// each falling edge of EN, takes nibbles for whole instructions until it is told to
/// pair them up, and puts its answer on the data lines while EN and RNW are high.
struct Module {
    wiring: Wiring,
    port: u8,
    four_bit: bool,
    high: Option<u8>,
    second_nibble: bool,
    seen: Vec<Seen>,
    status: u8,
    memory: Vec<u8>,
    backlight: bool,
}

impl Module {
    fn new(wiring: Wiring, status: u8, memory: &[u8]) -> Module {
        let mut memory = memory.to_vec();
        memory.reverse();
        Module {
            wiring,
            port: 0xFF,
            four_bit: false,
            high: None,
            second_nibble: false,
            seen: Vec::new(),
            status,
            memory,
            backlight: true,
        }
    }

    fn nibble_on(&self, port: u8) -> u8 {
        let mut nibble = 0;
        for (bit, mask) in self.wiring.data.iter().enumerate() {
            if port & mask != 0 {
                nibble |= 1 << bit;
            }
        }
        nibble
    }

    fn write(&mut self, value: u8) {
        let falling = self.port & self.wiring.en != 0 && value & self.wiring.en == 0;
        if falling && self.port & self.wiring.rnw == 0 {
            let nibble = self.nibble_on(self.port);
            let data = self.port & self.wiring.rs != 0;
            if !self.four_bit {
                let instruction = nibble << 4;
                self.seen.push(Seen::Instruction(instruction));
                if instruction == 0x20 {
                    self.four_bit = true;
                }
            } else {
                match self.high.take() {
                    None => self.high = Some(nibble),
                    Some(high) => {
                        let byte = (high << 4) | nibble;
                        self.seen.push(if data {
                            Seen::Data(byte)
                        } else {
                            Seen::Instruction(byte)
                        });
                    }
                }
            }
        }
        if falling && self.port & self.wiring.rnw != 0 {
            if self.second_nibble && self.port & self.wiring.rs != 0 {
                self.memory.pop();
            }
            self.second_nibble = !self.second_nibble;
        }
        self.backlight = value & self.wiring.bl != 0;
        self.port = value;
    }

    fn read(&self) -> u8 {
        let answering = self.port & self.wiring.en != 0 && self.port & self.wiring.rnw != 0;
        if !answering {
            return self.port;
        }
        let byte = if self.port & self.wiring.rs != 0 {
            self.memory.last().copied().unwrap_or(0)
        } else {
            self.status
        };
        let nibble = if self.second_nibble { byte & 0x0F } else { byte >> 4 };
        let mut sample = self.port;
        for (bit, mask) in self.wiring.data.iter().enumerate() {
            if nibble & (1 << bit) == 0 {
                sample &= !mask;
            }
        }
        sample
    }
}

/// The protocol joined to a module in place of a bus.
struct Port<ENC: Pcf8574EncoderTrait> {
    protocol: Pcf8574Interface<ENC>,
    module: Rc<RefCell<Module>>,
}

impl<ENC: Pcf8574EncoderTrait> Port<ENC> {
    fn run(&mut self, mut transfer: Transfer) -> Result<(), InterfaceError> {
        loop {
            match transfer.poll() {
                Progress::Finished(result) => return result,
                Progress::Perform(BusStep::Write(bytes)) => {
                    for byte in bytes {
                        self.module.borrow_mut().write(*byte);
                    }
                }
                Progress::Perform(BusStep::DelayUs(us)) => {
                    self.module.borrow_mut().seen.push(Seen::Pause(*us));
                }
            }
            transfer.report(true);
        }
    }
}

impl<ENC: Pcf8574EncoderTrait> InterfaceTrait for Port<ENC> {
    fn trace(&self) -> Trace {
        unreachable!()
    }

    fn init(&mut self, lines: FnsetLines, font: FnsetFont) -> Result<(), InterfaceError> {
        let transfer = self.protocol.init(lines, font);
        self.run(transfer)
    }

    fn send_byte<const RS_VAL: bool>(&mut self, byte: u8) -> Result<(), InterfaceError> {
        let transfer = self.protocol.send_byte::<RS_VAL>(byte);
        self.run(transfer)
    }

    fn receive_byte<const RS_VAL: bool>(&mut self, byte: &mut u8) -> Result<(), InterfaceError> {
        let mut samples = Vec::new();
        for operation in self.protocol.receive_byte::<RS_VAL>() {
            match operation {
                BusOperation::Write(bytes) => {
                    for byte in bytes {
                        self.module.borrow_mut().write(byte);
                    }
                }
                BusOperation::Read => samples.push(self.module.borrow().read()),
            }
        }
        assert_eq!(samples.len(), 2);
        self.protocol.received_byte(Some([samples[0], samples[1]]), byte)
    }

    fn delay_us(&mut self, us: u32) {
        self.module.borrow_mut().seen.push(Seen::Pause(us));
    }

    fn backlight(&mut self, bl: bool) -> Result<(), InterfaceError> {
        let transfer = self.protocol.backlight(bl);
        self.run(transfer)
    }
}

type Lcd<ENC> = Hd44780<Port<ENC>, DisplayTypeFont5x8>;

fn lcd_on<ENC: Pcf8574EncoderTrait>(
    enc: ENC,
    wiring: Wiring,
    status: u8,
    memory: &[u8],
) -> (Lcd<ENC>, Rc<RefCell<Module>>) {
    let module = Rc::new(RefCell::new(Module::new(wiring, status, memory)));
    let port = Port { protocol: Pcf8574Interface::new(0x27, enc), module: module.clone() };
    (Hd44780::new(port, DisplayTypeFont5x8::new(2, 16, FnsetLines::Two)), module)
}

fn usual(status: u8, memory: &[u8]) -> (
    Lcd<Pcf8574EncoderDefault<0x01, 0x02, 0x04, 0x08>>,
    Rc<RefCell<Module>>,
) {
    lcd_on(Pcf8574EncoderDefault::<0x01, 0x02, 0x04, 0x08>::new(), USUAL, status, memory)
}

fn crossed(status: u8, memory: &[u8]) -> (
    Lcd<Pcf8574Encoder<0x80, 0x40, 0x20, 0x10, 0x02, 0x08, 0x01, 0x04>>,
    Rc<RefCell<Module>>,
) {
    lcd_on(
        Pcf8574Encoder::<0x80, 0x40, 0x20, 0x10, 0x02, 0x08, 0x01, 0x04>::new(),
        CROSSED,
        status,
        memory,
    )
}

fn start_up() -> Vec<Seen> {
    vec![
        Seen::Instruction(0x30),
        Seen::Pause(4_100),
        Seen::Instruction(0x30),
        Seen::Pause(100),
        Seen::Instruction(0x30),
        Seen::Instruction(0x20),
        Seen::Instruction(0x28),
        Seen::Instruction(0x0C),
        Seen::Instruction(0x01),
        Seen::Pause(1_520),
    ]
}

#[test]
fn controller_sees_the_handshake_and_ends_on_a_four_bit_bus() {
    let (mut lcd, module) = usual(0, &[]);
    assert!(lcd.init().is_ok());
    assert_eq!(module.borrow().seen, start_up());
    assert!(module.borrow().four_bit);
    assert!(module.borrow().high.is_none());
}

#[test]
fn controller_sees_the_handshake_on_a_crossed_wiring() {
    let (mut lcd, module) = crossed(0, &[]);
    assert!(lcd.init().is_ok());
    assert_eq!(module.borrow().seen, start_up());
    assert!(module.borrow().four_bit);
}

#[test]
fn controller_sees_commands_and_text_after_the_handshake() {
    let (mut lcd, module) = usual(0, &[]);
    assert!(lcd.init().is_ok());
    module.borrow_mut().seen.clear();
    assert!(lcd.entry(EntryDir::Inc, EntryAds::Off).is_ok());
    assert!(lcd.display(DpState::On, DpCursor::On, DpBlink::Off).is_ok());
    assert!(lcd.position(1, 3).is_ok());
    assert!(lcd.print_string("Hi").is_ok());
    assert!(lcd.home().is_ok());
    assert_eq!(
        module.borrow().seen,
        vec![
            Seen::Instruction(0x06),
            Seen::Instruction(0x0E),
            Seen::Instruction(0xC3),
            Seen::Data(0x48),
            Seen::Data(0x69),
            Seen::Instruction(0x02),
            Seen::Pause(1_520),
        ]
    );
}

#[test]
fn controller_sees_every_byte_value_as_it_was_sent() {
    let (mut lcd, module) = crossed(0, &[]);
    assert!(lcd.init().is_ok());
    module.borrow_mut().seen.clear();
    let all: Vec<u8> = (0..=255u8).collect();
    let mut glyph = [0u8; 8];
    for chunk in all.chunks(8) {
        glyph.copy_from_slice(chunk);
        assert!(lcd.create_char(CustomFont5x8::Char2, glyph).is_ok());
    }
    let seen = &module.borrow().seen;
    assert_eq!(seen.len(), 32 * 9);
    for (i, chunk) in seen.chunks(9).enumerate() {
        assert_eq!(chunk[0], Seen::Instruction(0x42));
        for (j, item) in chunk[1..].iter().enumerate() {
            assert_eq!(*item, Seen::Data((i * 8 + j) as u8));
        }
    }
}

#[test]
fn status_read_brings_busy_flag_and_address_counter() {
    let (mut lcd, module) = usual(0x93, &[]);
    assert!(lcd.init().is_ok());
    module.borrow_mut().seen.clear();
    assert!(matches!(lcd.is_busy(), Ok(true)));
    assert!(matches!(lcd.read_address_counter(), Ok(0x13)));
    module.borrow_mut().status = 0x27;
    assert!(matches!(lcd.is_busy(), Ok(false)));
    assert!(matches!(lcd.read_address_counter(), Ok(0x27)));
    assert!(module.borrow().seen.is_empty());
    assert!(!module.borrow().second_nibble);
}

#[test]
fn status_read_works_on_a_crossed_wiring() {
    for status in [0x00u8, 0x13, 0x80, 0xA5, 0x5A, 0xFF] {
        let (mut lcd, _) = crossed(status, &[]);
        assert!(lcd.init().is_ok());
        assert!(matches!(lcd.is_busy(), Ok(busy) if busy == (status >= 0x80)));
        assert!(matches!(lcd.read_address_counter(), Ok(counter) if counter == status & 0x7F));
    }
}

#[test]
fn data_read_brings_the_memory_in_order() {
    let (mut lcd, module) = usual(0, &[0x41, 0xB2, 0x00, 0xFF]);
    assert!(lcd.init().is_ok());
    module.borrow_mut().seen.clear();
    let mut buffer = [0x55u8; 4];
    assert!(lcd.read_data(&mut buffer).is_ok());
    assert_eq!(buffer, [0x41, 0xB2, 0x00, 0xFF]);
    assert!(module.borrow().seen.is_empty());
    assert!(module.borrow().memory.is_empty());
}

#[test]
fn reading_leaves_the_bus_ready_for_writing() {
    let (mut lcd, module) = usual(0x80, &[0x41]);
    assert!(lcd.init().is_ok());
    module.borrow_mut().seen.clear();
    let mut buffer = [0u8; 1];
    assert!(lcd.is_busy().is_ok());
    assert!(lcd.read_data(&mut buffer).is_ok());
    assert!(lcd.print_string("A").is_ok());
    assert_eq!(module.borrow().seen, vec![Seen::Data(0x41)]);
    assert_eq!(module.borrow().port & USUAL.en, 0);
}

#[test]
fn backlight_switches_without_a_strobe() {
    let (mut lcd, module) = usual(0, &[]);
    assert!(lcd.init().is_ok());
    assert!(module.borrow().backlight);
    module.borrow_mut().seen.clear();
    assert!(lcd.backlight(false).is_ok());
    assert!(!module.borrow().backlight);
    assert!(module.borrow().seen.is_empty());
    assert!(lcd.print_string("x").is_ok());
    assert!(!module.borrow().backlight);
    assert_eq!(module.borrow().seen, vec![Seen::Data(0x78)]);
    assert!(lcd.backlight(true).is_ok());
    assert!(module.borrow().backlight);
    assert!(lcd.is_busy().is_ok());
    assert!(module.borrow().backlight);
}
