use hd44780_pcf8574::interface::pcf8574::{
    Pcf8574Encoder, Pcf8574EncoderDefault, Pcf8574EncoderTrait,
};

type Conventional = Pcf8574EncoderDefault<0x01, 0x02, 0x04, 0x08>;
type Straight = Pcf8574Encoder<0x01, 0x02, 0x04, 0x08, 0x10, 0x20, 0x40, 0x80>;
type Crossed = Pcf8574Encoder<0x80, 0x40, 0x20, 0x10, 0x02, 0x08, 0x01, 0x04>;

const EN: u8 = 0x04;

#[test]
fn conventional_encoder_frames_0xa5() {
    let enc = Conventional::new();
    let frame = enc.encode::<false, false>(false, 0xA5);
    assert_eq!(frame, [0xA0 + EN, 0xA0, 0x50 + EN, 0x50]);
    assert_eq!(frame, [0xA4, 0xA0, 0x54, 0x50]);
}

#[test]
fn conventional_encoder_sets_control_lines() {
    let enc = Conventional::new();
    assert_eq!(enc.encode::<true, false>(false, 0x00), [0x05, 0x01, 0x05, 0x01]);
    assert_eq!(enc.encode::<false, true>(false, 0x00), [0x06, 0x02, 0x06, 0x02]);
    assert_eq!(enc.encode::<false, false>(true, 0x00), [0x0C, 0x08, 0x0C, 0x08]);
    assert_eq!(enc.encode::<true, true>(true, 0xFF), [0xFF, 0xFB, 0xFF, 0xFB]);
}

#[test]
fn custom_encoder_agrees_with_conventional_on_the_usual_wiring() {
    let straight = Straight::new();
    let conventional = Conventional::new();
    for d in 0..=255u8 {
        for bl in [false, true] {
            assert_eq!(
                straight.encode::<false, false>(bl, d),
                conventional.encode::<false, false>(bl, d)
            );
            assert_eq!(
                straight.encode::<true, false>(bl, d),
                conventional.encode::<true, false>(bl, d)
            );
            assert_eq!(
                straight.encode::<false, true>(bl, d),
                conventional.encode::<false, true>(bl, d)
            );
            assert_eq!(
                straight.encode::<true, true>(bl, d),
                conventional.encode::<true, true>(bl, d)
            );
        }
    }
    for a in 0..=255u8 {
        for b in [0x00u8, 0x0F, 0x35, 0x80, 0xA5, 0xF0, 0xFF] {
            assert_eq!(straight.decode_data([a, b]), conventional.decode_data([a, b]));
            assert_eq!(straight.decode_data([b, a]), conventional.decode_data([b, a]));
        }
    }
}

#[test]
fn custom_encoder_places_each_line_on_its_bit() {
    let enc = Crossed::new();
    // RS on bit 7, backlight on bit 4, EN on bit 5; 0xA = 0b1010 puts D5 (bit 3) and
    // D7 (bit 2) high, 0x5 = 0b0101 puts D4 (bit 1) and D6 (bit 0) high.
    assert_eq!(enc.encode::<true, false>(true, 0xA5), [0xBC, 0x9C, 0xB3, 0x93]);
    assert_eq!(enc.encode::<false, true>(false, 0x00), [0x60, 0x40, 0x60, 0x40]);
}

fn round_trips<E: Pcf8574EncoderTrait>(enc: &E) {
    for d in 0..=255u8 {
        for bl in [false, true] {
            let frames = [
                enc.encode::<false, false>(bl, d),
                enc.encode::<true, false>(bl, d),
                enc.encode::<false, true>(bl, d),
                enc.encode::<true, true>(bl, d),
            ];
            for frame in frames {
                assert_eq!(enc.decode_data([frame[0], frame[2]]), d);
                assert_eq!(enc.decode_data([frame[1], frame[3]]), d);
            }
        }
    }
}

#[test]
fn decoding_inverts_encoding_for_every_byte() {
    round_trips(&Conventional::new());
    round_trips(&Straight::new());
    round_trips(&Crossed::new());
}

fn strobes<E: Pcf8574EncoderTrait>(enc: &E, en: u8) {
    for d in 0..=255u8 {
        for bl in [false, true] {
            let frames = [
                enc.encode::<false, false>(bl, d),
                enc.encode::<true, false>(bl, d),
                enc.encode::<false, true>(bl, d),
                enc.encode::<true, true>(bl, d),
            ];
            for frame in frames {
                assert_eq!(frame[0], frame[1] | en);
                assert_eq!(frame[1] & en, 0);
                assert_eq!(frame[2], frame[3] | en);
                assert_eq!(frame[3] & en, 0);
            }
        }
    }
}

#[test]
fn each_nibble_is_strobed_by_enable_alone() {
    strobes(&Conventional::new(), 0x04);
    strobes(&Straight::new(), 0x04);
    strobes(&Crossed::new(), 0x20);
}

#[test]
fn decode_takes_high_nibble_from_first_sample() {
    let enc = Conventional::new();
    assert_eq!(enc.decode_data([0xA0, 0x50]), 0xA5);
    assert_eq!(enc.decode_data([0xAF, 0x5F]), 0xA5);
    assert_eq!(enc.decode_data([0x00, 0xF0]), 0x0F);
    assert_eq!(enc.decode_data([0xF0, 0x00]), 0xF0);
    let crossed = Crossed::new();
    assert_eq!(crossed.decode_data([0x0C, 0x03]), 0xA5);
    assert_eq!(crossed.decode_data([0xFC, 0xF3]), 0xA5);
}

#[test]
fn decoded_status_byte_carries_busy_flag_and_address_counter() {
    let enc = Conventional::new();
    let status = enc.decode_data([0x8A, 0x3A]);
    assert_eq!(status, 0x83);
    assert!(hd44780_pcf8574::instructions::busy_flag(status));
    assert_eq!(hd44780_pcf8574::instructions::address_counter(status), 0x03);
    let idle = enc.decode_data([0x4E, 0x7E]);
    assert_eq!(idle, 0x47);
    assert!(!hd44780_pcf8574::instructions::busy_flag(idle));
    assert_eq!(hd44780_pcf8574::instructions::address_counter(idle), 0x47);
}
