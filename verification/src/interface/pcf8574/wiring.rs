//! How a byte for the display lies on the eight port bits of the expander.

use vstd::prelude::*;

verus! {

/// The port bit that each of the eight display lines is wired to, each as a mask.
pub struct PinMap {
    pub rs: u8,
    pub rnw: u8,
    pub en: u8,
    pub bl: u8,
    pub d4: u8,
    pub d5: u8,
    pub d6: u8,
    pub d7: u8,
}

/// A mask that selects exactly one of the eight port bits.
pub open spec fn single_bit(mask: u8) -> bool {
    mask == 0x01 || mask == 0x02 || mask == 0x04 || mask == 0x08 || mask == 0x10 || mask == 0x20
        || mask == 0x40 || mask == 0x80
}

impl PinMap {
    /// Every line has a port bit of its own: eight single bits that together cover the byte.
    pub open spec fn valid(self) -> bool {
        &&& single_bit(self.rs)
        &&& single_bit(self.rnw)
        &&& single_bit(self.en)
        &&& single_bit(self.bl)
        &&& single_bit(self.d4)
        &&& single_bit(self.d5)
        &&& single_bit(self.d6)
        &&& single_bit(self.d7)
        &&& (self.rs | self.rnw | self.en | self.bl | self.d4 | self.d5 | self.d6 | self.d7) == 0xff
    }
}

/// The port bits that a line at the given level contributes.
pub open spec fn line(level: bool, mask: u8) -> u8 {
    if level {
        mask
    } else {
        0
    }
}

/// D4..D7 carrying the low four bits of `nibble`.
pub open spec fn data_lines(p: PinMap, nibble: u8) -> u8 {
    line(nibble & 0x01 != 0, p.d4) | line(nibble & 0x02 != 0, p.d5) | line(
        nibble & 0x04 != 0,
        p.d6,
    ) | line(nibble & 0x08 != 0, p.d7)
}

/// RS, RNW and the backlight at the given levels.
pub open spec fn control_lines(p: PinMap, rs: bool, rnw: bool, bl: bool) -> u8 {
    line(rs, p.rs) | line(rnw, p.rnw) | line(bl, p.bl)
}

/// One value of the port: all eight lines at once.
pub open spec fn port_byte(p: PinMap, en: bool, rs: bool, rnw: bool, bl: bool, nibble: u8) -> u8 {
    line(en, p.en) | control_lines(p, rs, rnw, bl) | data_lines(p, nibble)
}

/// The four port values that carry one byte to the display: the high nibble with EN high
/// and then low, the low nibble with EN high and then low. The display latches a nibble on
/// the falling edge of EN.
pub open spec fn bus_frame(p: PinMap, rs: bool, rnw: bool, bl: bool, data: u8) -> Seq<u8> {
    seq![
        port_byte(p, true, rs, rnw, bl, data >> 4),
        port_byte(p, false, rs, rnw, bl, data >> 4),
        port_byte(p, true, rs, rnw, bl, data & 0x0f),
        port_byte(p, false, rs, rnw, bl, data & 0x0f),
    ]
}

/// The low four bits read off D4..D7 in a sample of the port.
pub open spec fn sampled_nibble(p: PinMap, sample: u8) -> u8 {
    line(sample & p.d4 != 0, 0x01) | line(sample & p.d5 != 0, 0x02) | line(
        sample & p.d6 != 0,
        0x04,
    ) | line(sample & p.d7 != 0, 0x08)
}

/// The byte that two samples carry: the high nibble in the first, the low nibble in the
/// second.
pub open spec fn sampled_byte(p: PinMap, high: u8, low: u8) -> u8 {
    (sampled_nibble(p, high) << 4) | sampled_nibble(p, low)
}

/// Decoding inverts encoding. For every valid wiring and every byte, the byte read back
/// from a high-nibble and a low-nibble port value of its frame is the byte itself,
/// whatever RS, RNW and the backlight are, and whether the values are taken with EN high
/// or low.
pub proof fn lemma_decode_inverts_encode(p: PinMap, rs: bool, rnw: bool, bl: bool, data: u8)
    requires
        p.valid(),
    ensures
        sampled_byte(p, bus_frame(p, rs, rnw, bl, data)[0], bus_frame(p, rs, rnw, bl, data)[2])
            == data,
        sampled_byte(p, bus_frame(p, rs, rnw, bl, data)[1], bus_frame(p, rs, rnw, bl, data)[3])
            == data,
        sampled_byte(p, bus_frame(p, rs, rnw, bl, data)[0], bus_frame(p, rs, rnw, bl, data)[3])
            == data,
        sampled_byte(p, bus_frame(p, rs, rnw, bl, data)[1], bus_frame(p, rs, rnw, bl, data)[2])
            == data,
{
    let PinMap { rs: m_rs, rnw: m_rnw, en, bl: m_bl, d4, d5, d6, d7 } = p;
    lemma_frame_round_trip(m_rs, m_rnw, en, m_bl, d4, d5, d6, d7, true, true, rs, rnw, bl, data);
    lemma_frame_round_trip(m_rs, m_rnw, en, m_bl, d4, d5, d6, d7, false, false, rs, rnw, bl, data);
    lemma_frame_round_trip(m_rs, m_rnw, en, m_bl, d4, d5, d6, d7, true, false, rs, rnw, bl, data);
    lemma_frame_round_trip(m_rs, m_rnw, en, m_bl, d4, d5, d6, d7, false, true, rs, rnw, bl, data);
}

/// Each nibble of a frame is strobed. For every valid wiring, the two port values of a
/// nibble differ in the EN bit alone: it is set in the first and clear in the second.
pub proof fn lemma_enable_strobe(p: PinMap, rs: bool, rnw: bool, bl: bool, data: u8)
    requires
        p.valid(),
    ensures
        bus_frame(p, rs, rnw, bl, data)[0] == bus_frame(p, rs, rnw, bl, data)[1] | p.en,
        bus_frame(p, rs, rnw, bl, data)[1] & p.en == 0,
        bus_frame(p, rs, rnw, bl, data)[2] == bus_frame(p, rs, rnw, bl, data)[3] | p.en,
        bus_frame(p, rs, rnw, bl, data)[3] & p.en == 0,
{
    let PinMap { rs: m_rs, rnw: m_rnw, en, bl: m_bl, d4, d5, d6, d7 } = p;
    lemma_strobe(m_rs, m_rnw, en, m_bl, d4, d5, d6, d7, rs, rnw, bl, data >> 4);
    lemma_strobe(m_rs, m_rnw, en, m_bl, d4, d5, d6, d7, rs, rnw, bl, data & 0x0f);
}

/// On a valid wiring a port value gives back the nibble it carries.
pub proof fn lemma_nibble_survives(p: PinMap, en: bool, rs: bool, rnw: bool, bl: bool, nibble: u8)
    requires
        p.valid(),
        nibble < 16,
    ensures
        sampled_nibble(p, port_byte(p, en, rs, rnw, bl, nibble)) == nibble,
{
    let PinMap { rs: m_rs, rnw: m_rnw, en: m_en, bl: m_bl, d4, d5, d6, d7 } = p;
    lemma_nibble_round_trip(m_rs, m_rnw, m_en, m_bl, d4, d5, d6, d7, en, rs, rnw, bl, nibble);
}

/// On a valid wiring the control lines of a port value are at the levels it was made with.
pub proof fn lemma_control_levels(p: PinMap, en: bool, rs: bool, rnw: bool, bl: bool, nibble: u8)
    requires
        p.valid(),
    ensures
        port_byte(p, en, rs, rnw, bl, nibble) & p.en == line(en, p.en),
        port_byte(p, en, rs, rnw, bl, nibble) & p.rs == line(rs, p.rs),
        port_byte(p, en, rs, rnw, bl, nibble) & p.rnw == line(rnw, p.rnw),
        port_byte(p, en, rs, rnw, bl, nibble) & p.bl == line(bl, p.bl),
{
    let PinMap { rs: m_rs, rnw: m_rnw, en: m_en, bl: m_bl, d4, d5, d6, d7 } = p;
    lemma_levels(m_rs, m_rnw, m_en, m_bl, d4, d5, d6, d7, en, rs, rnw, bl, nibble);
}

/// On the wiring with D4..D7 on port bits 4 to 7, a nibble lies on the port as it lies in
/// the upper half of a byte.
pub(crate) proof fn lemma_upper_half_carries_nibble(data: u8)
    by (bit_vector)
    ensures
        data_lines(
            PinMap { rs: 0, rnw: 0, en: 0, bl: 0, d4: 0x10, d5: 0x20, d6: 0x40, d7: 0x80 },
            data >> 4,
        ) == data & 0xf0,
        data_lines(
            PinMap { rs: 0, rnw: 0, en: 0, bl: 0, d4: 0x10, d5: 0x20, d6: 0x40, d7: 0x80 },
            data & 0x0f,
        ) == (data & 0x0f) << 4,
{
}

/// On the wiring with D4..D7 on port bits 4 to 7, two samples carry the byte made of their
/// upper halves.
pub(crate) proof fn lemma_upper_half_samples(high: u8, low: u8)
    by (bit_vector)
    ensures
        sampled_byte(
            PinMap { rs: 0, rnw: 0, en: 0, bl: 0, d4: 0x10, d5: 0x20, d6: 0x40, d7: 0x80 },
            high,
            low,
        ) == (high & 0xf0) | ((low & 0xf0) >> 4),
{
}

/// Bit `i` of a nibble of `data` is bit `i` or bit `i + 4` of `data`.
pub(crate) proof fn lemma_nibble_bits(data: u8)
    by (bit_vector)
    ensures
        ((data >> 4) & 0x01 != 0) == (data & 0x10 != 0),
        ((data >> 4) & 0x02 != 0) == (data & 0x20 != 0),
        ((data >> 4) & 0x04 != 0) == (data & 0x40 != 0),
        ((data >> 4) & 0x08 != 0) == (data & 0x80 != 0),
        ((data & 0x0f) & 0x01 != 0) == (data & 0x01 != 0),
        ((data & 0x0f) & 0x02 != 0) == (data & 0x02 != 0),
        ((data & 0x0f) & 0x04 != 0) == (data & 0x04 != 0),
        ((data & 0x0f) & 0x08 != 0) == (data & 0x08 != 0),
{
}

/// A port value with EN low is its control and data lines and nothing more.
pub(crate) proof fn lemma_enable_low(control: u8, data: u8)
    by (bit_vector)
    ensures
        0u8 | control | data == control | data,
{
}

proof fn lemma_frame_round_trip(
    rs: u8,
    rnw: u8,
    en: u8,
    bl: u8,
    d4: u8,
    d5: u8,
    d6: u8,
    d7: u8,
    en_high: bool,
    en_low: bool,
    rs_on: bool,
    rnw_on: bool,
    bl_on: bool,
    data: u8,
)
    by (bit_vector)
    requires
        (PinMap { rs, rnw, en, bl, d4, d5, d6, d7 }).valid(),
    ensures
        sampled_byte(
            PinMap { rs, rnw, en, bl, d4, d5, d6, d7 },
            port_byte(
                PinMap { rs, rnw, en, bl, d4, d5, d6, d7 },
                en_high,
                rs_on,
                rnw_on,
                bl_on,
                data >> 4,
            ),
            port_byte(
                PinMap { rs, rnw, en, bl, d4, d5, d6, d7 },
                en_low,
                rs_on,
                rnw_on,
                bl_on,
                data & 0x0f,
            ),
        ) == data,
{
}

proof fn lemma_strobe(
    rs: u8,
    rnw: u8,
    en: u8,
    bl: u8,
    d4: u8,
    d5: u8,
    d6: u8,
    d7: u8,
    rs_on: bool,
    rnw_on: bool,
    bl_on: bool,
    nibble: u8,
)
    by (bit_vector)
    requires
        (PinMap { rs, rnw, en, bl, d4, d5, d6, d7 }).valid(),
    ensures
        port_byte(PinMap { rs, rnw, en, bl, d4, d5, d6, d7 }, true, rs_on, rnw_on, bl_on, nibble)
            == port_byte(
            PinMap { rs, rnw, en, bl, d4, d5, d6, d7 },
            false,
            rs_on,
            rnw_on,
            bl_on,
            nibble,
        ) | en,
        port_byte(PinMap { rs, rnw, en, bl, d4, d5, d6, d7 }, false, rs_on, rnw_on, bl_on, nibble)
            & en == 0,
{
}

proof fn lemma_nibble_round_trip(
    rs: u8,
    rnw: u8,
    en: u8,
    bl: u8,
    d4: u8,
    d5: u8,
    d6: u8,
    d7: u8,
    en_on: bool,
    rs_on: bool,
    rnw_on: bool,
    bl_on: bool,
    nibble: u8,
)
    by (bit_vector)
    requires
        (PinMap { rs, rnw, en, bl, d4, d5, d6, d7 }).valid(),
        nibble < 16,
    ensures
        sampled_nibble(
            PinMap { rs, rnw, en, bl, d4, d5, d6, d7 },
            port_byte(
                PinMap { rs, rnw, en, bl, d4, d5, d6, d7 },
                en_on,
                rs_on,
                rnw_on,
                bl_on,
                nibble,
            ),
        ) == nibble,
{
}

proof fn lemma_levels(
    rs: u8,
    rnw: u8,
    en: u8,
    bl: u8,
    d4: u8,
    d5: u8,
    d6: u8,
    d7: u8,
    en_on: bool,
    rs_on: bool,
    rnw_on: bool,
    bl_on: bool,
    nibble: u8,
)
    by (bit_vector)
    requires
        (PinMap { rs, rnw, en, bl, d4, d5, d6, d7 }).valid(),
    ensures
        port_byte(PinMap { rs, rnw, en, bl, d4, d5, d6, d7 }, en_on, rs_on, rnw_on, bl_on, nibble)
            & en == line(en_on, en),
        port_byte(PinMap { rs, rnw, en, bl, d4, d5, d6, d7 }, en_on, rs_on, rnw_on, bl_on, nibble)
            & rs == line(rs_on, rs),
        port_byte(PinMap { rs, rnw, en, bl, d4, d5, d6, d7 }, en_on, rs_on, rnw_on, bl_on, nibble)
            & rnw == line(rnw_on, rnw),
        port_byte(PinMap { rs, rnw, en, bl, d4, d5, d6, d7 }, en_on, rs_on, rnw_on, bl_on, nibble)
            & bl == line(bl_on, bl),
{
}

} // verus!
