//! Register map of the sensor: one type per register group, with its address
//! range and the exact bit layout of every field.
//!
//! Layout convention follows the datasheet: bit 0 is the least-significant bit
//! of the byte at the lowest address, and multi-byte coefficients are stored
//! little-endian unless a getter documents otherwise.
use vstd::prelude::*;

verus! {

/// A register group and its address range on the device.
///
/// Invariant (proved once per implementor): the end address is never below
/// the start address, so every group has a positive size.
pub trait RegAddr {
    spec fn spec_start_addr() -> u8;

    spec fn spec_end_addr() -> u8;

    proof fn addr_range_wf()
        ensures
            Self::spec_start_addr() <= Self::spec_end_addr(),
    ;

    fn start_addr() -> (r: u8)
        ensures
            r == Self::spec_start_addr(),
    ;

    fn end_addr() -> (r: u8)
        ensures
            r == Self::spec_end_addr(),
    ;
}

/// Size in bytes of a register group, derived from its address range.
pub trait RegSize {
    spec fn spec_reg_size() -> usize;

    fn reg_size() -> (r: usize)
        ensures
            r == Self::spec_reg_size(),
    ;
}

impl<T: RegAddr> RegSize for T {
    open spec fn spec_reg_size() -> usize {
        (T::spec_end_addr() - T::spec_start_addr() + 1) as usize
    }

    fn reg_size() -> (r: usize) {
        proof {
            T::addr_range_wf();
        }
        let s: u8 = T::start_addr();
        let e: u8 = T::end_addr();
        (e as usize) - (s as usize) + 1
    }
}

/// The unsigned 16-bit value stored little-endian in two bytes.
pub open spec fn u16_from_le(lo: u8, hi: u8) -> u16 {
    (lo + 256 * hi) as u16
}

/// Two's-complement reading of a full 16-bit value.
pub open spec fn as_i16(v: u16) -> i16 {
    if v >= 0x8000 {
        (v - 0x1_0000) as i16
    } else {
        v as i16
    }
}

/// The signed 16-bit value stored little-endian in two bytes.
pub open spec fn i16_from_le(lo: u8, hi: u8) -> i16 {
    as_i16(u16_from_le(lo, hi))
}

/// Two's-complement reading of a 12-bit field widened to 16 bits.
pub open spec fn sign_extend_12(v: u16) -> i16 {
    if v >= 0x800 {
        (v - 0x1000) as i16
    } else {
        v as i16
    }
}

/// Two's-complement reading of a full 8-bit value.
pub open spec fn as_i8(v: u8) -> i8 {
    if v >= 0x80 {
        (v - 0x100) as i8
    } else {
        v as i8
    }
}

/// Reads a signed little-endian 16-bit coefficient out of a byte block.
fn read_i16_le(lo: u8, hi: u8) -> (r: i16)
    ensures
        r == i16_from_le(lo, hi),
{
    let v: u16 = (lo as u16) + (hi as u16) * 256;
    if v >= 0x8000 {
        ((v as i32) - 0x1_0000) as i16
    } else {
        v as i16
    }
}

/// Calibration block 1: temperature and pressure coefficients plus `dig_h1`,
/// 26 bytes starting at 0x88.
pub struct Calib00_25(pub [u8; 26]);

impl RegAddr for Calib00_25 {
    open spec fn spec_start_addr() -> u8 {
        0x88
    }

    open spec fn spec_end_addr() -> u8 {
        0xA1
    }

    proof fn addr_range_wf() {
    }

    fn start_addr() -> (r: u8) {
        0x88
    }

    fn end_addr() -> (r: u8) {
        0xA1
    }
}

impl Calib00_25 {
    pub open spec fn spec_dig_t1(&self) -> u16 {
        u16_from_le(self.0[0], self.0[1])
    }

    pub open spec fn spec_dig_t2(&self) -> i16 {
        i16_from_le(self.0[2], self.0[3])
    }

    pub open spec fn spec_dig_t3(&self) -> i16 {
        i16_from_le(self.0[4], self.0[5])
    }

    pub open spec fn spec_dig_p1(&self) -> u16 {
        u16_from_le(self.0[6], self.0[7])
    }

    pub open spec fn spec_dig_p2(&self) -> i16 {
        i16_from_le(self.0[8], self.0[9])
    }

    pub open spec fn spec_dig_p3(&self) -> i16 {
        i16_from_le(self.0[10], self.0[11])
    }

    pub open spec fn spec_dig_p4(&self) -> i16 {
        i16_from_le(self.0[12], self.0[13])
    }

    pub open spec fn spec_dig_p5(&self) -> i16 {
        i16_from_le(self.0[14], self.0[15])
    }

    pub open spec fn spec_dig_p6(&self) -> i16 {
        i16_from_le(self.0[16], self.0[17])
    }

    pub open spec fn spec_dig_p7(&self) -> i16 {
        i16_from_le(self.0[18], self.0[19])
    }

    pub open spec fn spec_dig_p8(&self) -> i16 {
        i16_from_le(self.0[20], self.0[21])
    }

    pub open spec fn spec_dig_p9(&self) -> i16 {
        i16_from_le(self.0[22], self.0[23])
    }

    /// `dig_h1` sits in the last byte of the block, one byte further right
    /// than the 16-bit stride of the other coefficients would suggest; this
    /// shifted alignment is a documented quirk of the device, kept as is.
    pub open spec fn spec_dig_h1(&self) -> u8 {
        self.0[25]
    }

    pub fn get_dig_t1(&self) -> (r: u16)
        ensures
            r == self.spec_dig_t1(),
    {
        (self.0[0] as u16) + (self.0[1] as u16) * 256
    }

    pub fn get_dig_t2(&self) -> (r: i16)
        ensures
            r == self.spec_dig_t2(),
    {
        read_i16_le(self.0[2], self.0[3])
    }

    pub fn get_dig_t3(&self) -> (r: i16)
        ensures
            r == self.spec_dig_t3(),
    {
        read_i16_le(self.0[4], self.0[5])
    }

    pub fn get_dig_p1(&self) -> (r: u16)
        ensures
            r == self.spec_dig_p1(),
    {
        (self.0[6] as u16) + (self.0[7] as u16) * 256
    }

    pub fn get_dig_p2(&self) -> (r: i16)
        ensures
            r == self.spec_dig_p2(),
    {
        read_i16_le(self.0[8], self.0[9])
    }

    pub fn get_dig_p3(&self) -> (r: i16)
        ensures
            r == self.spec_dig_p3(),
    {
        read_i16_le(self.0[10], self.0[11])
    }

    pub fn get_dig_p4(&self) -> (r: i16)
        ensures
            r == self.spec_dig_p4(),
    {
        read_i16_le(self.0[12], self.0[13])
    }

    pub fn get_dig_p5(&self) -> (r: i16)
        ensures
            r == self.spec_dig_p5(),
    {
        read_i16_le(self.0[14], self.0[15])
    }

    pub fn get_dig_p6(&self) -> (r: i16)
        ensures
            r == self.spec_dig_p6(),
    {
        read_i16_le(self.0[16], self.0[17])
    }

    pub fn get_dig_p7(&self) -> (r: i16)
        ensures
            r == self.spec_dig_p7(),
    {
        read_i16_le(self.0[18], self.0[19])
    }

    pub fn get_dig_p8(&self) -> (r: i16)
        ensures
            r == self.spec_dig_p8(),
    {
        read_i16_le(self.0[20], self.0[21])
    }

    pub fn get_dig_p9(&self) -> (r: i16)
        ensures
            r == self.spec_dig_p9(),
    {
        read_i16_le(self.0[22], self.0[23])
    }

    pub fn get_dig_h1(&self) -> (r: u8)
        ensures
            r == self.spec_dig_h1(),
    {
        self.0[25]
    }
}

/// Calibration block 2: the remaining humidity coefficients, 16 bytes
/// starting at 0xE1.
pub struct Calib26_41(pub [u8; 16]);

impl RegAddr for Calib26_41 {
    open spec fn spec_start_addr() -> u8 {
        0xE1
    }

    open spec fn spec_end_addr() -> u8 {
        0xF0
    }

    proof fn addr_range_wf() {
    }

    fn start_addr() -> (r: u8) {
        0xE1
    }

    fn end_addr() -> (r: u8) {
        0xF0
    }
}

impl Calib26_41 {
    pub open spec fn spec_dig_h2(&self) -> i16 {
        i16_from_le(self.0[0], self.0[1])
    }

    pub open spec fn spec_dig_h3(&self) -> u8 {
        self.0[2]
    }

    /// `dig_h4` is a 12-bit coefficient split across two bytes in an order of
    /// its own: byte 3 carries the high eight bits and the low nibble of byte
    /// 4 carries the low four. The value is assembled without sign extension.
    pub open spec fn spec_dig_h4(&self) -> i16 {
        (self.0[3] * 16 + self.0[4] % 16) as i16
    }

    /// `dig_h5` is a 12-bit coefficient: the high nibble of byte 4 carries
    /// the low four bits and byte 5 the high eight, read in two's complement.
    pub open spec fn spec_dig_h5(&self) -> i16 {
        sign_extend_12((self.0[4] / 16 + self.0[5] * 16) as u16)
    }

    pub open spec fn spec_dig_h6(&self) -> i8 {
        as_i8(self.0[6])
    }

    pub fn get_dig_h2(&self) -> (r: i16)
        ensures
            r == self.spec_dig_h2(),
    {
        read_i16_le(self.0[0], self.0[1])
    }

    pub fn get_dig_h3(&self) -> (r: u8)
        ensures
            r == self.spec_dig_h3(),
    {
        self.0[2]
    }

    /// Decoded by explicit shift and mask rather than the generic little-
    /// endian 16-bit reader: the byte order of this field does not match.
    pub fn get_dig_h4(&self) -> (r: i16)
        ensures
            r == self.spec_dig_h4(),
    {
        (self.0[3] as i16) * 16 + (self.0[4] % 16) as i16
    }

    pub fn get_dig_h5(&self) -> (r: i16)
        ensures
            r == self.spec_dig_h5(),
    {
        let v: u16 = (self.0[4] / 16) as u16 + (self.0[5] as u16) * 16;
        if v >= 0x800 {
            ((v as i32) - 0x1000) as i16
        } else {
            v as i16
        }
    }

    pub fn get_dig_h6(&self) -> (r: i8)
        ensures
            r == self.spec_dig_h6(),
    {
        let v: u8 = self.0[6];
        if v >= 0x80 {
            ((v as i16) - 0x100) as i8
        } else {
            v as i8
        }
    }
}

/// Chip identity register.
pub struct Id(pub u8);

impl RegAddr for Id {
    open spec fn spec_start_addr() -> u8 {
        0xD0
    }

    open spec fn spec_end_addr() -> u8 {
        0xD0
    }

    proof fn addr_range_wf() {
    }

    fn start_addr() -> (r: u8) {
        0xD0
    }

    fn end_addr() -> (r: u8) {
        0xD0
    }
}

impl Id {
    /// The identity byte every genuine device reports.
    pub const BME280_STANDARD_ID: u8 = 0x60;

    pub fn get_id(&self) -> (r: u8)
        ensures
            r == self.0,
    {
        self.0
    }
}

/// Soft-reset register: writing the reset byte reboots the device.
pub struct Reset(pub u8);

impl RegAddr for Reset {
    open spec fn spec_start_addr() -> u8 {
        0xE0
    }

    open spec fn spec_end_addr() -> u8 {
        0xE0
    }

    proof fn addr_range_wf() {
    }

    fn start_addr() -> (r: u8) {
        0xE0
    }

    fn end_addr() -> (r: u8) {
        0xE0
    }
}

impl Reset {
    /// The command byte that triggers a soft reset.
    pub const RESET_BYTE: u8 = 0xB6;

    pub fn set_reset(&mut self, v: u8)
        ensures
            final(self).0 == v,
    {
        self.0 = v;
    }
}

/// Humidity oversampling control register: the selection lives in bits 2..0.
pub struct CtrlHum(pub u8);

impl RegAddr for CtrlHum {
    open spec fn spec_start_addr() -> u8 {
        0xF2
    }

    open spec fn spec_end_addr() -> u8 {
        0xF2
    }

    proof fn addr_range_wf() {
    }

    fn start_addr() -> (r: u8) {
        0xF2
    }

    fn end_addr() -> (r: u8) {
        0xF2
    }
}

impl CtrlHum {
    pub open spec fn spec_oversampling(&self) -> u8 {
        self.0 & 0x07
    }

    pub fn get_oversampling(&self) -> (r: u8)
        ensures
            r == self.spec_oversampling(),
    {
        self.0 & 0x07
    }

    pub fn set_oversampling(&mut self, v: u8)
        ensures
            final(self).0 == (old(self).0 & !0x07u8) | (v & 0x07),
    {
        self.0 = (self.0 & !0x07u8) | (v & 0x07);
    }
}

/// Status register: bits 1..0 report an image-register update in progress,
/// bits 4..3 report a running conversion.
pub struct Status(pub u8);

impl RegAddr for Status {
    open spec fn spec_start_addr() -> u8 {
        0xF3
    }

    open spec fn spec_end_addr() -> u8 {
        0xF3
    }

    proof fn addr_range_wf() {
    }

    fn start_addr() -> (r: u8) {
        0xF3
    }

    fn end_addr() -> (r: u8) {
        0xF3
    }
}

impl Status {
    pub open spec fn spec_im_update(&self) -> u8 {
        self.0 & 0x03
    }

    pub open spec fn spec_measuring(&self) -> u8 {
        (self.0 >> 3) & 0x03
    }

    pub fn get_im_update(&self) -> (r: u8)
        ensures
            r == self.spec_im_update(),
    {
        self.0 & 0x03
    }

    pub fn get_measuring(&self) -> (r: u8)
        ensures
            r == self.spec_measuring(),
    {
        (self.0 >> 3) & 0x03
    }
}

/// Measurement control register: mode in bits 1..0, pressure oversampling in
/// bits 4..2, temperature oversampling in bits 7..5.
pub struct CtrlMeas(pub u8);

impl RegAddr for CtrlMeas {
    open spec fn spec_start_addr() -> u8 {
        0xF4
    }

    open spec fn spec_end_addr() -> u8 {
        0xF4
    }

    proof fn addr_range_wf() {
    }

    fn start_addr() -> (r: u8) {
        0xF4
    }

    fn end_addr() -> (r: u8) {
        0xF4
    }
}

impl CtrlMeas {
    pub open spec fn spec_mode(&self) -> u8 {
        self.0 & 0x03
    }

    pub fn get_mode(&self) -> (r: u8)
        ensures
            r == self.spec_mode(),
    {
        self.0 & 0x03
    }

    pub fn set_mode(&mut self, v: u8)
        ensures
            final(self).0 == (old(self).0 & !0x03u8) | (v & 0x03),
    {
        self.0 = (self.0 & !0x03u8) | (v & 0x03);
    }

    pub fn set_press_oversampling(&mut self, v: u8)
        ensures
            final(self).0 == (old(self).0 & !0x1Cu8) | ((v & 0x07) << 2),
    {
        self.0 = (self.0 & !0x1Cu8) | ((v & 0x07) << 2);
    }

    pub fn set_temp_oversampling(&mut self, v: u8)
        ensures
            final(self).0 == (old(self).0 & !0xE0u8) | ((v & 0x07) << 5),
    {
        self.0 = (self.0 & !0xE0u8) | ((v & 0x07) << 5);
    }
}

/// The contiguous raw-measurement block: pressure in bytes 0..2, temperature
/// in bytes 3..5 (both 20-bit, most significant byte first), humidity in
/// bytes 6..7 (16-bit).
pub struct RawMeasures(pub [u8; 8]);

impl RegAddr for RawMeasures {
    open spec fn spec_start_addr() -> u8 {
        0xF7
    }

    open spec fn spec_end_addr() -> u8 {
        0xFE
    }

    proof fn addr_range_wf() {
    }

    fn start_addr() -> (r: u8) {
        0xF7
    }

    fn end_addr() -> (r: u8) {
        0xFE
    }
}

impl RawMeasures {
    pub open spec fn spec_press(&self) -> u32 {
        (self.0[0] * 0x1000 + self.0[1] * 0x10 + self.0[2] / 0x10) as u32
    }

    pub open spec fn spec_temp(&self) -> u32 {
        (self.0[3] * 0x1000 + self.0[4] * 0x10 + self.0[5] / 0x10) as u32
    }

    pub open spec fn spec_hum(&self) -> u32 {
        (self.0[6] * 0x100 + self.0[7]) as u32
    }

    pub fn get_press(&self) -> (r: u32)
        ensures
            r == self.spec_press(),
            r < 0x100000,
    {
        (self.0[0] as u32) * 0x1000 + (self.0[1] as u32) * 0x10 + (self.0[2] as u32) / 0x10
    }

    pub fn get_temp(&self) -> (r: u32)
        ensures
            r == self.spec_temp(),
            r < 0x100000,
    {
        (self.0[3] as u32) * 0x1000 + (self.0[4] as u32) * 0x10 + (self.0[5] as u32) / 0x10
    }

    pub fn get_hum(&self) -> (r: u32)
        ensures
            r == self.spec_hum(),
            r < 0x10000,
    {
        (self.0[6] as u32) * 0x100 + (self.0[7] as u32)
    }
}

/// Operating mode written into the measurement control register.
#[derive(Clone, Copy, Debug, PartialEq, Eq)]
pub enum Mode {
    Sleep,
    Forced,
    /// A second encoding the device accepts for forced mode.
    ForcedAlt,
    Normal,
}

impl Mode {
    pub open spec fn spec_value(self) -> u8 {
        match self {
            Mode::Sleep => 0,
            Mode::Forced => 1,
            Mode::ForcedAlt => 2,
            Mode::Normal => 3,
        }
    }

    pub fn value(self) -> (r: u8)
        ensures
            r == self.spec_value(),
    {
        match self {
            Mode::Sleep => 0,
            Mode::Forced => 1,
            Mode::ForcedAlt => 2,
            Mode::Normal => 3,
        }
    }
}

/// A register field held a bit pattern that names no variant.
#[derive(Clone, Copy, Debug, PartialEq, Eq)]
pub struct UnrecognizedFieldValue;

/// Oversampling selection for one measured quantity, as encoded in the two
/// control registers.
#[derive(Clone, Copy, Debug, PartialEq, Eq)]
pub enum Oversampling {
    ModuleDisabled,
    X1,
    X2,
    X4,
    X8,
    X16,
}

impl Oversampling {
    pub open spec fn spec_value(self) -> u8 {
        match self {
            Oversampling::ModuleDisabled => 0,
            Oversampling::X1 => 1,
            Oversampling::X2 => 2,
            Oversampling::X4 => 3,
            Oversampling::X8 => 4,
            Oversampling::X16 => 5,
        }
    }

    pub open spec fn spec_try_from(v: u8) -> Result<Oversampling, UnrecognizedFieldValue> {
        match v {
            0 => Ok(Oversampling::ModuleDisabled),
            1 => Ok(Oversampling::X1),
            2 => Ok(Oversampling::X2),
            3 => Ok(Oversampling::X4),
            4 => Ok(Oversampling::X8),
            5 => Ok(Oversampling::X16),
            _ => Err(UnrecognizedFieldValue),
        }
    }

    pub fn value(self) -> (r: u8)
        ensures
            r == self.spec_value(),
    {
        match self {
            Oversampling::ModuleDisabled => 0,
            Oversampling::X1 => 1,
            Oversampling::X2 => 2,
            Oversampling::X4 => 3,
            Oversampling::X8 => 4,
            Oversampling::X16 => 5,
        }
    }

    /// Decodes a register field; a value outside the six defined levels is
    /// rejected rather than mapped to a default.
    pub fn try_from(v: u8) -> (r: Result<Oversampling, UnrecognizedFieldValue>)
        ensures
            r == Oversampling::spec_try_from(v),
    {
        match v {
            0 => Ok(Oversampling::ModuleDisabled),
            1 => Ok(Oversampling::X1),
            2 => Ok(Oversampling::X2),
            3 => Ok(Oversampling::X4),
            4 => Ok(Oversampling::X8),
            5 => Ok(Oversampling::X16),
            _ => Err(UnrecognizedFieldValue),
        }
    }
}

} // verus!
