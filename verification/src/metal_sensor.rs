//! Register-level protocol of the TI LDC1x1x inductance-to-digital
//! converters used for metal detection.
//!
//! The functions here compute what goes onto, or came back from, the I2C
//! bus: register addresses, packed 16-bit values, and the decoding of
//! conversion results. The bus transfer itself is the caller's.

use vstd::prelude::*;

verus! {

/// Errors of the metal-detector driver: a failed bus transfer, or one of
/// the four conversion error flags a data register can carry.
#[derive(Debug, Clone, Copy, PartialEq, Eq, Structural)]
pub enum LdcErr {
    Bus,
    ConversionUnderRange,
    ConversionOverRange,
    ConversionWatchdogTimeout,
    ConversionAmplitude,
}

/// A conversion channel of the chip.
#[derive(Debug, Clone, Copy, PartialEq, Eq, Structural)]
pub enum Channel {
    Zero,
    One,
}

impl Channel {
    /// The channel's number, as it offsets per-channel register addresses.
    pub open spec fn spec_offset(self) -> u8 {
        match self {
            Channel::Zero => 0,
            Channel::One => 1,
        }
    }

    /// The channel's number, as it offsets per-channel register addresses.
    #[verifier::when_used_as_spec(spec_offset)]
    pub fn offset(self) -> (n: u8)
        ensures
            n == self.spec_offset(),
            n <= 1,
    {
        match self {
            Channel::Zero => 0,
            Channel::One => 1,
        }
    }
}

/// Minimum input and reference clock dividers for a channel.
#[derive(Debug, Clone, Copy, PartialEq, Eq, Structural)]
pub struct ClockDividers {
    pub fin_div: u16,
    pub fref_div: u16,
}

/// The raw status register.
#[derive(Debug, Clone, Copy, PartialEq, Eq, Structural)]
pub struct Status(pub u16);

/// The raw error-configuration register.
#[derive(Debug, Clone, Copy, PartialEq, Eq, Structural)]
pub struct ErrorConfig(pub u16);

impl Default for ErrorConfig {
    /// All error routing disabled.
    fn default() -> (conf: Self)
        ensures
            conf.0 == 0,
    {
        Self(0)
    }
}

impl ErrorConfig {
    /// Set or clear bit 12, which routes amplitude-high errors to the data
    /// registers; every other bit is kept.
    pub fn with_amplitude_high_error_to_data_register(self, val: bool) -> (conf: Self)
        ensures
            conf.0 & (1u16 << 12) == (if val {
                1u16 << 12
            } else {
                0u16
            }),
            conf.0 & !(1u16 << 12) == self.0 & !(1u16 << 12),
    {
        let bit: u16 = if val {
            1u16 << 12
        } else {
            0
        };
        let packed = Self((self.0 & !(1u16 << 12)) | bit);
        proof {
            let x = self.0;
            assert(((x & !(1u16 << 12)) | (1u16 << 12)) & (1u16 << 12) == 1u16 << 12)
                by (bit_vector);
            assert(((x & !(1u16 << 12)) | (1u16 << 12)) & !(1u16 << 12) == x & !(1u16 << 12))
                by (bit_vector);
            assert(((x & !(1u16 << 12)) | 0u16) & (1u16 << 12) == 0u16) by (bit_vector);
            assert(((x & !(1u16 << 12)) | 0u16) & !(1u16 << 12) == x & !(1u16 << 12))
                by (bit_vector);
        }
        packed
    }
}

/// The raw conversion-configuration register.
#[derive(Debug, Clone, Copy, PartialEq, Eq, Structural)]
pub struct Config(pub u16);

impl Default for Config {
    /// Channel zero, only the Rp override enabled, and the reserved first
    /// bit set, as the chip requires.
    fn default() -> (conf: Self)
        ensures
            conf.0 == 0x1001,
    {
        Self(0x1001)
    }
}

/// Bandwidth of the input deglitch filter.
#[derive(Debug, Clone, Copy, PartialEq, Eq, Structural)]
pub enum Deglitch {
    ThreePointThreeMHz,
}

impl Deglitch {
    /// The three-bit field value of this bandwidth.
    pub open spec fn spec_bits(self) -> u16 {
        match self {
            Deglitch::ThreePointThreeMHz => 0b100,
        }
    }

    /// The three-bit field value of this bandwidth.
    #[verifier::when_used_as_spec(spec_bits)]
    pub fn bits(self) -> (b: u16)
        ensures
            b == self.spec_bits(),
            b <= 0b111,
    {
        match self {
            Deglitch::ThreePointThreeMHz => 0b100,
        }
    }
}

/// The raw multiplexing-configuration register.
#[derive(Debug, Clone, Copy, PartialEq, Eq, Structural)]
pub struct MuxConfig(pub u16);

impl Default for MuxConfig {
    /// The reserved field the chip requires, plus the default 33 MHz
    /// deglitch bandwidth.
    fn default() -> (conf: Self)
        ensures
            conf.0 == 0b0100_0001_111,
    {
        Self(0b0100_0001_111)
    }
}

impl MuxConfig {
    /// Set or clear bit 15, which scans channels automatically; every
    /// other bit is kept.
    pub fn with_auto_scan(self, val: bool) -> (conf: Self)
        ensures
            conf.0 & (1u16 << 15) == (if val {
                1u16 << 15
            } else {
                0u16
            }),
            conf.0 & !(1u16 << 15) == self.0 & !(1u16 << 15),
    {
        let bit: u16 = if val {
            1u16 << 15
        } else {
            0
        };
        let packed = Self((self.0 & !(1u16 << 15)) | bit);
        proof {
            let x = self.0;
            assert(((x & !(1u16 << 15)) | (1u16 << 15)) & (1u16 << 15) == 1u16 << 15)
                by (bit_vector);
            assert(((x & !(1u16 << 15)) | (1u16 << 15)) & !(1u16 << 15) == x & !(1u16 << 15))
                by (bit_vector);
            assert(((x & !(1u16 << 15)) | 0u16) & (1u16 << 15) == 0u16) by (bit_vector);
            assert(((x & !(1u16 << 15)) | 0u16) & !(1u16 << 15) == x & !(1u16 << 15))
                by (bit_vector);
        }
        packed
    }

    /// Replace the low three bits with the given deglitch bandwidth; every
    /// other bit is kept.
    pub fn with_deglitch_filter_bandwidth(self, bw: Deglitch) -> (conf: Self)
        ensures
            conf.0 & 0b111 == bw.spec_bits(),
            conf.0 & !0b111u16 == self.0 & !0b111u16,
    {
        let bits = bw.bits();
        let packed = Self((self.0 & !0b111u16) | bits);
        proof {
            let x = self.0;
            let b = bw.spec_bits();
            assert(b <= 0b111 ==> ((x & !0b111u16) | b) & 0b111 == b) by (bit_vector);
            assert(b <= 0b111 ==> ((x & !0b111u16) | b) & !0b111u16 == x & !0b111u16)
                by (bit_vector);
        }
        packed
    }
}

/// One register write as it goes onto the bus: an address and the 16-bit
/// value to store there.
#[derive(Debug, Clone, Copy, PartialEq, Eq, Structural)]
pub struct RegWrite {
    pub reg: u8,
    pub value: u16,
}

/// The two bytes of a register value as they travel on the bus, high byte
/// first.
pub fn reg_bytes(data: u16) -> (bytes: (u8, u8))
    ensures
        bytes.0 == data >> 8,
        bytes.1 == data & 0xff,
        bytes.0 * 256 + bytes.1 == data,
{
    proof {
        assert(data >> 8 < 256) by (bit_vector);
        assert(data & 0xff < 256) by (bit_vector);
        assert((data >> 8) * 256 + (data & 0xff) == data) by (bit_vector);
    }
    (#[verifier::truncate] ((data >> 8) as u8), #[verifier::truncate] ((data & 0xff) as u8))
}

/// A 16-bit register value read back as two bytes, high byte first.
pub fn reg_from_bytes(hi: u8, lo: u8) -> (data: u16)
    ensures
        data == (hi as u16) << 8 | lo as u16,
        data == hi * 256 + lo,
{
    proof {
        let h = hi as u16;
        let l = lo as u16;
        assert(h < 256 && l < 256 ==> (h << 8 | l) == h * 256 + l) by (bit_vector);
    }
    ((hi as u16) << 8) | (lo as u16)
}

/// The address of the high data register of a channel.
pub fn data_msb_reg(ch: Channel) -> (reg: u8)
    ensures
        reg == 2 * ch.spec_offset(),
{
    2 * ch.offset()
}

/// The address of the low data register of a channel.
pub fn data_lsb_reg(ch: Channel) -> (reg: u8)
    ensures
        reg == 1 + 2 * ch.spec_offset(),
{
    1 + 2 * ch.offset()
}

/// What a raw conversion register of a 12-bit device means: the four top
/// bits flag conversion errors — highest first: under range, over range,
/// watchdog timeout, amplitude — and otherwise the low twelve bits are
/// the conversion result.
pub open spec fn data_12bit_result(b: u16) -> Result<u16, LdcErr> {
    if b & (1u16 << 15) != 0 {
        Err(LdcErr::ConversionUnderRange)
    } else if b & (1u16 << 14) != 0 {
        Err(LdcErr::ConversionOverRange)
    } else if b & (1u16 << 13) != 0 {
        Err(LdcErr::ConversionWatchdogTimeout)
    } else if b & (1u16 << 12) != 0 {
        Err(LdcErr::ConversionAmplitude)
    } else {
        Ok(b & 0x0fff)
    }
}

/// Interpret a raw conversion register of a 12-bit device. Reading the
/// register clears the error flags on the chip; here each flag maps to
/// its own error, and a clean read yields a result below 4096.
pub fn decode_data_12bit(b: u16) -> (r: Result<u16, LdcErr>)
    ensures
        r == data_12bit_result(b),
        r matches Ok(v) ==> v < 0x1000,
{
    proof {
        assert(b & 0x0fff < 0x1000) by (bit_vector);
        assert(b & (1u16 << 15) == 0 && b & (1u16 << 14) == 0 && b & (1u16 << 13) == 0 && b & (
        1u16 << 12) == 0 ==> b & 0x0fff == b) by (bit_vector);
    }
    if b & (1u16 << 15) != 0 {
        Err(LdcErr::ConversionUnderRange)
    } else if b & (1u16 << 14) != 0 {
        Err(LdcErr::ConversionOverRange)
    } else if b & (1u16 << 13) != 0 {
        Err(LdcErr::ConversionWatchdogTimeout)
    } else if b & (1u16 << 12) != 0 {
        Err(LdcErr::ConversionAmplitude)
    } else {
        Ok(b & 0x0fff)
    }
}

/// A 24-bit conversion result from its decoded 12-bit high part and the
/// full low register.
pub fn combine_24bit(hi: u16, lo: u16) -> (data: u32)
    ensures
        data == (hi as u32) << 16 | lo as u32,
        data == hi * 0x10000 + lo,
{
    proof {
        let h = hi as u32;
        let l = lo as u32;
        assert(h < 0x10000 && l < 0x10000 ==> (h << 16 | l) == h * 0x10000 + l) by (bit_vector);
    }
    ((hi as u32) << 16) | (lo as u32)
}

/// The write that sets a channel's reference-count conversion interval.
pub fn ref_count_conv_interval_write(ch: Channel, intv: u16) -> (w: RegWrite)
    ensures
        w.reg == 0x08 + ch.spec_offset(),
        w.value == intv,
{
    RegWrite { reg: 0x08 + ch.offset(), value: intv }
}

/// The write that sets a channel's conversion settling time.
pub fn conv_settling_time_write(ch: Channel, cnt: u16) -> (w: RegWrite)
    ensures
        w.reg == 0x10 + ch.spec_offset(),
        w.value == cnt,
{
    RegWrite { reg: 0x10 + ch.offset(), value: cnt }
}

/// The write that sets a channel's clock dividers: the input divider in
/// the top four bits, the reference divider below.
pub fn clock_dividers_write(ch: Channel, divs: ClockDividers) -> (w: RegWrite)
    ensures
        w.reg == 0x14 + ch.spec_offset(),
        w.value == divs.fin_div << 12 | divs.fref_div,
{
    RegWrite { reg: 0x14 + ch.offset(), value: (divs.fin_div << 12) | divs.fref_div }
}

/// The write that stores the error configuration.
pub fn error_config_write(conf: ErrorConfig) -> (w: RegWrite)
    ensures
        w.reg == 0x19,
        w.value == conf.0,
{
    RegWrite { reg: 0x19, value: conf.0 }
}

/// The write that stores the conversion configuration.
pub fn config_write(conf: Config) -> (w: RegWrite)
    ensures
        w.reg == 0x1A,
        w.value == conf.0,
{
    RegWrite { reg: 0x1A, value: conf.0 }
}

/// The write that stores the multiplexing configuration.
pub fn mux_config_write(conf: MuxConfig) -> (w: RegWrite)
    ensures
        w.reg == 0x1B,
        w.value == conf.0,
{
    RegWrite { reg: 0x1B, value: conf.0 }
}

/// The write that resets the chip: the reset bit in the reset register.
pub fn reset_write() -> (w: RegWrite)
    ensures
        w.reg == 0x1C,
        w.value == 1u16 << 15,
{
    RegWrite { reg: 0x1C, value: 1u16 << 15 }
}

/// The write that sets a channel's sensor drive current, packed into the
/// top five bits.
pub fn sensor_drive_current_write(ch: Channel, cur: u8) -> (w: RegWrite)
    ensures
        w.reg == 0x1E + ch.spec_offset(),
        w.value == (cur as u16) << 11,
{
    RegWrite { reg: 0x1E + ch.offset(), value: (cur as u16) << 11 }
}

} // verus!
