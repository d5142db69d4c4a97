//! Driver of the three-axis accelerometer: what it writes to configure the
//! sensor, and how it reads a sample.

use vstd::prelude::*;

use crate::i2c::{Command, WriteRequest};

verus! {

/// The sensor's seven-bit bus address.
pub const I2C_ADDRESS: u8 = 0x1D;

/// A sample is read as six bytes from `Register::OUT_X_MSB` on.
pub const SAMPLE_LENGTH: usize = 6;

/// How many idle cycles the sensor needs after a reset.
pub const RESET_PAUSE: u32 = 10000;

/// MMA8652FC Register Addresses
#[allow(non_camel_case_types)]
#[derive(Clone, Copy, PartialEq, Eq, Structural, Debug)]
pub enum Register {
    /// Status Register (R)
    STATUS,

    /// [7:0] are 8 MSBs of the 14-bit X-axis sample (R)
    OUT_X_MSB,
    /// [7:2] are 6 LSBs of the 14-bit X-axis sample (R)
    OUT_X_LSB,
    /// [7:0] are 8 MSBs of the 14-bit Y-axis sample (R)
    OUT_Y_MSB,
    /// [7:2] are 6 LSBs of the 14-bit Y-axis sample (R)
    OOT_Y_LSB,
    /// [7:0] are 8 MSBs of the 14-bit Z-axis sample (R)
    OUT_Z_MSB,
    /// [7:2] are 6 LSBs of the 14-bit Z-axis sample (R)
    OUT_Z_LSB,

    /// FIFO Setup Register (R/W)
    F_SETUP,
    /// Map of FIFO data capture events (R/W)
    TRIG_CFG,
    /// System Mode Register (R)
    SYSMOD,
    /// System Interrupt Status Register (R)
    INT_SOURCE,
    /// Device ID Register (R)
    WHO_AM_I,
    /// Sensor Data Configuration Register (R/W)
    XYZ_DATA_CFG,
    /// High Pass Filter Register (R/W)
    HP_FILTER_CUTOFF,

    /// Portait/tLandscape Status Register (R)
    PL_STATUS,
    /// Portrait/Landscape Configuration Register (R/W)
    PL_CFG,
    /// Portrait/Landscape Debounce Register (R/W)
    PL_COUNT,
    /// Portrait/Landscape Back/Front and Z Compensation Register (R/W)
    PL_BF_ZCOMP,
    /// Portrait/Landscape Threshold Register (R/W)
    P_L_THS_REG,

    /// Freefall and Motion Configuration Register (R/W)
    FF_MT_CFG,
    /// Freefall and Motion Source Register (R)
    FF_MT_SRC,
    /// Freefall and Motion Threshold Register (R/W)
    FF_MT_THS,
    /// Freefall Motion Count Register (R/W)
    FF_MT_COUNT,

    /// Transient Configuration Register (R/W)
    TRANSIENT_CFG,
    /// Transient Source Register (R)
    TRANSIENT_SRC,
    /// Transient Threshold Register (R/W)
    TRANSIENT_THS,
    /// Transient Debounce Counter Register (R/W)
    TRANSIENT_COUNT,

    /// Pulse Configuration Register (R/W)
    PULSE_CFG,
    /// Pulse Source Register (R)
    PULSE_SRC,
    /// Pulse X Threshold Register (R/W)
    PULSE_THS_X,
    /// Pulse Y Threshold Register (R/W)
    PULSE_THS_Y,
    /// Pulse Z Threshold Register (R/W)
    PULSE_THS_Z,
    /// Pulse Time Window Register (R/W)
    PULSE_TLMT,
    /// Pulse Latency Timer Register (R/W)
    PULSE_LTCY,
    /// Second Pulse Time Window Register (R/W)
    PULSE_WIND,

    /// Auto Sleep Inactivity Timer Register (R/W)
    ALSP_COUNT,

    /// System Control 1 Register (R/W)
    CTRL_REG1,
    /// System Control 2 Register (R/W)
    CTRL_REG2,
    /// Interrupt Control Register (R/W)
    CTRL_REG3,
    /// Interrupt Enable Register (R/W)
    CTRL_REG4,
    /// Interrupt Configuration Register (R/W)
    CTRL_REG5,

    /// X Offset Correction Register (R/W)
    OFF_X,
    /// Y Offset Correction Register (R/W)
    OFF_Y,
    /// Z Offset Correction Register (R/W)
    OFF_Z,
}

impl Register {
    /// The register's address on the sensor.
    pub open spec fn spec_addr(self) -> u8 {
        match self {
            Register::STATUS => 0x00,
            Register::OUT_X_MSB => 0x01,
            Register::OUT_X_LSB => 0x02,
            Register::OUT_Y_MSB => 0x03,
            Register::OOT_Y_LSB => 0x04,
            Register::OUT_Z_MSB => 0x05,
            Register::OUT_Z_LSB => 0x06,
            Register::F_SETUP => 0x09,
            Register::TRIG_CFG => 0x0A,
            Register::SYSMOD => 0x0B,
            Register::INT_SOURCE => 0x0C,
            Register::WHO_AM_I => 0x0D,
            Register::XYZ_DATA_CFG => 0x0E,
            Register::HP_FILTER_CUTOFF => 0x0F,
            Register::PL_STATUS => 0x10,
            Register::PL_CFG => 0x11,
            Register::PL_COUNT => 0x12,
            Register::PL_BF_ZCOMP => 0x13,
            Register::P_L_THS_REG => 0x14,
            Register::FF_MT_CFG => 0x15,
            Register::FF_MT_SRC => 0x16,
            Register::FF_MT_THS => 0x17,
            Register::FF_MT_COUNT => 0x18,
            Register::TRANSIENT_CFG => 0x1D,
            Register::TRANSIENT_SRC => 0x1E,
            Register::TRANSIENT_THS => 0x1F,
            Register::TRANSIENT_COUNT => 0x20,
            Register::PULSE_CFG => 0x21,
            Register::PULSE_SRC => 0x22,
            Register::PULSE_THS_X => 0x23,
            Register::PULSE_THS_Y => 0x24,
            Register::PULSE_THS_Z => 0x25,
            Register::PULSE_TLMT => 0x26,
            Register::PULSE_LTCY => 0x27,
            Register::PULSE_WIND => 0x28,
            Register::ALSP_COUNT => 0x29,
            Register::CTRL_REG1 => 0x2A,
            Register::CTRL_REG2 => 0x2B,
            Register::CTRL_REG3 => 0x2C,
            Register::CTRL_REG4 => 0x2D,
            Register::CTRL_REG5 => 0x2E,
            Register::OFF_X => 0x2F,
            Register::OFF_Y => 0x30,
            Register::OFF_Z => 0x31,
        }
    }

    pub fn addr(&self) -> (r: u8)
        ensures
            r == self.spec_addr(),
    {
        match *self {
            Register::STATUS => 0x00,
            Register::OUT_X_MSB => 0x01,
            Register::OUT_X_LSB => 0x02,
            Register::OUT_Y_MSB => 0x03,
            Register::OOT_Y_LSB => 0x04,
            Register::OUT_Z_MSB => 0x05,
            Register::OUT_Z_LSB => 0x06,
            Register::F_SETUP => 0x09,
            Register::TRIG_CFG => 0x0A,
            Register::SYSMOD => 0x0B,
            Register::INT_SOURCE => 0x0C,
            Register::WHO_AM_I => 0x0D,
            Register::XYZ_DATA_CFG => 0x0E,
            Register::HP_FILTER_CUTOFF => 0x0F,
            Register::PL_STATUS => 0x10,
            Register::PL_CFG => 0x11,
            Register::PL_COUNT => 0x12,
            Register::PL_BF_ZCOMP => 0x13,
            Register::P_L_THS_REG => 0x14,
            Register::FF_MT_CFG => 0x15,
            Register::FF_MT_SRC => 0x16,
            Register::FF_MT_THS => 0x17,
            Register::FF_MT_COUNT => 0x18,
            Register::TRANSIENT_CFG => 0x1D,
            Register::TRANSIENT_SRC => 0x1E,
            Register::TRANSIENT_THS => 0x1F,
            Register::TRANSIENT_COUNT => 0x20,
            Register::PULSE_CFG => 0x21,
            Register::PULSE_SRC => 0x22,
            Register::PULSE_THS_X => 0x23,
            Register::PULSE_THS_Y => 0x24,
            Register::PULSE_THS_Z => 0x25,
            Register::PULSE_TLMT => 0x26,
            Register::PULSE_LTCY => 0x27,
            Register::PULSE_WIND => 0x28,
            Register::ALSP_COUNT => 0x29,
            Register::CTRL_REG1 => 0x2A,
            Register::CTRL_REG2 => 0x2B,
            Register::CTRL_REG3 => 0x2C,
            Register::CTRL_REG4 => 0x2D,
            Register::CTRL_REG5 => 0x2E,
            Register::OFF_X => 0x2F,
            Register::OFF_Y => 0x30,
            Register::OFF_Z => 0x31,
        }
    }
}

/// One acceleration sample, one signed 16-bit value per axis.
#[derive(Clone, Copy, PartialEq, Eq, Structural, Debug)]
pub struct Accel {
    /// X component
    pub x: i16,
    /// Y component
    pub y: i16,
    /// Z component
    pub z: i16,
}

/// The big-endian signed 16-bit value of two bytes.
pub open spec fn be_i16(hi: u8, lo: u8) -> int {
    let u = hi * 256 + lo;
    if u >= 32768 {
        u - 65536
    } else {
        u
    }
}

/// Relies on `cast::u16`: for a `u8` argument it is the lossless promotion
/// `x as u16`.
#[verifier::external_body]
fn widen(x: u8) -> (r: u16)
    ensures
        r == x as u16,
{
    cast::u16(x)
}

/// Two bytes, most significant first, as a two's complement value.
fn decode(hi: u8, lo: u8) -> (r: i16)
    ensures
        r as int == be_i16(hi, lo),
{
    let v: u16 = widen(hi) * 256 + widen(lo);
    if v >= 32768 {
        ((v - 32768) as i16) - 32767 - 1
    } else {
        v as i16
    }
}

/// A write of `value` to a register of the sensor.
pub open spec fn write_to(register: Register, value: u8) -> Command {
    Command::Write(WriteRequest { slave: I2C_ADDRESS, register: register.spec_addr(), value })
}

/// The configuration after power-up: a reset, then motion and orientation
/// detection with their interrupts, oversampling, high-pass filtered data,
/// and 12 Hz active mode.
pub open spec fn init_commands() -> Seq<Command> {
    seq![
        write_to(Register::CTRL_REG2, 0),
        write_to(Register::CTRL_REG2, 0x40),
        Command::Pause(RESET_PAUSE),
        write_to(Register::FF_MT_CFG, 0x78),
        write_to(Register::PL_CFG, 0x40),
        write_to(Register::PL_COUNT, 200),
        write_to(Register::PL_BF_ZCOMP, 0x47),
        write_to(Register::P_L_THS_REG, 0x9c),
        write_to(Register::CTRL_REG4, 0x11),
        write_to(Register::CTRL_REG5, 0x01),
        write_to(Register::CTRL_REG2, 0x12),
        write_to(Register::XYZ_DATA_CFG, 0x10),
        write_to(Register::HP_FILTER_CUTOFF, 0x03),
        write_to(Register::CTRL_REG1, 0x19),
    ]
}

/// The accelerometer, at its fixed bus address.
pub struct MMA8652FC;

impl MMA8652FC {
    /// The writes that configure the sensor after power-up, with the pause
    /// that its reset needs.
    pub fn init(&self) -> (r: Vec<Command>)
        ensures
            r@ == init_commands(),
    {
        let mut r: Vec<Command> = Vec::new();
        // Normal mode, then a reset of all registers to their power-on values.
        r.push(self.set_register(Register::CTRL_REG2, 0));
        r.push(self.set_register(Register::CTRL_REG2, 0x40));
        r.push(Command::Pause(RESET_PAUSE));
        // Motion detection on X, Y and Z, latch disabled.
        r.push(self.set_register(Register::FF_MT_CFG, 0x78));
        // Orientation detection, a debounce of 200 counts, a 42 degree threshold.
        r.push(self.set_register(Register::PL_CFG, 0x40));
        r.push(self.set_register(Register::PL_COUNT, 200));
        r.push(self.set_register(Register::PL_BF_ZCOMP, 0b01000111));
        r.push(self.set_register(Register::P_L_THS_REG, 0b10011100));
        // Data-ready and orientation interrupts, routed to INT1 and INT2.
        r.push(self.set_register(Register::CTRL_REG4, 0x01 | (1 << 4)));
        r.push(self.set_register(Register::CTRL_REG5, 0x01));
        // Maximum resolution oversampling, high-pass filtered data.
        r.push(self.set_register(Register::CTRL_REG2, 0x12));
        r.push(self.set_register(Register::XYZ_DATA_CFG, 1 << 4));
        r.push(self.set_register(Register::HP_FILTER_CUTOFF, 0x03));
        // 12 Hz, active mode.
        r.push(self.set_register(Register::CTRL_REG1, 0x19));
        assert(0x01u8 | (1u8 << 4u8) == 0x11u8) by (bit_vector);
        assert(1u8 << 4u8 == 0x10u8) by (bit_vector);
        assert(r@ =~= init_commands());
        r
    }

    /// The writes that set the motion threshold and debounce: the sensor is
    /// put to sleep, configured, and made active again.
    pub fn set_sensitivity(&self, threshold: u8, filter_time: u8) -> (r: Vec<Command>)
        requires
            threshold <= 17,
        ensures
            r@ == seq![
                write_to(Register::CTRL_REG1, 0),
                write_to(Register::FF_MT_THS, ((35 - 2 * threshold) as u8) & 0x7f),
                write_to(Register::FF_MT_COUNT, filter_time),
                write_to(Register::CTRL_REG1, 0x31),
            ],
    {
        let sens: u8 = 9 * 2 + 17 - 2 * threshold;
        let r = vec![
            self.set_register(Register::CTRL_REG1, 0),
            self.set_register(Register::FF_MT_THS, sens & 0x7F),
            self.set_register(Register::FF_MT_COUNT, filter_time),
            self.set_register(Register::CTRL_REG1, 0x31),
        ];
        assert(r@ =~= seq![
            write_to(Register::CTRL_REG1, 0),
            write_to(Register::FF_MT_THS, ((35 - 2 * threshold) as u8) & 0x7f),
            write_to(Register::FF_MT_COUNT, filter_time),
            write_to(Register::CTRL_REG1, 0x31),
        ]);
        r
    }

    /// The sample held in the six bytes read from `Register::OUT_X_MSB` on:
    /// each axis big-endian, signed.
    pub fn accel(&self, bytes: &[u8; 6]) -> (r: Accel)
        ensures
            r.x as int == be_i16(bytes@[0], bytes@[1]),
            r.y as int == be_i16(bytes@[2], bytes@[3]),
            r.z as int == be_i16(bytes@[4], bytes@[5]),
    {
        Accel {
            x: decode(bytes[0], bytes[1]),
            y: decode(bytes[2], bytes[3]),
            z: decode(bytes[4], bytes[5]),
        }
    }

    /// A write of `value` to register `reg` of the sensor.
    pub fn set_register(&self, reg: Register, value: u8) -> (r: Command)
        ensures
            r == write_to(reg, value),
    {
        Command::Write(WriteRequest { slave: I2C_ADDRESS, register: reg.addr(), value })
    }
}

} // verus!
