//! The arithmetic of three sensor drivers: the BH1750 ambient light sensor,
//! the DHT22 humidity and temperature sensor and the DS18B20 temperature
//! sensor. Pin and bus traffic is the drivers' business; what they compute
//! from the bytes they exchange is here.
use vstd::prelude::*;

verus! {

// ------------------------------------------------------------------------
// BH1750
// ------------------------------------------------------------------------

/// Errors that may occur while interacting with the BH1750 sensor.
#[derive(Debug, Copy, Clone)]
pub enum Bh1750Error<E> {
    /// I²C bus error.
    I2c(E),
    /// A continuous measurement was read before one was started.
    ContinuousMeasurementNotStarted,
}

/// I²C address of the BH1750 sensor, set by how its ADD pin is connected.
#[derive(Debug, Clone, Copy, PartialEq, Eq, Structural)]
pub enum Address {
    /// `0x23`, when ADD is connected to ground or floating.
    Low,
    /// `0x5C`, when ADD is connected to VCC.
    High,
}

impl Address {
    /// The 7-bit bus address.
    pub fn value(self) -> (address: u8)
        ensures
            address == match self {
                Address::Low => 0x23u8,
                Address::High => 0x5cu8,
            },
    {
        match self {
            Address::Low => 0x23,
            Address::High => 0x5c,
        }
    }
}

/// Measurement resolution modes of the BH1750 sensor.
#[derive(Debug, Clone, Copy, PartialEq, Eq, Structural)]
pub enum Resolution {
    /// High resolution: 1 lx per count, 120 ms with the default `MTreg`.
    High,
    /// High resolution 2: 0.5 lx per count, 120 ms with the default `MTreg`.
    High2,
    /// Low resolution: 4 lx per count, 16 ms with the default `MTreg`.
    Low,
}

/// The default value of the measurement time register.
pub const DEFAULT_MTREG: u8 = 69;
/// The smallest value of the measurement time register.
pub const MTREG_MIN: u8 = 31;
/// The largest value of the measurement time register.
pub const MTREG_MAX: u8 = 254;
/// The opcode that carries the high bits of the measurement time register.
pub const MTREG_HIGH: u8 = 0x40;
/// The opcode that carries the low bits of the measurement time register.
pub const MTREG_LOW: u8 = 0x60;
/// The `Power Down` instruction.
pub const POWER_DOWN: u8 = 0x00;
/// The `Power On` instruction.
pub const POWER_ON: u8 = 0x01;
/// The `Reset` instruction.
pub const RESET: u8 = 0x07;

impl Resolution {
    /// The instruction that starts continuous measurements.
    pub fn continuous_measurement_opcode(self) -> (opcode: u8)
        ensures
            opcode == match self {
                Resolution::High => 0x10u8,
                Resolution::High2 => 0x11u8,
                Resolution::Low => 0x13u8,
            },
    {
        match self {
            Resolution::High => 0x10,
            Resolution::High2 => 0x11,
            Resolution::Low => 0x13,
        }
    }

    /// The instruction that starts one measurement.
    pub fn one_time_measurement_opcode(self) -> (opcode: u8)
        ensures
            opcode == match self {
                Resolution::High => 0x20u8,
                Resolution::High2 => 0x21u8,
                Resolution::Low => 0x23u8,
            },
    {
        match self {
            Resolution::High => 0x20,
            Resolution::High2 => 0x21,
            Resolution::Low => 0x23,
        }
    }

    /// The measurement time in milliseconds with the default `MTreg`.
    pub open spec fn default_time(self) -> u32 {
        match self {
            Resolution::High | Resolution::High2 => 120,
            Resolution::Low => 16,
        }
    }

    /// Returns the measurement time in milliseconds with the default
    /// `MTreg`.
    pub fn default_measurement_time_ms(self) -> (ms: u32)
        ensures
            ms == self.default_time(),
    {
        match self {
            Resolution::High | Resolution::High2 => 120,
            Resolution::Low => 16,
        }
    }
}

/// The measurement time register value, clamped to its allowed range.
pub open spec fn clamp_mtreg(mtreg: u8) -> u8 {
    if mtreg < MTREG_MIN {
        MTREG_MIN
    } else if mtreg > MTREG_MAX {
        MTREG_MAX
    } else {
        mtreg
    }
}

/// The value to store in the measurement time register and the two
/// instructions that set it: the value clamped between [`MTREG_MIN`] and
/// [`MTREG_MAX`], then its top three bits after [`MTREG_HIGH`] and its low
/// five bits after [`MTREG_LOW`].
pub fn mtreg_instructions(mtreg: u8) -> (result: (u8, u8, u8))
    ensures
        result.0 == clamp_mtreg(mtreg),
        result.1 == MTREG_HIGH + result.0 / 32,
        result.2 == MTREG_LOW + result.0 % 32,
{
    let mt = if mtreg < MTREG_MIN {
        MTREG_MIN
    } else if mtreg > MTREG_MAX {
        MTREG_MAX
    } else {
        mtreg
    };
    let high = MTREG_HIGH | (mt >> 5);
    let low = MTREG_LOW | (mt & 0x1f);
    assert(0x40u8 | (mt >> 5u8) == 0x40u8 + mt / 32) by (bit_vector);
    assert(0x60u8 | (mt & 0x1fu8) == 0x60u8 + mt % 32) by (bit_vector);
    (mt, high, low)
}

/// The measurement time in milliseconds for a resolution and a register
/// value: the default time scaled by the register value over its default.
pub fn measurement_time_ms(res: Resolution, mtreg: u8) -> (ms: u32)
    ensures
        ms == res.default_time() * mtreg / 69,
{
    let base = res.default_measurement_time_ms();
    assert(base * mtreg <= 120 * 255) by (nonlinear_arith)
        requires
            base <= 120,
            mtreg <= 255,
    ;
    base * (mtreg as u32) / (DEFAULT_MTREG as u32)
}

/// The raw reading of two bytes sent most significant first.
pub fn raw_from_be_bytes(high: u8, low: u8) -> (raw: u16)
    ensures
        raw == high * 256 + low,
{
    (high as u16) * 256 + (low as u16)
}

/// The resolution of the running continuous measurement, or the error for
/// reading one that was never started.
pub fn continuous_resolution<E>(started: Option<Resolution>) -> (result: Result<
    Resolution,
    Bh1750Error<E>,
>)
    ensures
        match started {
            Some(res) => result matches Ok(r) && r == res,
            None => result matches Err(Bh1750Error::ContinuousMeasurementNotStarted),
        },
{
    match started {
        Some(res) => Ok(res),
        None => Err(Bh1750Error::ContinuousMeasurementNotStarted),
    }
}

/// What a BH1750 driver keeps between calls: the measurement time register
/// value and the resolution of the running continuous measurement.
#[derive(Debug, Clone, Copy, PartialEq, Eq, Structural)]
pub struct Bh1750Settings {
    /// The measurement time register value.
    pub mtreg: u8,
    /// The resolution of the running continuous measurement, if any.
    pub continuous_resolution: Option<Resolution>,
}

impl Bh1750Settings {
    /// The settings of a new driver: the default register value, no
    /// continuous measurement.
    pub fn new() -> (settings: Self)
        ensures
            settings.mtreg == DEFAULT_MTREG,
            settings.continuous_resolution is None,
    {
        Bh1750Settings { mtreg: DEFAULT_MTREG, continuous_resolution: None }
    }

    /// Records a register value that the sensor accepted, and returns the
    /// two instructions that set it.
    pub fn set_mtreg(&mut self, mtreg: u8) -> (instructions: (u8, u8))
        ensures
            final(self).mtreg == clamp_mtreg(mtreg),
            final(self).continuous_resolution == old(self).continuous_resolution,
            instructions.0 == MTREG_HIGH + clamp_mtreg(mtreg) / 32,
            instructions.1 == MTREG_LOW + clamp_mtreg(mtreg) % 32,
    {
        let (mt, high, low) = mtreg_instructions(mtreg);
        self.mtreg = mt;
        (high, low)
    }

    /// Records that a continuous measurement started at a resolution.
    pub fn start_continuous_measurement(&mut self, res: Resolution)
        ensures
            final(self).mtreg == old(self).mtreg,
            final(self).continuous_resolution == Some(res),
    {
        self.continuous_resolution = Some(res);
    }

    /// The measurement time in milliseconds at a resolution with the
    /// current register value.
    pub fn measurement_time_ms(&self, res: Resolution) -> (ms: u32)
        ensures
            ms == res.default_time() * self.mtreg / 69,
    {
        measurement_time_ms(res, self.mtreg)
    }
}

// ------------------------------------------------------------------------
// Bits on a single wire
// ------------------------------------------------------------------------

/// The number that bits give when the first is the most significant.
pub open spec fn msb_value(bits: Seq<bool>) -> nat
    decreases bits.len(),
{
    if bits.len() == 0 {
        0
    } else {
        2 * msb_value(bits.drop_last()) + if bits.last() {
            1nat
        } else {
            0nat
        }
    }
}

/// The number that bits give when the first is the least significant.
pub open spec fn lsb_value(bits: Seq<bool>) -> nat {
    msb_value(bits.reverse())
}

proof fn lemma_msb_value_bound(bits: Seq<bool>)
    ensures
        msb_value(bits) < vstd::arithmetic::power2::pow2(bits.len()),
    decreases bits.len(),
{
    if bits.len() > 0 {
        lemma_msb_value_bound(bits.drop_last());
        vstd::arithmetic::power2::lemma_pow2_unfold(bits.len());
    } else {
        vstd::arithmetic::power2::lemma2_to64();
    }
}

/// Assembles a byte from eight bits sent most significant first.
pub fn byte_from_msb_first(bits: [bool; 8]) -> (byte: u8)
    ensures
        byte == msb_value(bits@),
{
    let mut byte: u8 = 0;
    let mut i: usize = 0;
    proof {
        vstd::arithmetic::power2::lemma2_to64();
    }
    while i < 8
        invariant
            i <= 8,
            byte == msb_value(bits@.subrange(0, i as int)),
            byte < vstd::arithmetic::power2::pow2(i as nat),
        decreases 8 - i,
    {
        proof {
            let next = bits@.subrange(0, i + 1);
            assert(next.drop_last() == bits@.subrange(0, i as int));
            assert(next.last() == bits@[i as int]);
            lemma_msb_value_bound(next);
            vstd::arithmetic::power2::lemma2_to64();
        }
        let bit: u8 = if bits[i] {
            1
        } else {
            0
        };
        byte = byte * 2 + bit;
        i = i + 1;
    }
    proof {
        assert(bits@.subrange(0, 8) == bits@);
    }
    byte
}

/// Assembles a byte from eight bits sent least significant first.
pub fn byte_from_lsb_first(bits: [bool; 8]) -> (byte: u8)
    ensures
        byte == lsb_value(bits@),
{
    let reversed: [bool; 8] = [
        bits[7],
        bits[6],
        bits[5],
        bits[4],
        bits[3],
        bits[2],
        bits[1],
        bits[0],
    ];
    proof {
        assert(reversed@ =~= bits@.reverse());
    }
    byte_from_msb_first(reversed)
}

/// The eight bits of a byte, least significant first, as they are sent on
/// the 1-Wire bus.
pub fn byte_to_lsb_first(byte: u8) -> (bits: [bool; 8])
    ensures
        forall|i: int| 0 <= i < 8 ==> bits@[i] == ((byte >> i as u8) & 1 == 1),
{
    let mut bits = [false; 8];
    let mut i: u8 = 0;
    while i < 8
        invariant
            i <= 8,
            forall|j: int| 0 <= j < i ==> bits@[j] == ((byte >> j as u8) & 1 == 1),
        decreases 8 - i,
    {
        bits[i as usize] = (byte >> i) & 1 == 1;
        i = i + 1;
    }
    bits
}

// ------------------------------------------------------------------------
// DHT22
// ------------------------------------------------------------------------

/// Errors that may occur while interacting with the DHT22 sensor.
#[derive(Debug)]
pub enum Dht22Error<E> {
    /// GPIO pin errors.
    Pin(E),
    /// Data checksum mismatch.
    ChecksumMismatch,
    /// Timeout waiting for sensor response.
    Timeout,
}

/// The number of times a DHT22 driver polls the data line for a level
/// before it gives up.
pub const MAX_ATTEMPTS: usize = 100;

/// What a DHT22 driver does after polling the data line.
#[derive(Debug, Clone, Copy, PartialEq, Eq, Structural)]
pub enum PollStep {
    /// The wanted level was seen.
    Reached,
    /// Wait a microsecond and poll again.
    Again,
    /// Give up: the sensor did not answer.
    TimedOut,
}

/// Decides what a DHT22 driver does after its `attempt`-th poll, counting
/// from zero, saw the wanted level or not: it polls at most
/// [`MAX_ATTEMPTS`] times.
pub fn poll_step(attempt: usize, reached: bool) -> (step: PollStep)
    ensures
        reached ==> step == PollStep::Reached,
        !reached && attempt + 1 < MAX_ATTEMPTS ==> step == PollStep::Again,
        !reached && attempt + 1 >= MAX_ATTEMPTS ==> step == PollStep::TimedOut,
{
    if reached {
        PollStep::Reached
    } else if attempt < MAX_ATTEMPTS - 1 {
        PollStep::Again
    } else {
        PollStep::TimedOut
    }
}

/// The error a DHT22 driver reports when its polls ran out.
pub fn timeout<E>() -> (error: Dht22Error<E>)
    ensures
        error is Timeout,
{
    Dht22Error::Timeout
}

/// Checks the checksum of a DHT22 frame: the low eight bits of the sum of
/// the four data bytes.
pub fn validate_checksum<E>(hh: u8, hl: u8, th: u8, tl: u8, checksum: u8) -> (result: Result<
    (),
    Dht22Error<E>,
>)
    ensures
        result is Ok <==> (hh + hl + th + tl) % 256 == checksum,
        result matches Err(e) ==> e is ChecksumMismatch,
{
    let sum = hh.wrapping_add(hl).wrapping_add(th).wrapping_add(tl);
    if sum != checksum {
        Err(Dht22Error::ChecksumMismatch)
    } else {
        Ok(())
    }
}

/// The relative humidity in tenths of a percent: the two bytes as one
/// number, most significant first.
pub fn decode_humidity_tenths(high: u8, low: u8) -> (tenths: u16)
    ensures
        tenths == high * 256 + low,
{
    (high as u16) * 256 + (low as u16)
}

/// The temperature in tenths of a degree Celsius: the magnitude in the low
/// fifteen bits of the two bytes, most significant first, negative when the
/// top bit is set.
pub fn decode_temperature_tenths(high: u8, low: u8) -> (tenths: i32)
    ensures
        tenths == if high >= 128 {
            -((high - 128) * 256 + low)
        } else {
            high * 256 + low
        },
{
    let magnitude = ((high & 0x7f) as i32) * 256 + (low as i32);
    assert(high & 0x7fu8 == if high >= 128 { (high - 128) as u8 } else { high }) by (bit_vector);
    assert((high & 0x80u8 != 0) == (high >= 128)) by (bit_vector);
    if high & 0x80 != 0 {
        -magnitude
    } else {
        magnitude
    }
}

// ------------------------------------------------------------------------
// DS18B20
// ------------------------------------------------------------------------

/// Errors that may occur while interacting with the DS18B20 sensor.
#[derive(Debug)]
pub enum Ds18b20Error<E> {
    /// GPIO pin I/O error.
    Pin(E),
    /// Data integrity error (CRC check failed).
    CrcMismatch,
    /// No presence pulse detected (sensor not found on bus).
    NoPresence,
}

/// The `Skip ROM` command: address the only sensor on the bus.
pub const CMD_SKIP_ROM: u8 = 0xcc;
/// The `Convert T` command: start a temperature conversion.
pub const CMD_CONVERT_T: u8 = 0x44;
/// The `Read Scratchpad` command.
pub const CMD_READ_SCRATCHPAD: u8 = 0xbe;
/// The longest conversion time in milliseconds, at 12-bit resolution.
pub const CONVERSION_WAIT_MS: u32 = 750;

/// Checks that a sensor answered a bus reset with its presence pulse.
pub fn require_presence<E>(present: bool) -> (result: Result<(), Ds18b20Error<E>>)
    ensures
        result is Ok <==> present,
        result matches Err(e) ==> e is NoPresence,
{
    if present {
        Ok(())
    } else {
        Err(Ds18b20Error::NoPresence)
    }
}

/// One step of the Dallas/Maxim CRC-8 (reflected polynomial `0x8C`) on the
/// lowest bit of `b`.
pub open spec fn crc_step(crc: u8, b: u8) -> u8 {
    if (crc ^ b) & 1 != 0 {
        (crc >> 1u8) ^ 0x8c
    } else {
        crc >> 1u8
    }
}

/// The CRC-8 register after feeding the `k` lowest bits of `byte`, lowest
/// first.
pub open spec fn crc_bits(crc: u8, byte: u8, k: nat) -> u8
    decreases k,
{
    if k == 0 {
        crc
    } else {
        crc_bits(crc_step(crc, byte), byte >> 1u8, (k - 1) as nat)
    }
}

/// The Dallas/Maxim CRC-8 of a byte sequence, starting from zero.
pub open spec fn crc8_of(data: Seq<u8>) -> u8
    decreases data.len(),
{
    if data.len() == 0 {
        0
    } else {
        crc_bits(crc8_of(data.drop_last()), data.last(), 8)
    }
}

/// Computes the Dallas/Maxim CRC-8 of `data`.
pub fn crc8(data: &[u8]) -> (crc: u8)
    ensures
        crc == crc8_of(data@),
{
    let mut crc: u8 = 0;
    let mut i: usize = 0;
    while i < data.len()
        invariant
            i <= data@.len(),
            crc == crc8_of(data@.subrange(0, i as int)),
        decreases data.len() - i,
    {
        let byte = data[i];
        let mut b = byte;
        let mut k: u8 = 0;
        let ghost start = crc;
        assert(byte >> 0u8 == byte) by (bit_vector);
        while k < 8
            invariant
                k <= 8,
                b == byte >> k,
                crc_bits(start, byte, 8) == crc_bits(crc, b, (8 - k) as nat),
            decreases 8 - k,
        {
            let mix = (crc ^ b) & 0x01;
            let shifted = crc >> 1;
            let next = if mix != 0 {
                shifted ^ 0x8c
            } else {
                shifted
            };
            proof {
                assert(next == crc_step(crc, b));
                assert(b >> 1u8 == byte >> ((k + 1) as u8)) by (bit_vector)
                    requires
                        b == byte >> k,
                        k < 8,
                ;
            }
            crc = next;
            b = b >> 1;
            k = k + 1;
        }
        proof {
            let next = data@.subrange(0, i + 1);
            assert(next.drop_last() == data@.subrange(0, i as int));
            assert(next.last() == byte);
        }
        i = i + 1;
    }
    proof {
        assert(data@.subrange(0, data@.len() as int) == data@);
    }
    crc
}

/// The raw DS18B20 temperature: the two bytes as a 16-bit two's complement
/// number, least significant byte first, in sixteenths of a degree Celsius.
pub open spec fn raw_temperature(low: u8, high: u8) -> int {
    if high >= 128 {
        high * 256 + low - 65536
    } else {
        high * 256 + low
    }
}

/// Checks a 9-byte DS18B20 scratchpad against its CRC and returns the raw
/// temperature, in sixteenths of a degree Celsius.
pub fn check_scratchpad<E>(data: [u8; 9]) -> (result: Result<i16, Ds18b20Error<E>>)
    ensures
        result is Ok <==> crc8_of(data@.subrange(0, 8)) == data@[8],
        result matches Ok(raw) ==> raw == raw_temperature(data@[0], data@[1]),
        result matches Err(e) ==> e is CrcMismatch,
{
    let crc = crc8(&data[0..8]);
    if crc != data[8] {
        return Err(Ds18b20Error::CrcMismatch);
    }
    let low = data[0];
    let high = data[1];
    let raw: i32 = (high as i32) * 256 + (low as i32);
    if high >= 128 {
        Ok((raw - 65536) as i16)
    } else {
        Ok(raw as i16)
    }
}

} // verus!
