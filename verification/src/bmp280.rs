//! Driver for the BMP280 barometric sensor.
//!
//! The contracts of the driver speak of the history of its transport: which
//! transfers an operation adds to it, in which order, and how the result of
//! the operation follows from what the transport returned. They hold of
//! every transport that keeps its history as [`Bus`] asks.

use vstd::prelude::*;
use crate::bus::Bus;
pub use crate::bus::{read_outcome, Transfer};
use crate::calibration::{calibration_register, Calibration};
use crate::codec::{adc_code, decode_adc, is_adc_code, u16_from_le, word_le};
pub use crate::registers::{Address, Config, Control, Register};

verus! {

/// The ADC codes of one pressure measurement. Pressure compensation needs
/// the temperature code of the same moment, so both are read together.
#[derive(Clone, Copy, Debug, PartialEq, Eq, Structural)]
pub struct RawSample {
    pub temperature: i32,
    pub pressure: i32,
}

impl RawSample {
    /// Both codes fit a 20-bit two's complement field.
    pub open spec fn wf(self) -> bool {
        is_adc_code(self.temperature as int) && is_adc_code(self.pressure as int)
    }

    /// The sample that the contents of the two data registers stand for.
    pub open spec fn spec_from_registers(temperature: Seq<u8>, pressure: Seq<u8>) -> RawSample
        recommends
            temperature.len() == 3,
            pressure.len() == 3,
    {
        RawSample {
            temperature: adc_code(temperature[0], temperature[1], temperature[2]) as i32,
            pressure: adc_code(pressure[0], pressure[1], pressure[2]) as i32,
        }
    }

    /// Decodes the contents of the temperature and the pressure data
    /// registers. The temperature code is decoded exactly as a lone
    /// temperature reading decodes it.
    pub fn from_registers(temperature: &[u8; 3], pressure: &[u8; 3]) -> (s: RawSample)
        ensures
            s == Self::spec_from_registers(temperature@, pressure@),
            s.temperature == adc_code(temperature[0], temperature[1], temperature[2]),
            s.pressure == adc_code(pressure[0], pressure[1], pressure[2]),
            s.wf(),
    {
        RawSample {
            temperature: decode_adc(temperature[0], temperature[1], temperature[2]),
            pressure: decode_adc(pressure[0], pressure[1], pressure[2]),
        }
    }
}

/// The read of `register` on the device at `address`: its sub-address is
/// sent, then as many bytes are read as the register is wide.
pub open spec fn register_read<E>(
    address: Address,
    register: Register,
    outcome: Result<Seq<u8>, E>,
) -> Transfer<E> {
    Transfer::WriteRead {
        device: address.spec_value(),
        bytes: seq![register.spec_address()],
        length: register.spec_width() as nat,
        outcome,
    }
}

/// The write of `value` to `register` on the device at `address`: the
/// sub-address and the value are sent in one frame.
pub open spec fn register_write<E>(
    address: Address,
    register: Register,
    value: u8,
    outcome: Result<(), E>,
) -> Transfer<E> {
    Transfer::Write {
        device: address.spec_value(),
        bytes: seq![register.spec_address(), value],
        outcome,
    }
}

/// What a read of a one-byte register returns for an answer.
pub open spec fn byte_of<E>(answer: Result<Seq<u8>, E>) -> Result<u8, E> {
    match answer {
        Ok(bytes) => Ok(bytes[0]),
        Err(error) => Err(error),
    }
}

/// What a read of a calibration word returns for an answer: the two bytes
/// as a little-endian word.
pub open spec fn word_of<E>(answer: Result<Seq<u8>, E>) -> Result<u16, E> {
    match answer {
        Ok(bytes) => Ok(word_le(bytes[0], bytes[1]) as u16),
        Err(error) => Err(error),
    }
}

/// What a read of a data register returns for an answer: the signed ADC
/// code of the three bytes.
pub open spec fn code_of<E>(answer: Result<Seq<u8>, E>) -> Result<i32, E> {
    match answer {
        Ok(bytes) => Ok(adc_code(bytes[0], bytes[1], bytes[2]) as i32),
        Err(error) => Err(error),
    }
}

/// A lone temperature reading and the temperature half of a pressure
/// reading decode the same register contents to the same code, whatever
/// the pressure register holds.
pub proof fn lemma_temperature_codes_agree<E>(temperature: Seq<u8>, pressure: Seq<u8>)
    ensures
        code_of::<E>(Ok(temperature)) == Ok::<i32, E>(
            RawSample::spec_from_registers(temperature, pressure).temperature,
        ),
{
}

/// Whether a transfer names a calibration register: its first byte is a
/// sub-address from `dig_t1` to the end of `dig_p9`.
pub open spec fn touches_calibration<E>(transfer: Transfer<E>) -> bool {
    let bytes = match transfer {
        Transfer::Write { bytes, .. } => bytes,
        Transfer::WriteRead { bytes, .. } => bytes,
    };
    bytes.len() > 0 && 0x88 <= bytes[0] < 0xA0
}

/// What a read into an array returned, as the outcome of its transfer.
pub open spec fn array_outcome<E, const N: usize>(result: Result<[u8; N], E>) -> Result<
    Seq<u8>,
    E,
> {
    match result {
        Ok(data) => Ok(data@),
        Err(error) => Err(error),
    }
}

/// Whether the `count` transfers of `history` from position `from` on are
/// the reads of the first `count` calibration words on the device at
/// `address`, in register order and each answered.
pub open spec fn reads_words<E>(
    history: Seq<Transfer<E>>,
    from: int,
    address: Address,
    count: int,
) -> bool {
    &&& 0 <= from
    &&& from + count <= history.len()
    &&& forall|i: int|
        0 <= i < count ==> {
            &&& (#[trigger] history[from + i]).answered()
            &&& history[from + i] == register_read(
                address,
                calibration_register(i),
                history[from + i].answer(),
            )
        }
}

/// The calibration words that the twelve transfers of `history` from
/// position `from` on were answered with.
pub open spec fn words_at<E>(history: Seq<Transfer<E>>, from: int) -> Seq<u16> {
    Seq::new(12, |i: int| word_of(history[from + i].answer())->Ok_0)
}

/// One sensor on one transport, with the calibration read from it.
pub struct BMP280<I2C: Bus> {
    i2c: I2C,
    address: Address,
    calibration: Calibration,
    start: Ghost<nat>,
}

impl<I2C: Bus> BMP280<I2C> {
    /// The bus address the driver talks to.
    pub closed spec fn spec_address(&self) -> Address {
        self.address
    }

    /// The calibration read at construction.
    pub closed spec fn spec_calibration(&self) -> Calibration {
        self.calibration
    }

    /// The history of the driver's transport: what it was asked for before
    /// the driver took it, then every transfer the driver asked of it.
    pub closed spec fn transfers(&self) -> Seq<Transfer<I2C::Error>> {
        self.i2c.history()
    }

    /// How long the history of the transport was when the driver took it.
    pub closed spec fn spec_start(&self) -> nat {
        self.start@
    }

    /// The calibration words that the driver's first twelve transfers were
    /// answered with.
    pub open spec fn words_read(&self) -> Seq<u16> {
        words_at(self.transfers(), self.spec_start() as int)
    }

    /// What construction establishes and every operation preserves: the
    /// driver's own transfers begin with the twelve calibration reads, in
    /// register order and each answered; the calibration is what those
    /// answers stand for; and no later transfer names a calibration
    /// register. So the coefficients are read exactly once.
    pub open spec fn calibrated(&self) -> bool {
        &&& reads_words(self.transfers(), self.spec_start() as int, self.spec_address(), 12)
        &&& self.spec_calibration() == Calibration::spec_from_words(self.words_read())
        &&& forall|i: int|
            self.spec_start() + 12 <= i < self.transfers().len() ==> !touches_calibration(
                #[trigger] self.transfers()[i],
            )
    }

    /// Whether two states of the driver are states of one device: the
    /// address, the calibration and the place in the history where the
    /// driver began never change after construction.
    pub open spec fn same_device(&self, other: &Self) -> bool {
        &&& self.spec_address() == other.spec_address()
        &&& self.spec_calibration() == other.spec_calibration()
        &&& self.spec_start() == other.spec_start()
    }

    /// Whether the transport was, since the state `before`, asked for
    /// exactly one transfer: the read of `register`.
    pub open spec fn has_read(&self, before: &Self, register: Register) -> bool {
        &&& self.same_device(before)
        &&& self.transfers() == before.transfers().push(
            register_read(before.spec_address(), register, self.transfers().last().answer()),
        )
        &&& self.transfers().last().answer() is Ok ==> self.transfers().last().answered()
    }

    /// Whether the transport was, since the state `before`, asked for
    /// exactly one transfer: the write of `value` to `register`, with the
    /// given outcome.
    pub open spec fn has_written(
        &self,
        before: &Self,
        register: Register,
        value: u8,
        outcome: Result<(), I2C::Error>,
    ) -> bool {
        &&& self.same_device(before)
        &&& self.transfers() == before.transfers().push(
            register_write(before.spec_address(), register, value, outcome),
        )
    }

    /// Reads the calibration words of the device at `address`, in register
    /// order, and stops at the first read that fails. On success the
    /// transport was asked for twelve reads, all answered, and the profile
    /// is what the answers stand for. On failure every read but the last
    /// was answered, the last is the read of the next word in order, and
    /// the error is the one the transport returned for it.
    pub fn read_calibration(i2c: &mut I2C, address: Address) -> (r: Result<
        Calibration,
        I2C::Error,
    >)
        ensures
            ({
                let before = old(i2c).history();
                let after = final(i2c).history();
                let made = after.len() - before.len();
                &&& after.subrange(0, before.len() as int) == before
                &&& match r {
                    Ok(calibration) => {
                        &&& made == 12
                        &&& reads_words(after, before.len() as int, address, 12)
                        &&& calibration == Calibration::spec_from_words(
                            words_at(after, before.len() as int),
                        )
                    },
                    Err(error) => {
                        &&& 1 <= made <= 12
                        &&& reads_words(after, before.len() as int, address, made - 1)
                        &&& after.last() == register_read(
                            address,
                            calibration_register(made - 1),
                            Err(error),
                        )
                    },
                }
            }),
    {
        let words: [u16; 12] = [
            Self::read_register_u16(i2c, address, Register::DigT1)?,
            Self::read_register_u16(i2c, address, Register::DigT2)?,
            Self::read_register_u16(i2c, address, Register::DigT3)?,
            Self::read_register_u16(i2c, address, Register::DigP1)?,
            Self::read_register_u16(i2c, address, Register::DigP2)?,
            Self::read_register_u16(i2c, address, Register::DigP3)?,
            Self::read_register_u16(i2c, address, Register::DigP4)?,
            Self::read_register_u16(i2c, address, Register::DigP5)?,
            Self::read_register_u16(i2c, address, Register::DigP6)?,
            Self::read_register_u16(i2c, address, Register::DigP7)?,
            Self::read_register_u16(i2c, address, Register::DigP8)?,
            Self::read_register_u16(i2c, address, Register::DigP9)?,
        ];
        assert(words@ =~= words_at(i2c.history(), old(i2c).history().len() as int));
        Ok(Calibration::from_words(&words))
    }

    /// Binds the transport and reads the twelve calibration words, in
    /// register order. The first transfer that fails ends the construction
    /// with the transport's error.
    pub fn new(i2c: I2C, address: Address) -> (r: Result<Self, I2C::Error>)
        ensures
            r matches Ok(driver) ==> {
                &&& driver.spec_address() == address
                &&& driver.spec_start() == i2c.history().len()
                &&& driver.transfers().len() == i2c.history().len() + 12
                &&& driver.transfers().subrange(0, i2c.history().len() as int) == i2c.history()
                &&& driver.calibrated()
            },
    {
        let mut i2c = i2c;
        let ghost start = i2c.history().len();
        let calibration = Self::read_calibration(&mut i2c, address)?;
        Ok(Self { i2c, address, calibration, start: Ghost(start) })
    }

    #[verifier::when_used_as_spec(spec_address)]
    pub fn address(&self) -> (a: Address)
        ensures
            a == self.spec_address(),
    {
        self.address
    }

    #[verifier::when_used_as_spec(spec_calibration)]
    pub fn calibration(&self) -> (c: Calibration)
        ensures
            c == self.spec_calibration(),
    {
        self.calibration
    }

    /// Reads the identification register.
    pub fn id(&mut self) -> (r: Result<u8, I2C::Error>)
        ensures
            old(self).calibrated() ==> final(self).calibrated(),
            final(self).has_read(old(self), Register::ID),
            r == byte_of(final(self).transfers().last().answer()),
    {
        Self::read_register_u8(&mut self.i2c, self.address, Register::ID)
    }

    /// Reads the status register.
    pub fn status(&mut self) -> (r: Result<u8, I2C::Error>)
        ensures
            old(self).calibrated() ==> final(self).calibrated(),
            final(self).has_read(old(self), Register::Status),
            r == byte_of(final(self).transfers().last().answer()),
    {
        Self::read_register_u8(&mut self.i2c, self.address, Register::Status)
    }

    /// Reads the control register.
    pub fn control(&mut self) -> (r: Result<u8, I2C::Error>)
        ensures
            old(self).calibrated() ==> final(self).calibrated(),
            final(self).has_read(old(self), Register::Control),
            r == byte_of(final(self).transfers().last().answer()),
    {
        Self::read_register_u8(&mut self.i2c, self.address, Register::Control)
    }

    /// Writes the control register.
    pub fn set_control(&mut self, value: u8) -> (r: Result<(), I2C::Error>)
        ensures
            old(self).calibrated() ==> final(self).calibrated(),
            final(self).has_written(old(self), Register::Control, value, r),
    {
        Self::write_register_u8(&mut self.i2c, self.address, Register::Control, value)
    }

    /// Reads the config register.
    pub fn config(&mut self) -> (r: Result<u8, I2C::Error>)
        ensures
            old(self).calibrated() ==> final(self).calibrated(),
            final(self).has_read(old(self), Register::Config),
            r == byte_of(final(self).transfers().last().answer()),
    {
        Self::read_register_u8(&mut self.i2c, self.address, Register::Config)
    }

    /// Writes the config register.
    pub fn set_config(&mut self, value: u8) -> (r: Result<(), I2C::Error>)
        ensures
            old(self).calibrated() ==> final(self).calibrated(),
            final(self).has_written(old(self), Register::Config, value, r),
    {
        Self::write_register_u8(&mut self.i2c, self.address, Register::Config, value)
    }

    /// Reads the temperature data register and decodes its ADC code.
    pub fn raw_temperature(&mut self) -> (r: Result<i32, I2C::Error>)
        ensures
            old(self).calibrated() ==> final(self).calibrated(),
            final(self).has_read(old(self), Register::Temperature),
            r == code_of(final(self).transfers().last().answer()),
            r matches Ok(code) ==> is_adc_code(code as int),
    {
        let raw = Self::read_register_bytes(&mut self.i2c, self.address, Register::Temperature)?;
        Ok(decode_adc(raw[0], raw[1], raw[2]))
    }

    /// Reads the temperature data register, then the pressure data register,
    /// and decodes both ADC codes. Where the first read fails the second is
    /// not made. The transport is asked for nothing else in between.
    pub fn raw_sample(&mut self) -> (r: Result<RawSample, I2C::Error>)
        ensures
            old(self).calibrated() ==> final(self).calibrated(),
            final(self).same_device(old(self)),
            ({
                let before = old(self).transfers();
                let after = final(self).transfers();
                let address = old(self).spec_address();
                let first = after[before.len() as int];
                let second = after[before.len() as int + 1];
                match r {
                    Ok(sample) => {
                        &&& first.answered()
                        &&& second.answered()
                        &&& after == before.push(
                            register_read(address, Register::Temperature, first.answer()),
                        ).push(register_read(address, Register::Pressure, second.answer()))
                        &&& sample == RawSample::spec_from_registers(
                            first.answer()->Ok_0,
                            second.answer()->Ok_0,
                        )
                        &&& sample.wf()
                    },
                    Err(error) => {
                        ||| after == before.push(
                            register_read(address, Register::Temperature, Err(error)),
                        )
                        ||| {
                            &&& first.answered()
                            &&& after == before.push(
                                register_read(address, Register::Temperature, first.answer()),
                            ).push(register_read(address, Register::Pressure, Err(error)))
                        }
                    },
                }
            }),
    {
        let temperature = Self::read_register_bytes(
            &mut self.i2c,
            self.address,
            Register::Temperature,
        )?;
        let pressure = Self::read_register_bytes(&mut self.i2c, self.address, Register::Pressure)?;
        Ok(RawSample::from_registers(&temperature, &pressure))
    }

    fn write_register_u8(i2c: &mut I2C, address: Address, register: Register, value: u8) -> (r:
        Result<(), I2C::Error>)
        ensures
            final(i2c).history() == old(i2c).history().push(
                register_write(address, register, value, r),
            ),
    {
        let frame: [u8; 2] = [register.address(), value];
        let r = i2c.write(address.value(), &frame);
        assert(frame@ =~= seq![register.spec_address(), value]);
        r
    }

    fn read_register<const N: usize>(i2c: &mut I2C, address: Address, register: Register) -> (r:
        Result<[u8; N], I2C::Error>)
        requires
            register.spec_width() == N,
        ensures
            final(i2c).history() == old(i2c).history().push(
                register_read(address, register, array_outcome(r)),
            ),
    {
        let mut data: [u8; N] = [0; N];
        let command: [u8; 1] = [register.address()];
        let r = i2c.write_read(address.value(), &command, &mut data);
        assert(command@ =~= seq![register.spec_address()]);
        match r {
            Ok(_) => Ok(data),
            Err(error) => Err(error),
        }
    }

    fn read_register_u8(i2c: &mut I2C, address: Address, register: Register) -> (r: Result<
        u8,
        I2C::Error,
    >)
        requires
            register.spec_width() == 1,
        ensures
            final(i2c).history() == old(i2c).history().push(
                register_read(address, register, final(i2c).history().last().answer()),
            ),
            final(i2c).history().last().answer() is Ok ==> final(i2c).history().last().answered(),
            r == byte_of(final(i2c).history().last().answer()),
    {
        let data = Self::read_register::<1>(i2c, address, register)?;
        Ok(data[0])
    }

    fn read_register_u16(i2c: &mut I2C, address: Address, register: Register) -> (r: Result<
        u16,
        I2C::Error,
    >)
        requires
            register.spec_width() == 2,
        ensures
            final(i2c).history() == old(i2c).history().push(
                register_read(address, register, final(i2c).history().last().answer()),
            ),
            final(i2c).history().last().answer() is Ok ==> final(i2c).history().last().answered(),
            r == word_of(final(i2c).history().last().answer()),
    {
        let data = Self::read_register::<2>(i2c, address, register)?;
        Ok(u16_from_le(data[0], data[1]))
    }

    fn read_register_bytes(i2c: &mut I2C, address: Address, register: Register) -> (r: Result<
        [u8; 3],
        I2C::Error,
    >)
        requires
            register.spec_width() == 3,
        ensures
            final(i2c).history() == old(i2c).history().push(
                register_read(address, register, array_outcome(r)),
            ),
            r is Ok ==> final(i2c).history().last().answered(),
    {
        Self::read_register::<3>(i2c, address, register)
    }
}

} // verus!
