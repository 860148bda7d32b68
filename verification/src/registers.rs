//! Register map and named bit patterns of the BMP280.

use vstd::prelude::*;

verus! {

/// Bus address on which the device answers.
#[derive(Clone, Copy, Debug, PartialEq, Eq, Structural)]
pub enum Address {
    Primary,
    Secondary,
}

impl Address {
    /// The seven-bit bus address.
    pub open spec fn spec_value(self) -> u8 {
        match self {
            Address::Primary => 0x76,
            Address::Secondary => 0x77,
        }
    }

    #[verifier::when_used_as_spec(spec_value)]
    pub fn value(self) -> (r: u8)
        ensures
            r == self.spec_value(),
    {
        match self {
            Address::Primary => 0x76,
            Address::Secondary => 0x77,
        }
    }
}

/// Registers of the device that the driver reads or writes.
#[derive(Clone, Copy, Debug, PartialEq, Eq, Structural)]
pub enum Register {
    ID,
    DigT1,
    DigT2,
    DigT3,
    DigP1,
    DigP2,
    DigP3,
    DigP4,
    DigP5,
    DigP6,
    DigP7,
    DigP8,
    DigP9,
    Status,
    Control,
    Config,
    Pressure,
    Temperature,
}

impl Register {
    /// Sub-address of the register's first byte.
    pub open spec fn spec_address(self) -> u8 {
        match self {
            Register::ID => 0xD0,
            Register::DigT1 => 0x88,
            Register::DigT2 => 0x8A,
            Register::DigT3 => 0x8C,
            Register::DigP1 => 0x8E,
            Register::DigP2 => 0x90,
            Register::DigP3 => 0x92,
            Register::DigP4 => 0x94,
            Register::DigP5 => 0x96,
            Register::DigP6 => 0x98,
            Register::DigP7 => 0x9A,
            Register::DigP8 => 0x9C,
            Register::DigP9 => 0x9E,
            Register::Status => 0xF3,
            Register::Control => 0xF4,
            Register::Config => 0xF5,
            Register::Pressure => 0xF7,
            Register::Temperature => 0xFA,
        }
    }

    /// Number of consecutive bytes the register spans.
    pub open spec fn spec_width(self) -> usize {
        match self {
            Register::ID | Register::Status | Register::Control | Register::Config => 1,
            Register::Pressure | Register::Temperature => 3,
            _ => 2,
        }
    }

    /// Whether the register holds one of the twelve calibration words.
    pub open spec fn is_calibration(self) -> bool {
        self.spec_width() == 2
    }

    #[verifier::when_used_as_spec(spec_address)]
    pub fn address(self) -> (r: u8)
        ensures
            r == self.spec_address(),
    {
        match self {
            Register::ID => 0xD0,
            Register::DigT1 => 0x88,
            Register::DigT2 => 0x8A,
            Register::DigT3 => 0x8C,
            Register::DigP1 => 0x8E,
            Register::DigP2 => 0x90,
            Register::DigP3 => 0x92,
            Register::DigP4 => 0x94,
            Register::DigP5 => 0x96,
            Register::DigP6 => 0x98,
            Register::DigP7 => 0x9A,
            Register::DigP8 => 0x9C,
            Register::DigP9 => 0x9E,
            Register::Status => 0xF3,
            Register::Control => 0xF4,
            Register::Config => 0xF5,
            Register::Pressure => 0xF7,
            Register::Temperature => 0xFA,
        }
    }

    #[verifier::when_used_as_spec(spec_width)]
    pub fn width(self) -> (r: usize)
        ensures
            r == self.spec_width(),
    {
        match self {
            Register::ID | Register::Status | Register::Control | Register::Config => 1,
            Register::Pressure | Register::Temperature => 3,
            _ => 2,
        }
    }
}

/// The registers are laid out without overlap: two different registers never
/// share a byte of the device's address space.
pub proof fn lemma_registers_disjoint(a: Register, b: Register)
    requires
        a != b,
    ensures
        a.spec_address() + a.spec_width() <= b.spec_address() || b.spec_address()
            + b.spec_width() <= a.spec_address(),
{
}

/// Field of the control register that a pattern belongs to.
#[derive(Clone, Copy, Debug, PartialEq, Eq, Structural)]
pub enum ControlField {
    /// Bits 7:5.
    TemperatureOversampling,
    /// Bits 4:2.
    PressureOversampling,
    /// Bits 1:0.
    PowerMode,
}

impl ControlField {
    /// The bits of the control register that the field occupies.
    pub open spec fn mask(self) -> u8 {
        match self {
            ControlField::TemperatureOversampling => 0b111_000_00,
            ControlField::PressureOversampling => 0b000_111_00,
            ControlField::PowerMode => 0b000_000_11,
        }
    }
}

/// Named bit patterns of the control register.
#[derive(Clone, Copy, Debug, PartialEq, Eq, Structural)]
pub enum Control {
    TemperatureOversamplingX1,
    TemperatureOversamplingX2,
    TemperatureOversamplingX4,
    TemperatureOversamplingX8,
    TemperatureOversamplingX16,
    PressureOversamplingX1,
    PressureOversamplingX2,
    PressureOversamplingX4,
    PressureOversamplingX8,
    PressureOversamplingX16,
    NormalMode,
}

impl Control {
    pub open spec fn spec_bits(self) -> u8 {
        match self {
            Control::TemperatureOversamplingX1 => 0b001_000_00,
            Control::TemperatureOversamplingX2 => 0b010_000_00,
            Control::TemperatureOversamplingX4 => 0b011_000_00,
            Control::TemperatureOversamplingX8 => 0b100_000_00,
            Control::TemperatureOversamplingX16 => 0b101_000_00,
            Control::PressureOversamplingX1 => 0b000_001_00,
            Control::PressureOversamplingX2 => 0b000_010_00,
            Control::PressureOversamplingX4 => 0b000_011_00,
            Control::PressureOversamplingX8 => 0b000_100_00,
            Control::PressureOversamplingX16 => 0b000_101_00,
            Control::NormalMode => 0b000_000_11,
        }
    }

    /// The field that the pattern sets.
    pub open spec fn field(self) -> ControlField {
        match self {
            Control::TemperatureOversamplingX1
            | Control::TemperatureOversamplingX2
            | Control::TemperatureOversamplingX4
            | Control::TemperatureOversamplingX8
            | Control::TemperatureOversamplingX16 => ControlField::TemperatureOversampling,
            Control::PressureOversamplingX1
            | Control::PressureOversamplingX2
            | Control::PressureOversamplingX4
            | Control::PressureOversamplingX8
            | Control::PressureOversamplingX16 => ControlField::PressureOversampling,
            Control::NormalMode => ControlField::PowerMode,
        }
    }

    /// The pattern as a byte, ready to be or-ed with patterns of other fields.
    #[verifier::when_used_as_spec(spec_bits)]
    pub fn bits(self) -> (r: u8)
        ensures
            r == self.spec_bits(),
    {
        match self {
            Control::TemperatureOversamplingX1 => 0b001_000_00,
            Control::TemperatureOversamplingX2 => 0b010_000_00,
            Control::TemperatureOversamplingX4 => 0b011_000_00,
            Control::TemperatureOversamplingX8 => 0b100_000_00,
            Control::TemperatureOversamplingX16 => 0b101_000_00,
            Control::PressureOversamplingX1 => 0b000_001_00,
            Control::PressureOversamplingX2 => 0b000_010_00,
            Control::PressureOversamplingX4 => 0b000_011_00,
            Control::PressureOversamplingX8 => 0b000_100_00,
            Control::PressureOversamplingX16 => 0b000_101_00,
            Control::NormalMode => 0b000_000_11,
        }
    }
}

/// A control pattern is non-zero and touches no bit outside its own field.
pub proof fn lemma_control_within_field(c: Control)
    ensures
        c.spec_bits() != 0,
        c.spec_bits() & !c.field().mask() == 0,
{
    let b = c.spec_bits();
    let m = c.field().mask();
    assert(b & !m == 0) by (bit_vector)
        requires
            (m == 0b111_000_00u8 && (b == 0b001_000_00u8 || b == 0b010_000_00u8 || b
                == 0b011_000_00u8 || b == 0b100_000_00u8 || b == 0b101_000_00u8)) || (m
                == 0b000_111_00u8 && (b == 0b000_001_00u8 || b == 0b000_010_00u8 || b
                == 0b000_011_00u8 || b == 0b000_100_00u8 || b == 0b000_101_00u8)) || (m
                == 0b000_000_11u8 && b == 0b000_000_11u8),
    ;
}

/// Or-ing patterns of the three different fields loses nothing: each field of
/// the combined byte reads back as the pattern that was put there.
pub proof fn lemma_control_fields_independent(t: Control, p: Control, m: Control)
    requires
        t.field() == ControlField::TemperatureOversampling,
        p.field() == ControlField::PressureOversampling,
        m.field() == ControlField::PowerMode,
    ensures
        ({
            let byte = t.spec_bits() | p.spec_bits() | m.spec_bits();
            &&& byte & ControlField::TemperatureOversampling.mask() == t.spec_bits()
            &&& byte & ControlField::PressureOversampling.mask() == p.spec_bits()
            &&& byte & ControlField::PowerMode.mask() == m.spec_bits()
        }),
{
    let tb = t.spec_bits();
    let pb = p.spec_bits();
    let mb = m.spec_bits();
    lemma_control_within_field(t);
    lemma_control_within_field(p);
    lemma_control_within_field(m);
    assert((tb | pb | mb) & 0b111_000_00u8 == tb && (tb | pb | mb) & 0b000_111_00u8 == pb && (tb
        | pb | mb) & 0b000_000_11u8 == mb) by (bit_vector)
        requires
            tb & !0b111_000_00u8 == 0,
            pb & !0b000_111_00u8 == 0,
            mb & !0b000_000_11u8 == 0,
    ;
}

/// Named bit patterns of the config register: the standby interval between
/// two measurements in normal mode, in bits 7:5.
#[derive(Clone, Copy, Debug, PartialEq, Eq, Structural)]
pub enum Config {
    Standby62_5MS,
    Standby125MS,
    Standby250MS,
    Standby500MS,
    Standby1000MS,
    Standby2000MS,
    Standby4000MS,
}

impl Config {
    pub open spec fn spec_bits(self) -> u8 {
        match self {
            Config::Standby62_5MS => 0b001_000_00,
            Config::Standby125MS => 0b010_000_00,
            Config::Standby250MS => 0b011_000_00,
            Config::Standby500MS => 0b100_000_00,
            Config::Standby1000MS => 0b101_000_00,
            Config::Standby2000MS => 0b110_000_00,
            Config::Standby4000MS => 0b111_000_00,
        }
    }

    /// Standby interval in microseconds.
    pub open spec fn interval_us(self) -> nat {
        match self {
            Config::Standby62_5MS => 62_500,
            Config::Standby125MS => 125_000,
            Config::Standby250MS => 250_000,
            Config::Standby500MS => 500_000,
            Config::Standby1000MS => 1_000_000,
            Config::Standby2000MS => 2_000_000,
            Config::Standby4000MS => 4_000_000,
        }
    }

    /// The pattern as a byte.
    #[verifier::when_used_as_spec(spec_bits)]
    pub fn bits(self) -> (r: u8)
        ensures
            r == self.spec_bits(),
    {
        match self {
            Config::Standby62_5MS => 0b001_000_00,
            Config::Standby125MS => 0b010_000_00,
            Config::Standby250MS => 0b011_000_00,
            Config::Standby500MS => 0b100_000_00,
            Config::Standby1000MS => 0b101_000_00,
            Config::Standby2000MS => 0b110_000_00,
            Config::Standby4000MS => 0b111_000_00,
        }
    }
}

/// A standby pattern is non-zero and lies in bits 7:5; the filter bits below
/// stay clear.
pub proof fn lemma_config_within_field(c: Config)
    ensures
        c.spec_bits() != 0,
        c.spec_bits() & 0b000_111_11 == 0,
{
    let b = c.spec_bits();
    assert(b & 0b000_111_11u8 == 0) by (bit_vector)
        requires
            b == 0b001_000_00u8 || b == 0b010_000_00u8 || b == 0b011_000_00u8 || b
                == 0b100_000_00u8 || b == 0b101_000_00u8 || b == 0b110_000_00u8 || b
                == 0b111_000_00u8,
    ;
}

} // verus!
