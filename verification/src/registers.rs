//! The register maps of the devices and the decoding of what their registers hold.
use vstd::prelude::*;
use crate::words::{pair_value, signed16, words_to_i32, word_as_i16};

verus! {

/// Which register table a quantity lives in.
#[derive(Clone, Copy, Debug, PartialEq, Eq)]
pub enum RegisterTable {
    /// Input registers, read with function 0x04.
    Input,
    /// Holding registers, read with function 0x03.
    Holding,
}

/// How the words of a register read are turned into a number.
#[derive(Clone, Copy, Debug, PartialEq, Eq)]
pub enum Format {
    /// The first word, unsigned.
    Unsigned16,
    /// The first word, two's complement.
    Signed16,
    /// The first two words, low word first, two's complement.
    Signed32,
}

impl Format {
    /// How many words the decoding looks at.
    pub open spec fn spec_width(self) -> nat {
        match self {
            Format::Signed32 => 2,
            _ => 1,
        }
    }

    /// How many words the decoding looks at.
    pub fn width(&self) -> (n: usize)
        ensures
            n == self.spec_width(),
    {
        match self {
            Format::Signed32 => 2,
            _ => 1,
        }
    }
}

/// The number that `words` hold in `format`.
pub open spec fn decoded(format: Format, words: Seq<u16>) -> int {
    match format {
        Format::Unsigned16 => words[0] as int,
        Format::Signed16 => signed16(words[0] as int),
        Format::Signed32 => pair_value(words[0] as int, words[1] as int),
    }
}

/// What each format makes of the words: the first word as is; the first word in
/// two's complement (the one number in `[-2^15, 2^15)` equal to it modulo
/// `2^16`); the first two words, low word first, in two's complement (the one
/// number in `[-2^31, 2^31)` equal to `hi * 2^16 + lo` modulo `2^32`).
pub proof fn lemma_decoded_formats(words: Seq<u16>)
    requires
        words.len() >= 2,
    ensures
        decoded(Format::Unsigned16, words) == words[0],
        -0x8000 <= decoded(Format::Signed16, words) < 0x8000,
        decoded(Format::Signed16, words) == words[0] || decoded(Format::Signed16, words)
            == words[0] - 0x1_0000,
        -0x8000_0000 <= decoded(Format::Signed32, words) < 0x8000_0000,
        decoded(Format::Signed32, words) == words[1] * 0x1_0000 + words[0] || decoded(
            Format::Signed32,
            words,
        ) == words[1] * 0x1_0000 + words[0] - 0x1_0000_0000,
{
}

/// Decodes the words of a register read. The words must be at least as many as
/// the format looks at.
pub fn decode_register(format: Format, words: &Vec<u16>) -> (r: i32)
    requires
        words.len() >= format.spec_width(),
    ensures
        r as int == decoded(format, words@),
{
    match format {
        Format::Unsigned16 => words[0] as i32,
        Format::Signed16 => word_as_i16(words[0]) as i32,
        Format::Signed32 => words_to_i32(words[0], words[1]),
    }
}

/// Where a quantity is read from, and how it is turned into a value: the
/// decoded number divided by `divisor` is the quantity in its unit.
#[derive(Clone, Copy, Debug, PartialEq, Eq)]
pub struct RegisterSpec {
    pub table: RegisterTable,
    pub address: u16,
    pub count: u16,
    pub format: Format,
    pub divisor: u16,
}

/// The quantities that the PV inverter reports.
#[derive(Clone, Copy, Debug, PartialEq, Eq)]
pub enum InverterRegister {
    GridVoltage,
    GridCurrent,
    GridPower,
    PvVoltage1,
    PvVoltage2,
    PvCurrent1,
    PvCurrent2,
    GridFrequency,
    RadiatorTemperature,
    PvPower1,
    PvPower2,
    BatteryChargeVoltage,
    BatteryChargeCurrent,
    BatteryChargePower,
    BatteryTemperature,
    BatterySoc,
    BatteryDischargeMaxCurrent,
    FeedinPower,
    UserSoc,
    BatteryChargeDischargePower,
    BatteryPowerAll,
    MachineType,
}

/// An input register read of `count` words at `address`.
pub open spec fn input(address: u16, count: u16, format: Format, divisor: u16) -> RegisterSpec {
    RegisterSpec { table: RegisterTable::Input, address, count, format, divisor }
}

fn make_input(address: u16, count: u16, format: Format, divisor: u16) -> (r: RegisterSpec)
    ensures
        r == input(address, count, format, divisor),
{
    RegisterSpec { table: RegisterTable::Input, address, count, format, divisor }
}

impl InverterRegister {
    /// The inverter's register map.
    pub open spec fn spec_register(self) -> RegisterSpec {
        match self {
            InverterRegister::GridVoltage => input(0x0000, 1, Format::Unsigned16, 10),
            InverterRegister::GridCurrent => input(0x0001, 1, Format::Signed16, 10),
            InverterRegister::GridPower => input(0x0002, 1, Format::Signed16, 1),
            InverterRegister::PvVoltage1 => input(0x0003, 1, Format::Unsigned16, 10),
            InverterRegister::PvVoltage2 => input(0x0004, 1, Format::Unsigned16, 10),
            InverterRegister::PvCurrent1 => input(0x0005, 1, Format::Unsigned16, 10),
            InverterRegister::PvCurrent2 => input(0x0006, 1, Format::Unsigned16, 10),
            InverterRegister::GridFrequency => input(0x0007, 1, Format::Unsigned16, 100),
            InverterRegister::RadiatorTemperature => input(0x0008, 1, Format::Signed16, 1),
            InverterRegister::PvPower1 => input(0x000A, 1, Format::Unsigned16, 1),
            InverterRegister::PvPower2 => input(0x000B, 1, Format::Unsigned16, 1),
            InverterRegister::BatteryChargeVoltage => input(0x0014, 1, Format::Signed16, 10),
            InverterRegister::BatteryChargeCurrent => input(0x0015, 1, Format::Signed16, 10),
            InverterRegister::BatteryChargePower => input(0x0016, 1, Format::Signed16, 1),
            InverterRegister::BatteryTemperature => input(0x0018, 1, Format::Signed16, 1),
            InverterRegister::BatterySoc => input(0x001C, 1, Format::Signed16, 1),
            InverterRegister::BatteryDischargeMaxCurrent => input(0x0025, 1, Format::Signed16, 1),
            InverterRegister::FeedinPower => input(0x0046, 2, Format::Signed32, 1),
            InverterRegister::UserSoc => input(0x00BE, 1, Format::Unsigned16, 1),
            InverterRegister::BatteryChargeDischargePower => input(
                0x0114,
                2,
                Format::Signed32,
                1,
            ),
            InverterRegister::BatteryPowerAll => input(0x01FA, 2, Format::Signed32, 1),
            InverterRegister::MachineType => RegisterSpec {
                table: RegisterTable::Holding,
                address: 0x0105,
                count: 1,
                format: Format::Unsigned16,
                divisor: 1,
            },
        }
    }

    /// Where this quantity is read from and how it is decoded.
    pub fn register(&self) -> (r: RegisterSpec)
        ensures
            r == self.spec_register(),
    {
        match self {
            InverterRegister::GridVoltage => make_input(0x0000, 1, Format::Unsigned16, 10),
            InverterRegister::GridCurrent => make_input(0x0001, 1, Format::Signed16, 10),
            InverterRegister::GridPower => make_input(0x0002, 1, Format::Signed16, 1),
            InverterRegister::PvVoltage1 => make_input(0x0003, 1, Format::Unsigned16, 10),
            InverterRegister::PvVoltage2 => make_input(0x0004, 1, Format::Unsigned16, 10),
            InverterRegister::PvCurrent1 => make_input(0x0005, 1, Format::Unsigned16, 10),
            InverterRegister::PvCurrent2 => make_input(0x0006, 1, Format::Unsigned16, 10),
            InverterRegister::GridFrequency => make_input(0x0007, 1, Format::Unsigned16, 100),
            InverterRegister::RadiatorTemperature => make_input(0x0008, 1, Format::Signed16, 1),
            InverterRegister::PvPower1 => make_input(0x000A, 1, Format::Unsigned16, 1),
            InverterRegister::PvPower2 => make_input(0x000B, 1, Format::Unsigned16, 1),
            InverterRegister::BatteryChargeVoltage => make_input(0x0014, 1, Format::Signed16, 10),
            InverterRegister::BatteryChargeCurrent => make_input(0x0015, 1, Format::Signed16, 10),
            InverterRegister::BatteryChargePower => make_input(0x0016, 1, Format::Signed16, 1),
            InverterRegister::BatteryTemperature => make_input(0x0018, 1, Format::Signed16, 1),
            InverterRegister::BatterySoc => make_input(0x001C, 1, Format::Signed16, 1),
            InverterRegister::BatteryDischargeMaxCurrent => make_input(0x0025, 1, Format::Signed16, 1),
            InverterRegister::FeedinPower => make_input(0x0046, 2, Format::Signed32, 1),
            InverterRegister::UserSoc => make_input(0x00BE, 1, Format::Unsigned16, 1),
            InverterRegister::BatteryChargeDischargePower => make_input(
                0x0114,
                2,
                Format::Signed32,
                1,
            ),
            InverterRegister::BatteryPowerAll => make_input(0x01FA, 2, Format::Signed32, 1),
            InverterRegister::MachineType => RegisterSpec {
                table: RegisterTable::Holding,
                address: 0x0105,
                count: 1,
                format: Format::Unsigned16,
                divisor: 1,
            },
        }
    }
}

/// The inverter's register map, entry by entry: the table, first address, word
/// count, format and divisor of every quantity. The quantities that the device
/// reports in two's complement (currents and powers that change sign,
/// temperatures, the battery's charge voltage and state of charge) decode as
/// signed; the 32-bit powers span two registers, low word first.
pub proof fn lemma_inverter_register_map()
    ensures
        InverterRegister::GridVoltage.spec_register() == (RegisterSpec {
            table: RegisterTable::Input,
            address: 0x0000,
            count: 1,
            format: Format::Unsigned16,
            divisor: 10,
        }),
        InverterRegister::GridCurrent.spec_register() == (RegisterSpec {
            table: RegisterTable::Input,
            address: 0x0001,
            count: 1,
            format: Format::Signed16,
            divisor: 10,
        }),
        InverterRegister::GridPower.spec_register() == (RegisterSpec {
            table: RegisterTable::Input,
            address: 0x0002,
            count: 1,
            format: Format::Signed16,
            divisor: 1,
        }),
        InverterRegister::PvVoltage1.spec_register() == (RegisterSpec {
            table: RegisterTable::Input,
            address: 0x0003,
            count: 1,
            format: Format::Unsigned16,
            divisor: 10,
        }),
        InverterRegister::PvVoltage2.spec_register() == (RegisterSpec {
            table: RegisterTable::Input,
            address: 0x0004,
            count: 1,
            format: Format::Unsigned16,
            divisor: 10,
        }),
        InverterRegister::PvCurrent1.spec_register() == (RegisterSpec {
            table: RegisterTable::Input,
            address: 0x0005,
            count: 1,
            format: Format::Unsigned16,
            divisor: 10,
        }),
        InverterRegister::PvCurrent2.spec_register() == (RegisterSpec {
            table: RegisterTable::Input,
            address: 0x0006,
            count: 1,
            format: Format::Unsigned16,
            divisor: 10,
        }),
        InverterRegister::GridFrequency.spec_register() == (RegisterSpec {
            table: RegisterTable::Input,
            address: 0x0007,
            count: 1,
            format: Format::Unsigned16,
            divisor: 100,
        }),
        InverterRegister::RadiatorTemperature.spec_register() == (RegisterSpec {
            table: RegisterTable::Input,
            address: 0x0008,
            count: 1,
            format: Format::Signed16,
            divisor: 1,
        }),
        InverterRegister::PvPower1.spec_register() == (RegisterSpec {
            table: RegisterTable::Input,
            address: 0x000A,
            count: 1,
            format: Format::Unsigned16,
            divisor: 1,
        }),
        InverterRegister::PvPower2.spec_register() == (RegisterSpec {
            table: RegisterTable::Input,
            address: 0x000B,
            count: 1,
            format: Format::Unsigned16,
            divisor: 1,
        }),
        InverterRegister::BatteryChargeVoltage.spec_register() == (RegisterSpec {
            table: RegisterTable::Input,
            address: 0x0014,
            count: 1,
            format: Format::Signed16,
            divisor: 10,
        }),
        InverterRegister::BatteryChargeCurrent.spec_register() == (RegisterSpec {
            table: RegisterTable::Input,
            address: 0x0015,
            count: 1,
            format: Format::Signed16,
            divisor: 10,
        }),
        InverterRegister::BatteryChargePower.spec_register() == (RegisterSpec {
            table: RegisterTable::Input,
            address: 0x0016,
            count: 1,
            format: Format::Signed16,
            divisor: 1,
        }),
        InverterRegister::BatteryTemperature.spec_register() == (RegisterSpec {
            table: RegisterTable::Input,
            address: 0x0018,
            count: 1,
            format: Format::Signed16,
            divisor: 1,
        }),
        InverterRegister::BatterySoc.spec_register() == (RegisterSpec {
            table: RegisterTable::Input,
            address: 0x001C,
            count: 1,
            format: Format::Signed16,
            divisor: 1,
        }),
        InverterRegister::BatteryDischargeMaxCurrent.spec_register() == (RegisterSpec {
            table: RegisterTable::Input,
            address: 0x0025,
            count: 1,
            format: Format::Signed16,
            divisor: 1,
        }),
        InverterRegister::FeedinPower.spec_register() == (RegisterSpec {
            table: RegisterTable::Input,
            address: 0x0046,
            count: 2,
            format: Format::Signed32,
            divisor: 1,
        }),
        InverterRegister::UserSoc.spec_register() == (RegisterSpec {
            table: RegisterTable::Input,
            address: 0x00BE,
            count: 1,
            format: Format::Unsigned16,
            divisor: 1,
        }),
        InverterRegister::BatteryChargeDischargePower.spec_register() == (RegisterSpec {
            table: RegisterTable::Input,
            address: 0x0114,
            count: 2,
            format: Format::Signed32,
            divisor: 1,
        }),
        InverterRegister::BatteryPowerAll.spec_register() == (RegisterSpec {
            table: RegisterTable::Input,
            address: 0x01FA,
            count: 2,
            format: Format::Signed32,
            divisor: 1,
        }),
        InverterRegister::MachineType.spec_register() == (RegisterSpec {
            table: RegisterTable::Holding,
            address: 0x0105,
            count: 1,
            format: Format::Unsigned16,
            divisor: 1,
        }),
{
}

/// Every register of the inverter is read with at least as many words as its
/// format decodes, and with a non-zero divisor: a complete reply can always be
/// decoded and scaled.
pub proof fn lemma_inverter_map_consistent(q: InverterRegister)
    ensures
        q.spec_register().count >= q.spec_register().format.spec_width(),
        q.spec_register().divisor > 0,
{
}

/// The heat pump's electrical power: two input registers at 4122, of which the
/// first holds the power, unsigned.
pub open spec fn spec_heatpump_power_register() -> RegisterSpec {
    input(4122, 2, Format::Unsigned16, 1)
}

/// Where the heat pump's electrical power is read from and how it is decoded.
pub fn heatpump_power_register() -> (r: RegisterSpec)
    ensures
        r == spec_heatpump_power_register(),
{
    RegisterSpec {
        table: RegisterTable::Input,
        address: 4122,
        count: 2,
        format: Format::Unsigned16,
        divisor: 1,
    }
}

} // verus!
