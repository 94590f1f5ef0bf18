//! The register catalog of the meter: which measurements exist, where each
//! one lives in the input-register space, and how it is labelled.
//!
//! Every measurement occupies two consecutive 16-bit input registers that
//! together hold one big-endian IEEE-754 single-precision number. The catalog
//! is a closed set: the register map is fixed by the device.

use vstd::prelude::*;

verus! {

/// Number of measurements in the catalog.
pub const CATALOG_LEN: usize = 26;

/// Number of consecutive input registers that hold one measurement.
pub const REGISTERS_PER_MEASUREMENT: u16 = 2;

/// A measurement that the meter offers.
///
/// The declaration order is the catalog order, which is the order in which
/// the measurements are polled.
#[derive(Clone, Copy, Debug, PartialEq, Eq, Structural, Hash)]
pub enum InputRegister {
    Phase1Line2NeutralVoltage,
    Phase2Line2NeutralVoltage,
    Phase3Line2NeutralVoltage,
    Phase1Current,
    Phase2Current,
    Phase3Current,
    Phase1Power,
    Phase2Power,
    Phase3Power,
    Phase1ApparentPower,
    Phase2ApparentPower,
    Phase3ApparentPower,
    Phase1ReactivePower,
    Phase2ReactivePower,
    Phase3ReactivePower,
    Phase1PowerFactor,
    Phase2PowerFactor,
    Phase3PowerFactor,
    Phase1PhaseAngle,
    Phase2PhaseAngle,
    Phase3PhaseAngle,
    AvgLineToNeutralVoltage,
    AvgLineToNeutralCurrent,
    SumOfLineCurrents,
    TotalSystemPower,
    FrequencyVoltageLines,
}

/// Where a measurement is read from and how it is labelled.
#[derive(Clone, Copy, Debug)]
pub struct InputRegisterValue {
    /// Address of the first of the two input registers.
    pub address: u16,
    /// Human-readable label.
    pub name: &'static str,
    /// Symbol appended to the printed value; empty for a dimensionless value.
    pub unit_symbol: &'static str,
    /// Full name of the unit; empty for a dimensionless value.
    pub unit_name: &'static str,
}

impl InputRegister {
    /// Address of the first input register of the measurement.
    pub open spec fn spec_address(self) -> u16 {
        match self {
            InputRegister::Phase1Line2NeutralVoltage => 0x0000,
            InputRegister::Phase2Line2NeutralVoltage => 0x0002,
            InputRegister::Phase3Line2NeutralVoltage => 0x0004,
            InputRegister::Phase1Current => 0x0006,
            InputRegister::Phase2Current => 0x0008,
            InputRegister::Phase3Current => 0x000A,
            InputRegister::Phase1Power => 0x000C,
            InputRegister::Phase2Power => 0x000E,
            InputRegister::Phase3Power => 0x0010,
            InputRegister::Phase1ApparentPower => 0x0012,
            InputRegister::Phase2ApparentPower => 0x0014,
            InputRegister::Phase3ApparentPower => 0x0016,
            InputRegister::Phase1ReactivePower => 0x0018,
            InputRegister::Phase2ReactivePower => 0x001A,
            InputRegister::Phase3ReactivePower => 0x001C,
            InputRegister::Phase1PowerFactor => 0x001E,
            InputRegister::Phase2PowerFactor => 0x0020,
            InputRegister::Phase3PowerFactor => 0x0022,
            InputRegister::Phase1PhaseAngle => 0x0024,
            InputRegister::Phase2PhaseAngle => 0x0026,
            InputRegister::Phase3PhaseAngle => 0x0028,
            InputRegister::AvgLineToNeutralVoltage => 0x002A,
            InputRegister::AvgLineToNeutralCurrent => 0x002E,
            InputRegister::SumOfLineCurrents => 0x0030,
            InputRegister::TotalSystemPower => 0x0034,
            InputRegister::FrequencyVoltageLines => 0x0046,
        }
    }

    /// Label of the measurement.
    pub open spec fn spec_name(self) -> Seq<char> {
        match self {
            InputRegister::Phase1Line2NeutralVoltage => "Phase 1 line to neutral voltage"@,
            InputRegister::Phase2Line2NeutralVoltage => "Phase 2 line to neutral voltage"@,
            InputRegister::Phase3Line2NeutralVoltage => "Phase 3 line to neutral voltage"@,
            InputRegister::Phase1Current => "Phase 1 current"@,
            InputRegister::Phase2Current => "Phase 2 current"@,
            InputRegister::Phase3Current => "Phase 3 current"@,
            InputRegister::Phase1Power => "Phase 1 power"@,
            InputRegister::Phase2Power => "Phase 2 power"@,
            InputRegister::Phase3Power => "Phase 3 power"@,
            InputRegister::Phase1ApparentPower => "Phase 1 apparent power"@,
            InputRegister::Phase2ApparentPower => "Phase 2 apparent power"@,
            InputRegister::Phase3ApparentPower => "Phase 3 apparent power"@,
            InputRegister::Phase1ReactivePower => "Phase 1 reactive power"@,
            InputRegister::Phase2ReactivePower => "Phase 2 reactive power"@,
            InputRegister::Phase3ReactivePower => "Phase 3 reactive power"@,
            InputRegister::Phase1PowerFactor => "Phase 1 power factor"@,
            InputRegister::Phase2PowerFactor => "Phase 2 power factor"@,
            InputRegister::Phase3PowerFactor => "Phase 3 power factor"@,
            InputRegister::Phase1PhaseAngle => "Phase 1 phase angle"@,
            InputRegister::Phase2PhaseAngle => "Phase 2 phase angle"@,
            InputRegister::Phase3PhaseAngle => "Phase 3 phase angle"@,
            InputRegister::AvgLineToNeutralVoltage => "Average line to neutral voltage"@,
            InputRegister::AvgLineToNeutralCurrent => "Average line to neutral current"@,
            InputRegister::SumOfLineCurrents => "Sum of line currents"@,
            InputRegister::TotalSystemPower => "Total system power"@,
            InputRegister::FrequencyVoltageLines => "Frequency voltage"@,
        }
    }

    /// Unit symbol of the measurement.
    pub open spec fn spec_unit_symbol(self) -> Seq<char> {
        match self {
            InputRegister::Phase1Line2NeutralVoltage => "V"@,
            InputRegister::Phase2Line2NeutralVoltage => "V"@,
            InputRegister::Phase3Line2NeutralVoltage => "V"@,
            InputRegister::Phase1Current => "A"@,
            InputRegister::Phase2Current => "A"@,
            InputRegister::Phase3Current => "A"@,
            InputRegister::Phase1Power => "W"@,
            InputRegister::Phase2Power => "W"@,
            InputRegister::Phase3Power => "W"@,
            InputRegister::Phase1ApparentPower => "VA"@,
            InputRegister::Phase2ApparentPower => "VA"@,
            InputRegister::Phase3ApparentPower => "VA"@,
            InputRegister::Phase1ReactivePower => "VAr"@,
            InputRegister::Phase2ReactivePower => "VAr"@,
            InputRegister::Phase3ReactivePower => "VAr"@,
            InputRegister::Phase1PowerFactor => ""@,
            InputRegister::Phase2PowerFactor => ""@,
            InputRegister::Phase3PowerFactor => ""@,
            InputRegister::Phase1PhaseAngle => "°"@,
            InputRegister::Phase2PhaseAngle => "°"@,
            InputRegister::Phase3PhaseAngle => "°"@,
            InputRegister::AvgLineToNeutralVoltage => "V"@,
            InputRegister::AvgLineToNeutralCurrent => "A"@,
            InputRegister::SumOfLineCurrents => "A"@,
            InputRegister::TotalSystemPower => "W"@,
            InputRegister::FrequencyVoltageLines => "Hz"@,
        }
    }

    /// Unit name of the measurement.
    pub open spec fn spec_unit_name(self) -> Seq<char> {
        match self {
            InputRegister::Phase1Line2NeutralVoltage => "Volts"@,
            InputRegister::Phase2Line2NeutralVoltage => "Volts"@,
            InputRegister::Phase3Line2NeutralVoltage => "Volts"@,
            InputRegister::Phase1Current => "Amps"@,
            InputRegister::Phase2Current => "Amps"@,
            InputRegister::Phase3Current => "Amps"@,
            InputRegister::Phase1Power => "Watts"@,
            InputRegister::Phase2Power => "Watts"@,
            InputRegister::Phase3Power => "Watts"@,
            InputRegister::Phase1ApparentPower => "Volt-Amps"@,
            InputRegister::Phase2ApparentPower => "Volt-Amps"@,
            InputRegister::Phase3ApparentPower => "Volt-Amps"@,
            InputRegister::Phase1ReactivePower => "Volt-Amps reactive"@,
            InputRegister::Phase2ReactivePower => "Volt-Amps reactive"@,
            InputRegister::Phase3ReactivePower => "Volt-Amps reactive"@,
            InputRegister::Phase1PowerFactor => ""@,
            InputRegister::Phase2PowerFactor => ""@,
            InputRegister::Phase3PowerFactor => ""@,
            InputRegister::Phase1PhaseAngle => "Degrees"@,
            InputRegister::Phase2PhaseAngle => "Degrees"@,
            InputRegister::Phase3PhaseAngle => "Degrees"@,
            InputRegister::AvgLineToNeutralVoltage => "Volts"@,
            InputRegister::AvgLineToNeutralCurrent => "Amps"@,
            InputRegister::SumOfLineCurrents => "Amps"@,
            InputRegister::TotalSystemPower => "Watts"@,
            InputRegister::FrequencyVoltageLines => "Hertz"@,
        }
    }

    /// Place of the measurement in the catalog order, counted from zero.
    pub open spec fn spec_position(self) -> int {
        match self {
            InputRegister::Phase1Line2NeutralVoltage => 0,
            InputRegister::Phase2Line2NeutralVoltage => 1,
            InputRegister::Phase3Line2NeutralVoltage => 2,
            InputRegister::Phase1Current => 3,
            InputRegister::Phase2Current => 4,
            InputRegister::Phase3Current => 5,
            InputRegister::Phase1Power => 6,
            InputRegister::Phase2Power => 7,
            InputRegister::Phase3Power => 8,
            InputRegister::Phase1ApparentPower => 9,
            InputRegister::Phase2ApparentPower => 10,
            InputRegister::Phase3ApparentPower => 11,
            InputRegister::Phase1ReactivePower => 12,
            InputRegister::Phase2ReactivePower => 13,
            InputRegister::Phase3ReactivePower => 14,
            InputRegister::Phase1PowerFactor => 15,
            InputRegister::Phase2PowerFactor => 16,
            InputRegister::Phase3PowerFactor => 17,
            InputRegister::Phase1PhaseAngle => 18,
            InputRegister::Phase2PhaseAngle => 19,
            InputRegister::Phase3PhaseAngle => 20,
            InputRegister::AvgLineToNeutralVoltage => 21,
            InputRegister::AvgLineToNeutralCurrent => 22,
            InputRegister::SumOfLineCurrents => 23,
            InputRegister::TotalSystemPower => 24,
            InputRegister::FrequencyVoltageLines => 25,
        }
    }
}

/// The catalog order: every measurement once, in the order of polling.
pub open spec fn spec_all_kinds() -> Seq<InputRegister> {
    seq![
        InputRegister::Phase1Line2NeutralVoltage,
        InputRegister::Phase2Line2NeutralVoltage,
        InputRegister::Phase3Line2NeutralVoltage,
        InputRegister::Phase1Current,
        InputRegister::Phase2Current,
        InputRegister::Phase3Current,
        InputRegister::Phase1Power,
        InputRegister::Phase2Power,
        InputRegister::Phase3Power,
        InputRegister::Phase1ApparentPower,
        InputRegister::Phase2ApparentPower,
        InputRegister::Phase3ApparentPower,
        InputRegister::Phase1ReactivePower,
        InputRegister::Phase2ReactivePower,
        InputRegister::Phase3ReactivePower,
        InputRegister::Phase1PowerFactor,
        InputRegister::Phase2PowerFactor,
        InputRegister::Phase3PowerFactor,
        InputRegister::Phase1PhaseAngle,
        InputRegister::Phase2PhaseAngle,
        InputRegister::Phase3PhaseAngle,
        InputRegister::AvgLineToNeutralVoltage,
        InputRegister::AvgLineToNeutralCurrent,
        InputRegister::SumOfLineCurrents,
        InputRegister::TotalSystemPower,
        InputRegister::FrequencyVoltageLines,
    ]
}

/// Whether `value` is the descriptor that the catalog holds for `x`.
pub open spec fn spec_describes(value: InputRegisterValue, x: InputRegister) -> bool {
    &&& value.address == x.spec_address()
    &&& value.name@ == x.spec_name()
    &&& value.unit_symbol@ == x.spec_unit_symbol()
    &&& value.unit_name@ == x.spec_unit_name()
}

/// The measurement that follows `x` in the catalog order, if `x` is not the
/// last one.
pub open spec fn spec_successor(x: InputRegister) -> Option<InputRegister> {
    if x.spec_position() + 1 < spec_all_kinds().len() {
        Some(spec_all_kinds()[x.spec_position() + 1])
    } else {
        None
    }
}

/// Looks a measurement up in the catalog.
///
/// The lookup is total: every measurement has exactly one descriptor, and the
/// result is that descriptor, field by field.
pub fn generate_input_register(x: InputRegister) -> (value: Box<InputRegisterValue>)
    ensures
        value.address == x.spec_address(),
        value.name@ == x.spec_name(),
        value.unit_symbol@ == x.spec_unit_symbol(),
        value.unit_name@ == x.spec_unit_name(),
{
    match x {
        InputRegister::Phase1Line2NeutralVoltage => Box::new(InputRegisterValue {
            address: 0x0000,
            name: "Phase 1 line to neutral voltage",
            unit_symbol: "V",
            unit_name: "Volts",
        }),
        InputRegister::Phase2Line2NeutralVoltage => Box::new(InputRegisterValue {
            address: 0x0002,
            name: "Phase 2 line to neutral voltage",
            unit_symbol: "V",
            unit_name: "Volts",
        }),
        InputRegister::Phase3Line2NeutralVoltage => Box::new(InputRegisterValue {
            address: 0x0004,
            name: "Phase 3 line to neutral voltage",
            unit_symbol: "V",
            unit_name: "Volts",
        }),
        InputRegister::Phase1Current => Box::new(InputRegisterValue {
            address: 0x0006,
            name: "Phase 1 current",
            unit_symbol: "A",
            unit_name: "Amps",
        }),
        InputRegister::Phase2Current => Box::new(InputRegisterValue {
            address: 0x0008,
            name: "Phase 2 current",
            unit_symbol: "A",
            unit_name: "Amps",
        }),
        InputRegister::Phase3Current => Box::new(InputRegisterValue {
            address: 0x000A,
            name: "Phase 3 current",
            unit_symbol: "A",
            unit_name: "Amps",
        }),
        InputRegister::Phase1Power => Box::new(InputRegisterValue {
            address: 0x000C,
            name: "Phase 1 power",
            unit_symbol: "W",
            unit_name: "Watts",
        }),
        InputRegister::Phase2Power => Box::new(InputRegisterValue {
            address: 0x000E,
            name: "Phase 2 power",
            unit_symbol: "W",
            unit_name: "Watts",
        }),
        InputRegister::Phase3Power => Box::new(InputRegisterValue {
            address: 0x0010,
            name: "Phase 3 power",
            unit_symbol: "W",
            unit_name: "Watts",
        }),
        InputRegister::Phase1ApparentPower => Box::new(InputRegisterValue {
            address: 0x0012,
            name: "Phase 1 apparent power",
            unit_symbol: "VA",
            unit_name: "Volt-Amps",
        }),
        InputRegister::Phase2ApparentPower => Box::new(InputRegisterValue {
            address: 0x0014,
            name: "Phase 2 apparent power",
            unit_symbol: "VA",
            unit_name: "Volt-Amps",
        }),
        InputRegister::Phase3ApparentPower => Box::new(InputRegisterValue {
            address: 0x0016,
            name: "Phase 3 apparent power",
            unit_symbol: "VA",
            unit_name: "Volt-Amps",
        }),
        InputRegister::Phase1ReactivePower => Box::new(InputRegisterValue {
            address: 0x0018,
            name: "Phase 1 reactive power",
            unit_symbol: "VAr",
            unit_name: "Volt-Amps reactive",
        }),
        InputRegister::Phase2ReactivePower => Box::new(InputRegisterValue {
            address: 0x001A,
            name: "Phase 2 reactive power",
            unit_symbol: "VAr",
            unit_name: "Volt-Amps reactive",
        }),
        InputRegister::Phase3ReactivePower => Box::new(InputRegisterValue {
            address: 0x001C,
            name: "Phase 3 reactive power",
            unit_symbol: "VAr",
            unit_name: "Volt-Amps reactive",
        }),
        InputRegister::Phase1PowerFactor => Box::new(InputRegisterValue {
            address: 0x001E,
            name: "Phase 1 power factor",
            unit_symbol: "",
            unit_name: "",
        }),
        InputRegister::Phase2PowerFactor => Box::new(InputRegisterValue {
            address: 0x0020,
            name: "Phase 2 power factor",
            unit_symbol: "",
            unit_name: "",
        }),
        InputRegister::Phase3PowerFactor => Box::new(InputRegisterValue {
            address: 0x0022,
            name: "Phase 3 power factor",
            unit_symbol: "",
            unit_name: "",
        }),
        InputRegister::Phase1PhaseAngle => Box::new(InputRegisterValue {
            address: 0x0024,
            name: "Phase 1 phase angle",
            unit_symbol: "°",
            unit_name: "Degrees",
        }),
        InputRegister::Phase2PhaseAngle => Box::new(InputRegisterValue {
            address: 0x0026,
            name: "Phase 2 phase angle",
            unit_symbol: "°",
            unit_name: "Degrees",
        }),
        InputRegister::Phase3PhaseAngle => Box::new(InputRegisterValue {
            address: 0x0028,
            name: "Phase 3 phase angle",
            unit_symbol: "°",
            unit_name: "Degrees",
        }),
        InputRegister::AvgLineToNeutralVoltage => Box::new(InputRegisterValue {
            address: 0x002A,
            name: "Average line to neutral voltage",
            unit_symbol: "V",
            unit_name: "Volts",
        }),
        InputRegister::AvgLineToNeutralCurrent => Box::new(InputRegisterValue {
            address: 0x002E,
            name: "Average line to neutral current",
            unit_symbol: "A",
            unit_name: "Amps",
        }),
        InputRegister::SumOfLineCurrents => Box::new(InputRegisterValue {
            address: 0x0030,
            name: "Sum of line currents",
            unit_symbol: "A",
            unit_name: "Amps",
        }),
        InputRegister::TotalSystemPower => Box::new(InputRegisterValue {
            address: 0x0034,
            name: "Total system power",
            unit_symbol: "W",
            unit_name: "Watts",
        }),
        InputRegister::FrequencyVoltageLines => Box::new(InputRegisterValue {
            address: 0x0046,
            name: "Frequency voltage",
            unit_symbol: "Hz",
            unit_name: "Hertz",
        }),
    }
}

/// All measurements, in the catalog order.
///
/// The result does not depend on anything: every call yields the same
/// sequence.
pub fn all_kinds() -> (kinds: Vec<InputRegister>)
    ensures
        kinds@ == spec_all_kinds(),
{
    vec![
        InputRegister::Phase1Line2NeutralVoltage,
        InputRegister::Phase2Line2NeutralVoltage,
        InputRegister::Phase3Line2NeutralVoltage,
        InputRegister::Phase1Current,
        InputRegister::Phase2Current,
        InputRegister::Phase3Current,
        InputRegister::Phase1Power,
        InputRegister::Phase2Power,
        InputRegister::Phase3Power,
        InputRegister::Phase1ApparentPower,
        InputRegister::Phase2ApparentPower,
        InputRegister::Phase3ApparentPower,
        InputRegister::Phase1ReactivePower,
        InputRegister::Phase2ReactivePower,
        InputRegister::Phase3ReactivePower,
        InputRegister::Phase1PowerFactor,
        InputRegister::Phase2PowerFactor,
        InputRegister::Phase3PowerFactor,
        InputRegister::Phase1PhaseAngle,
        InputRegister::Phase2PhaseAngle,
        InputRegister::Phase3PhaseAngle,
        InputRegister::AvgLineToNeutralVoltage,
        InputRegister::AvgLineToNeutralCurrent,
        InputRegister::SumOfLineCurrents,
        InputRegister::TotalSystemPower,
        InputRegister::FrequencyVoltageLines,
    ]
}

/// The descriptors of all measurements, in the catalog order.
pub fn catalog() -> (registers: Vec<Box<InputRegisterValue>>)
    ensures
        registers@.len() == spec_all_kinds().len(),
        forall|i: int|
            0 <= i < registers@.len() ==> spec_describes(
                *#[trigger] registers@[i],
                spec_all_kinds()[i],
            ),
{
    let kinds = all_kinds();
    let mut registers: Vec<Box<InputRegisterValue>> = Vec::new();
    let mut i: usize = 0;
    while i < kinds.len()
        invariant
            kinds@ == spec_all_kinds(),
            i <= kinds@.len(),
            registers@.len() == i,
            forall|j: int|
                0 <= j < i ==> spec_describes(*#[trigger] registers@[j], spec_all_kinds()[j]),
        decreases kinds@.len() - i,
    {
        registers.push(generate_input_register(kinds[i]));
        i += 1;
    }
    registers
}

impl InputRegister {
    /// The measurement that opens every polling cycle.
    pub fn first() -> (kind: InputRegister)
        ensures
            kind == spec_all_kinds()[0],
    {
        InputRegister::Phase1Line2NeutralVoltage
    }

    /// The measurement that is polled after this one, or `None` after the
    /// last one of the cycle.
    pub fn successor(self) -> (following: Option<InputRegister>)
        ensures
            following == spec_successor(self),
    {
        match self {
            InputRegister::Phase1Line2NeutralVoltage => Some(InputRegister::Phase2Line2NeutralVoltage),
            InputRegister::Phase2Line2NeutralVoltage => Some(InputRegister::Phase3Line2NeutralVoltage),
            InputRegister::Phase3Line2NeutralVoltage => Some(InputRegister::Phase1Current),
            InputRegister::Phase1Current => Some(InputRegister::Phase2Current),
            InputRegister::Phase2Current => Some(InputRegister::Phase3Current),
            InputRegister::Phase3Current => Some(InputRegister::Phase1Power),
            InputRegister::Phase1Power => Some(InputRegister::Phase2Power),
            InputRegister::Phase2Power => Some(InputRegister::Phase3Power),
            InputRegister::Phase3Power => Some(InputRegister::Phase1ApparentPower),
            InputRegister::Phase1ApparentPower => Some(InputRegister::Phase2ApparentPower),
            InputRegister::Phase2ApparentPower => Some(InputRegister::Phase3ApparentPower),
            InputRegister::Phase3ApparentPower => Some(InputRegister::Phase1ReactivePower),
            InputRegister::Phase1ReactivePower => Some(InputRegister::Phase2ReactivePower),
            InputRegister::Phase2ReactivePower => Some(InputRegister::Phase3ReactivePower),
            InputRegister::Phase3ReactivePower => Some(InputRegister::Phase1PowerFactor),
            InputRegister::Phase1PowerFactor => Some(InputRegister::Phase2PowerFactor),
            InputRegister::Phase2PowerFactor => Some(InputRegister::Phase3PowerFactor),
            InputRegister::Phase3PowerFactor => Some(InputRegister::Phase1PhaseAngle),
            InputRegister::Phase1PhaseAngle => Some(InputRegister::Phase2PhaseAngle),
            InputRegister::Phase2PhaseAngle => Some(InputRegister::Phase3PhaseAngle),
            InputRegister::Phase3PhaseAngle => Some(InputRegister::AvgLineToNeutralVoltage),
            InputRegister::AvgLineToNeutralVoltage => Some(InputRegister::AvgLineToNeutralCurrent),
            InputRegister::AvgLineToNeutralCurrent => Some(InputRegister::SumOfLineCurrents),
            InputRegister::SumOfLineCurrents => Some(InputRegister::TotalSystemPower),
            InputRegister::TotalSystemPower => Some(InputRegister::FrequencyVoltageLines),
            InputRegister::FrequencyVoltageLines => None,
        }
    }
}

/// The catalog order lists every measurement, each at its own position.
pub proof fn lemma_catalog_holds_every_kind(x: InputRegister)
    ensures
        spec_all_kinds().len() == CATALOG_LEN,
        0 <= x.spec_position() < spec_all_kinds().len(),
        spec_all_kinds()[x.spec_position()] == x,
{
}

/// The catalog order lists no measurement twice: the measurement at place
/// `i` has position `i` and no other.
pub proof fn lemma_catalog_holds_no_kind_twice(i: int)
    requires
        0 <= i < spec_all_kinds().len(),
    ensures
        spec_all_kinds()[i].spec_position() == i,
        spec_all_kinds().no_duplicates(),
{
}

/// Two different measurements never start at the same address.
pub proof fn lemma_addresses_distinct(a: InputRegister, b: InputRegister)
    requires
        a != b,
    ensures
        a.spec_address() != b.spec_address(),
{
}

/// The catalog order is the order of the addresses, and the register pairs of
/// two measurements never overlap: a measurement that comes earlier ends
/// before the later one starts.
pub proof fn lemma_register_pairs_disjoint(a: InputRegister, b: InputRegister)
    requires
        a.spec_position() < b.spec_position(),
    ensures
        a.spec_address() + REGISTERS_PER_MEASUREMENT <= b.spec_address(),
{
}

/// The register pair of every measurement lies inside the 16-bit address
/// space.
pub proof fn lemma_register_pair_in_range(x: InputRegister)
    ensures
        x.spec_address() + REGISTERS_PER_MEASUREMENT <= u16::MAX,
{
}

} // verus!
