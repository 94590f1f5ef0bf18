use meter_poll::input_register::{
    all_kinds, catalog, generate_input_register, InputRegister, CATALOG_LEN,
    REGISTERS_PER_MEASUREMENT,
};

/// The register map of the meter: kind, address, label, unit symbol, unit name.
fn table() -> Vec<(InputRegister, u16, &'static str, &'static str, &'static str)> {
    vec![
        (InputRegister::Phase1Line2NeutralVoltage, 0x0000, "Phase 1 line to neutral voltage", "V", "Volts"),
        (InputRegister::Phase2Line2NeutralVoltage, 0x0002, "Phase 2 line to neutral voltage", "V", "Volts"),
        (InputRegister::Phase3Line2NeutralVoltage, 0x0004, "Phase 3 line to neutral voltage", "V", "Volts"),
        (InputRegister::Phase1Current, 0x0006, "Phase 1 current", "A", "Amps"),
        (InputRegister::Phase2Current, 0x0008, "Phase 2 current", "A", "Amps"),
        (InputRegister::Phase3Current, 0x000A, "Phase 3 current", "A", "Amps"),
        (InputRegister::Phase1Power, 0x000C, "Phase 1 power", "W", "Watts"),
        (InputRegister::Phase2Power, 0x000E, "Phase 2 power", "W", "Watts"),
        (InputRegister::Phase3Power, 0x0010, "Phase 3 power", "W", "Watts"),
        (InputRegister::Phase1ApparentPower, 0x0012, "Phase 1 apparent power", "VA", "Volt-Amps"),
        (InputRegister::Phase2ApparentPower, 0x0014, "Phase 2 apparent power", "VA", "Volt-Amps"),
        (InputRegister::Phase3ApparentPower, 0x0016, "Phase 3 apparent power", "VA", "Volt-Amps"),
        (InputRegister::Phase1ReactivePower, 0x0018, "Phase 1 reactive power", "VAr", "Volt-Amps reactive"),
        (InputRegister::Phase2ReactivePower, 0x001A, "Phase 2 reactive power", "VAr", "Volt-Amps reactive"),
        (InputRegister::Phase3ReactivePower, 0x001C, "Phase 3 reactive power", "VAr", "Volt-Amps reactive"),
        (InputRegister::Phase1PowerFactor, 0x001E, "Phase 1 power factor", "", ""),
        (InputRegister::Phase2PowerFactor, 0x0020, "Phase 2 power factor", "", ""),
        (InputRegister::Phase3PowerFactor, 0x0022, "Phase 3 power factor", "", ""),
        (InputRegister::Phase1PhaseAngle, 0x0024, "Phase 1 phase angle", "°", "Degrees"),
        (InputRegister::Phase2PhaseAngle, 0x0026, "Phase 2 phase angle", "°", "Degrees"),
        (InputRegister::Phase3PhaseAngle, 0x0028, "Phase 3 phase angle", "°", "Degrees"),
        (InputRegister::AvgLineToNeutralVoltage, 0x002A, "Average line to neutral voltage", "V", "Volts"),
        (InputRegister::AvgLineToNeutralCurrent, 0x002E, "Average line to neutral current", "A", "Amps"),
        (InputRegister::SumOfLineCurrents, 0x0030, "Sum of line currents", "A", "Amps"),
        (InputRegister::TotalSystemPower, 0x0034, "Total system power", "W", "Watts"),
        (InputRegister::FrequencyVoltageLines, 0x0046, "Frequency voltage", "Hz", "Hertz"),
    ]
}

#[test]
fn every_kind_has_its_table_entry() {
    let table = table();
    assert_eq!(table.len(), 26);
    for (kind, address, name, unit_symbol, unit_name) in table {
        let value = generate_input_register(kind);
        assert_eq!(value.address, address, "{:?}", kind);
        assert_eq!(value.name, name, "{:?}", kind);
        assert_eq!(value.unit_symbol, unit_symbol, "{:?}", kind);
        assert_eq!(value.unit_name, unit_name, "{:?}", kind);
    }
}

#[test]
fn phase_1_current_descriptor() {
    let value = generate_input_register(InputRegister::Phase1Current);
    assert_eq!(value.address, 0x0006);
    assert_eq!(value.name, "Phase 1 current");
    assert_eq!(value.unit_symbol, "A");
    assert_eq!(value.unit_name, "Amps");
}

#[test]
fn power_factor_has_no_unit() {
    let value = generate_input_register(InputRegister::Phase2PowerFactor);
    assert_eq!(value.address, 0x0020);
    assert_eq!(value.unit_symbol, "");
    assert_eq!(value.unit_name, "");
}

#[test]
fn frequency_is_the_highest_register() {
    let value = generate_input_register(InputRegister::FrequencyVoltageLines);
    assert_eq!(value.address, 0x0046);
    assert_eq!(value.name, "Frequency voltage");
    assert_eq!(value.unit_symbol, "Hz");
}

#[test]
fn lookup_is_repeatable() {
    let once = generate_input_register(InputRegister::TotalSystemPower);
    let again = generate_input_register(InputRegister::TotalSystemPower);
    assert_eq!(once.address, again.address);
    assert_eq!(once.name, again.name);
    assert_eq!(once.unit_symbol, again.unit_symbol);
    assert_eq!(once.unit_name, again.unit_name);
}

#[test]
fn addresses_are_pairwise_distinct() {
    let kinds = all_kinds();
    for (i, a) in kinds.iter().enumerate() {
        for (j, b) in kinds.iter().enumerate() {
            if i != j {
                assert_ne!(
                    generate_input_register(*a).address,
                    generate_input_register(*b).address,
                    "{:?} and {:?}",
                    a,
                    b
                );
            }
        }
    }
}

#[test]
fn register_pairs_do_not_overlap() {
    let kinds = all_kinds();
    for pair in kinds.windows(2) {
        let earlier = generate_input_register(pair[0]).address;
        let later = generate_input_register(pair[1]).address;
        assert!(earlier + REGISTERS_PER_MEASUREMENT <= later, "{:?} and {:?}", pair[0], pair[1]);
    }
}

#[test]
fn all_kinds_follows_the_table_order() {
    let kinds = all_kinds();
    let expected: Vec<InputRegister> = table().into_iter().map(|row| row.0).collect();
    assert_eq!(kinds.len(), 26);
    assert_eq!(kinds.len(), CATALOG_LEN);
    assert_eq!(kinds, expected);
}

#[test]
fn all_kinds_is_the_same_on_every_call() {
    let first = all_kinds();
    for _ in 0..5 {
        assert_eq!(all_kinds(), first);
    }
}

#[test]
fn all_kinds_lists_no_kind_twice() {
    let kinds = all_kinds();
    for (i, a) in kinds.iter().enumerate() {
        for b in kinds.iter().skip(i + 1) {
            assert_ne!(a, b);
        }
    }
}

#[test]
fn first_is_phase_1_voltage() {
    assert_eq!(InputRegister::first(), InputRegister::Phase1Line2NeutralVoltage);
    assert_eq!(InputRegister::first(), all_kinds()[0]);
}

#[test]
fn successor_walks_the_catalog_order() {
    let kinds = all_kinds();
    let mut walked = vec![InputRegister::first()];
    let mut current = InputRegister::first();
    while let Some(following) = current.successor() {
        walked.push(following);
        current = following;
        assert!(walked.len() <= kinds.len());
    }
    assert_eq!(walked, kinds);
}

#[test]
fn successor_of_the_last_kind_is_none() {
    assert_eq!(InputRegister::FrequencyVoltageLines.successor(), None);
    assert_eq!(
        InputRegister::TotalSystemPower.successor(),
        Some(InputRegister::FrequencyVoltageLines)
    );
    assert_eq!(
        InputRegister::Phase3PhaseAngle.successor(),
        Some(InputRegister::AvgLineToNeutralVoltage)
    );
}

#[test]
fn catalog_holds_the_descriptors_in_order() {
    let registers = catalog();
    let table = table();
    assert_eq!(registers.len(), 26);
    for (register, row) in registers.iter().zip(table.iter()) {
        assert_eq!(register.address, row.1);
        assert_eq!(register.name, row.2);
        assert_eq!(register.unit_symbol, row.3);
        assert_eq!(register.unit_name, row.4);
    }
}

#[test]
fn a_measurement_spans_two_registers() {
    assert_eq!(REGISTERS_PER_MEASUREMENT, 2);
}
