use solar_modbus::registers::{
    decode_register, heatpump_power_register, Format, InverterRegister, RegisterSpec, RegisterTable,
};

#[test]
fn inverter_register_map() {
    assert_eq!(
        InverterRegister::GridVoltage.register(),
        RegisterSpec { table: RegisterTable::Input, address: 0x0000, count: 1, format: Format::Unsigned16, divisor: 10 }
    );
    assert_eq!(
        InverterRegister::FeedinPower.register(),
        RegisterSpec { table: RegisterTable::Input, address: 0x0046, count: 2, format: Format::Signed32, divisor: 1 }
    );
    assert_eq!(
        InverterRegister::GridFrequency.register(),
        RegisterSpec { table: RegisterTable::Input, address: 0x0007, count: 1, format: Format::Unsigned16, divisor: 100 }
    );
    assert_eq!(
        InverterRegister::MachineType.register(),
        RegisterSpec { table: RegisterTable::Holding, address: 0x0105, count: 1, format: Format::Unsigned16, divisor: 1 }
    );
    assert_eq!(InverterRegister::BatteryPowerAll.register().address, 0x01FA);
    assert_eq!(InverterRegister::BatteryChargeDischargePower.register().address, 0x0114);
    assert_eq!(InverterRegister::BatterySoc.register().format, Format::Signed16);
    assert_eq!(InverterRegister::UserSoc.register().address, 0x00BE);
}

#[test]
fn every_inverter_register_can_be_decoded() {
    for q in [
        InverterRegister::GridVoltage,
        InverterRegister::GridCurrent,
        InverterRegister::GridPower,
        InverterRegister::PvVoltage1,
        InverterRegister::PvVoltage2,
        InverterRegister::PvCurrent1,
        InverterRegister::PvCurrent2,
        InverterRegister::GridFrequency,
        InverterRegister::RadiatorTemperature,
        InverterRegister::PvPower1,
        InverterRegister::PvPower2,
        InverterRegister::BatteryChargeVoltage,
        InverterRegister::BatteryChargeCurrent,
        InverterRegister::BatteryChargePower,
        InverterRegister::BatteryTemperature,
        InverterRegister::BatterySoc,
        InverterRegister::BatteryDischargeMaxCurrent,
        InverterRegister::FeedinPower,
        InverterRegister::UserSoc,
        InverterRegister::BatteryChargeDischargePower,
        InverterRegister::BatteryPowerAll,
        InverterRegister::MachineType,
    ] {
        let r = q.register();
        assert!(r.count as usize >= r.format.width());
        assert!(r.divisor > 0);
    }
}

#[test]
fn decoding_formats() {
    assert_eq!(decode_register(Format::Unsigned16, &vec![0xFFFF]), 65535);
    assert_eq!(decode_register(Format::Signed16, &vec![0xFFFF]), -1);
    assert_eq!(decode_register(Format::Signed16, &vec![2301, 9]), 2301);
    assert_eq!(decode_register(Format::Signed32, &vec![0xFC18, 0xFFFF]), -1000);
    assert_eq!(decode_register(Format::Signed32, &vec![0x0001, 0x0001]), 65537);
    assert_eq!(Format::Signed32.width(), 2);
    assert_eq!(Format::Unsigned16.width(), 1);
}

#[test]
fn heatpump_power_register_map() {
    let r = heatpump_power_register();
    assert_eq!((r.table, r.address, r.count, r.format, r.divisor), (RegisterTable::Input, 4122, 2, Format::Unsigned16, 1));
    assert_eq!(decode_register(r.format, &vec![1800, 3]), 1800);
}
