use solar_modbus::heatpump::{heatpump_feed, setpoint_write, HeatpumpFeed, Setpoint};
use solar_modbus::stream::mean_battery_charge_power;

#[test]
fn feed_counts_only_positive_surplus() {
    assert_eq!(
        heatpump_feed(1200, 800, -300, 450),
        HeatpumpFeed { pv_power_watts: 2000, surplus_feedin_watts: 0, surplus_battery_watts: 450 }
    );
    assert_eq!(
        heatpump_feed(0, 0, 2500, -1200),
        HeatpumpFeed { pv_power_watts: 0, surplus_feedin_watts: 2500, surplus_battery_watts: 0 }
    );
    assert_eq!(
        heatpump_feed(-5, 3, 0, 0),
        HeatpumpFeed { pv_power_watts: -2, surplus_feedin_watts: 0, surplus_battery_watts: 0 }
    );
}

#[test]
fn setpoints_go_to_their_registers() {
    assert_eq!(Setpoint::PvSurplus.address(), 74);
    assert_eq!(Setpoint::PvPower.address(), 78);
    assert_eq!(setpoint_write(Setpoint::PvSurplus, 2.0f32.to_be_bytes()), (74, [0x0000, 0x4000]));
    assert_eq!(setpoint_write(Setpoint::PvPower, [0xAA, 0xBB, 0xCC, 0xDD]), (78, [0xCCDD, 0xAABB]));
}

#[test]
fn chunk_mean_rounds_half_away_from_zero() {
    assert_eq!(mean_battery_charge_power(&vec![5]), 5);
    assert_eq!(mean_battery_charge_power(&vec![-7]), -7);
    assert_eq!(mean_battery_charge_power(&vec![1, 2]), 2);
    assert_eq!(mean_battery_charge_power(&vec![-1, -2]), -2);
    assert_eq!(mean_battery_charge_power(&vec![1, 2, 2]), 2);
    assert_eq!(mean_battery_charge_power(&vec![1, 1, 2]), 1);
    assert_eq!(mean_battery_charge_power(&vec![i16::MIN, i16::MIN]), i16::MIN);
    assert_eq!(mean_battery_charge_power(&vec![i16::MAX, i16::MAX, i16::MAX]), i16::MAX);
    assert_eq!(mean_battery_charge_power(&vec![i16::MIN, i16::MAX]), -1);
}

#[test]
fn chunk_mean_matches_float_rounding() {
    let chunks: Vec<Vec<i16>> = vec![vec![3, 4], vec![-3, -4], vec![100, -33, 7], vec![-5, 2], vec![32000, 31000, -17]];
    for c in chunks {
        let sum: f64 = c.iter().map(|v| f64::from(*v)).sum();
        let expected = (sum / c.len() as f64).round() as i16;
        assert_eq!(mean_battery_charge_power(&c), expected);
    }
}
