//! What the heat pump is told about the photovoltaic plant.
use vstd::prelude::*;
use crate::words::idm_bytes_to_words;

verus! {

/// The larger of a value and zero.
pub open spec fn clamp_low(v: int) -> int {
    if v < 0 { 0 } else { v }
}

/// The heat pump's inputs, in watts, taken from one inverter sample.
#[derive(Clone, Copy, Debug, PartialEq, Eq)]
pub struct HeatpumpFeed {
    /// What both PV strings produce together.
    pub pv_power_watts: i32,
    /// What is fed into the grid, or zero when power is drawn from it.
    pub surplus_feedin_watts: i32,
    /// What charges the battery, or zero when it discharges.
    pub surplus_battery_watts: i16,
}

/// Derives the heat pump's inputs from an inverter sample: the PV power is the
/// sum of both strings; the surplus is the grid feed-in plus the battery's
/// charging power, each counted only where it is positive.
pub fn heatpump_feed(
    pv_power_1: i32,
    pv_power_2: i32,
    feedin_power: i32,
    battery_charge_power: i16,
) -> (r: HeatpumpFeed)
    requires
        i32::MIN <= pv_power_1 + pv_power_2 <= i32::MAX,
    ensures
        r.pv_power_watts == pv_power_1 + pv_power_2,
        r.surplus_feedin_watts == clamp_low(feedin_power as int),
        r.surplus_battery_watts == clamp_low(battery_charge_power as int),
{
    HeatpumpFeed {
        pv_power_watts: pv_power_1 + pv_power_2,
        surplus_feedin_watts: if feedin_power < 0 {
            0
        } else {
            feedin_power
        },
        surplus_battery_watts: if battery_charge_power < 0 {
            0
        } else {
            battery_charge_power
        },
    }
}

/// Clamping at zero is the larger of the value and zero: never negative, never
/// below the value, and either zero or the value itself. A negative value (power
/// drawn from the grid or from the battery) contributes nothing; a positive one
/// contributes all of itself.
pub proof fn lemma_clamp_low_is_max_with_zero(v: int)
    ensures
        clamp_low(v) >= 0,
        clamp_low(v) >= v,
        clamp_low(v) == 0 || clamp_low(v) == v,
        v <= 0 ==> clamp_low(v) == 0,
        v >= 0 ==> clamp_low(v) == v,
{
}

/// The surplus never counts power drawn from the grid or from the battery: it
/// is never negative, and it is at least each of its positive parts.
pub proof fn lemma_surplus_nonnegative(feedin_power: int, battery_charge_power: int)
    ensures
        clamp_low(feedin_power) + clamp_low(battery_charge_power) >= 0,
        clamp_low(feedin_power) + clamp_low(battery_charge_power) >= feedin_power,
        clamp_low(feedin_power) + clamp_low(battery_charge_power) >= battery_charge_power,
        feedin_power >= 0 && battery_charge_power >= 0 ==> clamp_low(feedin_power)
            + clamp_low(battery_charge_power) == feedin_power + battery_charge_power,
{
}

/// A set point of the heat pump that the bridge writes.
#[derive(Clone, Copy, Debug, PartialEq, Eq)]
pub enum Setpoint {
    /// The PV surplus, battery charging included (kW).
    PvSurplus,
    /// The PV production (kW).
    PvPower,
}

impl Setpoint {
    /// The first of the two holding registers of the set point.
    pub open spec fn spec_address(self) -> u16 {
        match self {
            Setpoint::PvSurplus => 74,
            Setpoint::PvPower => 78,
        }
    }

    /// The first of the two holding registers of the set point.
    pub fn address(&self) -> (a: u16)
        ensures
            a == self.spec_address(),
    {
        match self {
            Setpoint::PvSurplus => 74,
            Setpoint::PvPower => 78,
        }
    }
}

/// The register write that sets `setpoint` to the 32-bit value whose big-endian
/// bytes are `bytes`: its address, and the two words, low word first.
pub fn setpoint_write(setpoint: Setpoint, bytes: [u8; 4]) -> (r: (u16, [u16; 2]))
    ensures
        r.0 == setpoint.spec_address(),
        r.1@[0] == bytes@[3] + 0x100 * bytes@[2],
        r.1@[1] == bytes@[1] + 0x100 * bytes@[0],
{
    (setpoint.address(), idm_bytes_to_words(bytes))
}

} // verus!
