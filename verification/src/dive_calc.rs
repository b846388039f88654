//! Dive calculations module.
//!
//! Integer dive metrics with exact contracts: partial pressure of oxygen
//! and equivalent air depth, both scaled so that no fractional arithmetic
//! is needed.  The tissue-saturation decompression model that accompanies
//! a dive profile is floating-point work and stays with the embedding
//! application; this module tracks the integer dive state.

use vstd::prelude::*;
use vstd::arithmetic::mul::lemma_mul_upper_bound;

verus! {

/// Gas type used in diving.
#[derive(Debug, PartialEq, Eq, Structural, Clone, Copy)]
pub enum GasType {
    /// Standard air (21% oxygen, 79% nitrogen).
    Air,
    /// Enriched air nitrox with specified oxygen percentage.
    Nitrox { oxygen_percent: u8 },
    /// Trimix with specified oxygen and helium percentages.
    Trimix { oxygen_percent: u8, helium_percent: u8 },
}

/// The oxygen share of a gas, in percent.
pub open spec fn oxygen_percent_of(gas: GasType) -> int {
    match gas {
        GasType::Air => 21,
        GasType::Nitrox { oxygen_percent } => oxygen_percent as int,
        GasType::Trimix { oxygen_percent, helium_percent } => oxygen_percent as int,
    }
}

/// The nitrogen share of a gas, in percent (what is neither oxygen nor
/// helium).
pub open spec fn nitrogen_percent_of(gas: GasType) -> int {
    match gas {
        GasType::Air => 79,
        GasType::Nitrox { oxygen_percent } => 100 - oxygen_percent,
        GasType::Trimix { oxygen_percent, helium_percent } => 100 - oxygen_percent
            - helium_percent,
    }
}

/// The gas fractions account for at most the whole mix, so the nitrogen
/// share is not negative.
pub open spec fn gas_fractions_valid(gas: GasType) -> bool {
    match gas {
        GasType::Air => true,
        GasType::Nitrox { oxygen_percent } => oxygen_percent <= 100,
        GasType::Trimix { oxygen_percent, helium_percent } => oxygen_percent + helium_percent
            <= 100,
    }
}

/// PPO2 times 100: ambient pressure in decibar-steps of depth times the
/// oxygen fraction, i.e. `(depth + 10) * oxygen% / 10`, saturating at
/// the `u16` ceiling.
pub open spec fn spec_ppo2(depth_meters: u16, gas: GasType) -> u16 {
    let raw = (depth_meters + 10) * oxygen_percent_of(gas) / 10;
    if raw > 65535 {
        65535u16
    } else {
        raw as u16
    }
}

/// Equivalent air depth in meters: the depth at which air would carry
/// the same nitrogen partial pressure, `(depth + 10) * nitrogen% / 79 -
/// 10`, clamped to the `u16` range.  Air maps to the depth itself.
pub open spec fn spec_ead(depth_meters: u16, gas: GasType) -> Option<u16> {
    match gas {
        GasType::Air => Some(depth_meters),
        _ => {
            let q = (depth_meters + 10) * nitrogen_percent_of(gas) / 79;
            if q < 10 {
                Some(0u16)
            } else if q - 10 > 65535 {
                Some(65535u16)
            } else {
                Some((q - 10) as u16)
            }
        },
    }
}

/// Calculates the partial pressure of oxygen (PPO2) for a given depth
/// and gas.  Returns the PPO2 value multiplied by 100 (e.g., 121 = 1.21
/// bar).
pub fn calculate_ppo2(depth_meters: u16, gas: GasType) -> (r: u16)
    ensures
        r == spec_ppo2(depth_meters, gas),
{
    let oxygen_percent: u32 = match gas {
        GasType::Air => 21,
        GasType::Nitrox { oxygen_percent } => oxygen_percent as u32,
        GasType::Trimix { oxygen_percent, helium_percent: _ } => oxygen_percent as u32,
    };
    proof {
        lemma_mul_upper_bound(depth_meters + 10, 65545, oxygen_percent as int, 255);
    }
    let raw: u32 = (depth_meters as u32 + 10) * oxygen_percent / 10;
    if raw > 65535 {
        65535
    } else {
        raw as u16
    }
}

/// Calculates the equivalent air depth (EAD) in meters.
pub fn calculate_ead(depth_meters: u16, gas: GasType) -> (r: Option<u16>)
    requires
        gas_fractions_valid(gas),
    ensures
        r == spec_ead(depth_meters, gas),
{
    match gas {
        GasType::Air => Some(depth_meters),
        GasType::Nitrox { oxygen_percent } => {
            let nitrogen_percent: u32 = 100 - oxygen_percent as u32;
            Some(ead_of(depth_meters, nitrogen_percent))
        },
        GasType::Trimix { oxygen_percent, helium_percent } => {
            let nitrogen_percent: u32 = 100 - oxygen_percent as u32 - helium_percent as u32;
            Some(ead_of(depth_meters, nitrogen_percent))
        },
    }
}

/// The clamped EAD formula on a depth and a nitrogen percentage.
fn ead_of(depth_meters: u16, nitrogen_percent: u32) -> (r: u16)
    requires
        nitrogen_percent <= 100,
    ensures
        r == ({
            let q = (depth_meters + 10) * nitrogen_percent / 79;
            if q < 10 {
                0u16
            } else if q - 10 > 65535 {
                65535u16
            } else {
                (q - 10) as u16
            }
        }),
{
    proof {
        lemma_mul_upper_bound(depth_meters + 10, 65545, nitrogen_percent as int, 100);
    }
    let q: u32 = (depth_meters as u32 + 10) * nitrogen_percent / 79;
    if q < 10 {
        0
    } else if q - 10 > 65535 {
        65535
    } else {
        (q - 10) as u16
    }
}

/// Represents a dive profile with depth and time information.
#[derive(Debug, PartialEq, Eq, Structural, Clone, Copy)]
pub struct DiveProfile {
    /// Maximum depth reached during the dive in centimeters.
    pub max_depth_cm: u16,
    /// Current depth in centimeters.
    pub current_depth_cm: u16,
    /// Dive duration in seconds.
    pub duration_seconds: u32,
    /// Gas type being used.
    pub gas_type: GasType,
    /// Water temperature in degrees Celsius (scaled by 10).
    pub temperature_celsius_x10: i16,
    /// Ascent rate in cm/minute.
    pub ascent_rate_cm_per_min: u16,
    /// Descent rate in cm/minute.
    pub descent_rate_cm_per_min: u16,
}

impl DiveProfile {
    /// Creates a new dive profile with default values.
    pub fn new(gas_type: GasType) -> (r: Self)
        ensures
            r.max_depth_cm == 0,
            r.current_depth_cm == 0,
            r.duration_seconds == 0,
            r.gas_type == gas_type,
            r.temperature_celsius_x10 == 200,
            r.ascent_rate_cm_per_min == 0,
            r.descent_rate_cm_per_min == 0,
    {
        DiveProfile {
            max_depth_cm: 0,
            current_depth_cm: 0,
            duration_seconds: 0,
            gas_type,
            temperature_celsius_x10: 200,  // 20.0 °C
            ascent_rate_cm_per_min: 0,
            descent_rate_cm_per_min: 0,
        }
    }

    /// Updates the current depth and raises the maximum depth if the new
    /// depth exceeds it.
    pub fn update_depth(&mut self, new_depth_cm: u16)
        ensures
            final(self).current_depth_cm == new_depth_cm,
            final(self).max_depth_cm == if new_depth_cm > old(self).max_depth_cm {
                new_depth_cm
            } else {
                old(self).max_depth_cm
            },
            final(self).duration_seconds == old(self).duration_seconds,
            final(self).gas_type == old(self).gas_type,
            final(self).temperature_celsius_x10 == old(self).temperature_celsius_x10,
            final(self).ascent_rate_cm_per_min == old(self).ascent_rate_cm_per_min,
            final(self).descent_rate_cm_per_min == old(self).descent_rate_cm_per_min,
    {
        self.current_depth_cm = new_depth_cm;
        if new_depth_cm > self.max_depth_cm {
            self.max_depth_cm = new_depth_cm;
        }
    }

    /// Increments the dive duration by the specified number of seconds.
    pub fn increment_duration(&mut self, seconds: u32)
        requires
            old(self).duration_seconds + seconds <= u32::MAX,
        ensures
            final(self).duration_seconds == old(self).duration_seconds + seconds,
            final(self).max_depth_cm == old(self).max_depth_cm,
            final(self).current_depth_cm == old(self).current_depth_cm,
            final(self).gas_type == old(self).gas_type,
            final(self).temperature_celsius_x10 == old(self).temperature_celsius_x10,
            final(self).ascent_rate_cm_per_min == old(self).ascent_rate_cm_per_min,
            final(self).descent_rate_cm_per_min == old(self).descent_rate_cm_per_min,
    {
        self.duration_seconds = self.duration_seconds + seconds;
    }

    /// Updates the water temperature.
    pub fn update_temperature(&mut self, celsius_x10: i16)
        ensures
            final(self).temperature_celsius_x10 == celsius_x10,
            final(self).max_depth_cm == old(self).max_depth_cm,
            final(self).current_depth_cm == old(self).current_depth_cm,
            final(self).duration_seconds == old(self).duration_seconds,
            final(self).gas_type == old(self).gas_type,
            final(self).ascent_rate_cm_per_min == old(self).ascent_rate_cm_per_min,
            final(self).descent_rate_cm_per_min == old(self).descent_rate_cm_per_min,
    {
        self.temperature_celsius_x10 = celsius_x10;
    }
}

} // verus!
