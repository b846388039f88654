use dive_core::dive_calc::{calculate_ead, calculate_ppo2, DiveProfile, GasType};
use dive_core::sensor::{ReadingType, Sensor, SensorResponse};
use dive_core::commands::{Response, ResponsePayload, ResponseStatus};
use dive_core::examples::{command_example, dive_calc_example, protocol_example, sensor_example};

#[test]
fn ppo2_on_air() {
    // at the surface: 1 bar * 0.21 = 0.21 bar
    assert_eq!(calculate_ppo2(0, GasType::Air), 21);
    // at 18 m: 2.8 bar * 0.21 = 0.588 bar, reported truncated
    assert_eq!(calculate_ppo2(18, GasType::Air), 58);
    // at 40 m: 5 bar * 0.21 = 1.05 bar
    assert_eq!(calculate_ppo2(40, GasType::Air), 105);
}

#[test]
fn ppo2_on_nitrox_and_trimix() {
    // EAN32 at 30 m: 4 bar * 0.32 = 1.28 bar
    assert_eq!(calculate_ppo2(30, GasType::Nitrox { oxygen_percent: 32 }), 128);
    // trimix 18/45 at 60 m: 7 bar * 0.18 = 1.26 bar
    assert_eq!(
        calculate_ppo2(60, GasType::Trimix { oxygen_percent: 18, helium_percent: 45 }),
        126
    );
}

#[test]
fn ppo2_saturates_at_the_u16_ceiling() {
    assert_eq!(calculate_ppo2(65535, GasType::Nitrox { oxygen_percent: 100 }), 65535);
}

#[test]
fn ead_on_air_is_the_depth_itself() {
    assert_eq!(calculate_ead(0, GasType::Air), Some(0));
    assert_eq!(calculate_ead(33, GasType::Air), Some(33));
}

#[test]
fn ead_on_nitrox() {
    // EAN32 at 18 m: (28 * 0.68 / 0.79) - 10, truncated: 14 m
    assert_eq!(calculate_ead(18, GasType::Nitrox { oxygen_percent: 32 }), Some(14));
    // EAN36 at 30 m: (40 * 0.64 / 0.79) - 10, truncated: 22 m
    assert_eq!(calculate_ead(30, GasType::Nitrox { oxygen_percent: 36 }), Some(22));
}

#[test]
fn ead_on_trimix() {
    // 18/45 at 60 m: nitrogen 37%: (70 * 0.37 / 0.79) - 10, truncated: 22 m
    assert_eq!(
        calculate_ead(60, GasType::Trimix { oxygen_percent: 18, helium_percent: 45 }),
        Some(22)
    );
}

#[test]
fn ead_clamps_at_zero_for_oxygen_rich_gas_near_surface() {
    // EAN80 at the surface: the equivalent air depth would be negative
    assert_eq!(calculate_ead(0, GasType::Nitrox { oxygen_percent: 80 }), Some(0));
}

#[test]
fn dive_profile_tracks_depth_duration_and_temperature() {
    let mut profile = DiveProfile::new(GasType::Air);
    assert_eq!(profile.max_depth_cm, 0);
    assert_eq!(profile.temperature_celsius_x10, 200);

    profile.update_depth(1830);
    assert_eq!(profile.current_depth_cm, 1830);
    assert_eq!(profile.max_depth_cm, 1830);

    profile.update_depth(1500);
    assert_eq!(profile.current_depth_cm, 1500);
    assert_eq!(profile.max_depth_cm, 1830);

    profile.increment_duration(600);
    profile.increment_duration(60);
    assert_eq!(profile.duration_seconds, 660);

    profile.update_temperature(182);
    assert_eq!(profile.temperature_celsius_x10, 182);
    assert_eq!(profile.gas_type, GasType::Air);
}

#[test]
fn sensors_hold_their_identity_and_readings() {
    let depth_sensor = Sensor::new(1, *b"Depth Sensor    ");
    assert_eq!(depth_sensor.id, 1);
    assert_eq!(&depth_sensor.name[..5], b"Depth");

    let reading = SensorResponse::new(1, ReadingType::Depth, 1520, 1234567890);
    assert_eq!(reading.sensor_id, 1);
    assert_eq!(reading.reading_type, ReadingType::Depth);
    assert_eq!(reading.value, 1520);
    assert_eq!(reading.timestamp, 1234567890);
}

#[test]
fn responses_carry_status_and_payload() {
    let ok = Response::success(1, 2, 3, Some(ResponsePayload::Ack));
    assert_eq!(ok.id, 1);
    assert_eq!(ok.command_id, 2);
    assert_eq!(ok.status, ResponseStatus::Success);
    assert_eq!(ok.timestamp, 3);
    assert_eq!(ok.payload, Some(ResponsePayload::Ack));

    let failed = Response::error(4, 5, 6, 101);
    assert_eq!(failed.status, ResponseStatus::Error);
    assert_eq!(failed.payload, Some(ResponsePayload::ErrorInfo { code: 101 }));

    let pending = Response::new(7, 8, ResponseStatus::Pending, 9, None);
    assert_eq!(pending.status, ResponseStatus::Pending);
    assert_eq!(pending.payload, None);
}

#[test]
fn examples_run() {
    sensor_example();
    command_example();
    dive_calc_example();
    assert_eq!(protocol_example(), Ok(()));
}
