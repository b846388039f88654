//! Usage examples for the dive computer library.
//!
//! This module contains examples demonstrating how to use the main
//! functionality of the library: sensors, commands and responses, dive
//! calculations, and the communication protocol.

use vstd::prelude::*;
use crate::sensor::{Sensor, SensorResponse, ReadingType};
use crate::commands::{Command, Response, ResponseStatus, ResponsePayload};
use crate::dive_calc::{GasType, DiveProfile, calculate_ppo2, calculate_ead};
use crate::protocol::{Message, MessageKind, ProtocolError};

verus! {

/// Example of creating and using sensors.
pub fn sensor_example() {
    // Create a new depth sensor
    let depth_sensor = Sensor::new(1, [0u8; 16]);
    assert(depth_sensor.id == 1);

    // Create a sensor response with a depth reading (15.2 meters)
    let depth_reading = SensorResponse::new(1, ReadingType::Depth, 1520, 1234567890);
    assert(depth_reading.value == 1520);

    // Create a temperature sensor
    let temp_sensor = Sensor::new(2, [0u8; 16]);
    assert(temp_sensor.id == 2);

    // Create a sensor response with a temperature reading (21.5 °C)
    let temp_reading = SensorResponse::new(2, ReadingType::Temperature, 215, 1234567890);
    assert(temp_reading.reading_type == ReadingType::Temperature);
}

/// Example of sending commands and processing responses.
pub fn command_example() {
    // Create a command to request device identification
    let id_command = Command::ID;

    // Create a command to read from a depth sensor
    let read_depth_command = Command::ReadSensor { sensor_id: 1, reading_type: 0 };

    // Create a command to start a dive
    let start_dive_command = Command::StartDive;

    // Create a command to set dive parameters: 30 meters, 45 minutes
    let set_params_command = Command::SetParameters { max_depth: 30, max_time: 45 };
    assert(set_params_command is SetParameters);

    // Create a response to the ID command
    let id_response = Response::success(
        1,
        1,
        1234567890,
        Some(
            ResponsePayload::DeviceInfo {
                device_id: 12345,
                firmware_version: [1, 0, 0, 0],
                hardware_version: [1, 0, 0, 0],
            },
        ),
    );
    assert(id_response.status == ResponseStatus::Success);

    // Create an error response with error code 101
    let error_response = Response::error(2, 2, 1234567890, 101);
    assert(error_response.status == ResponseStatus::Error);
    assert(error_response.payload == Some(ResponsePayload::ErrorInfo { code: 101u16 }));
}

/// Example of using dive calculations.
pub fn dive_calc_example() {
    // Create a dive profile with air
    let mut dive_profile = DiveProfile::new(GasType::Air);

    // Update the depth to 18.3 meters
    dive_profile.update_depth(1830);

    // Increment the dive time by 10 minutes
    dive_profile.increment_duration(600);

    // Update the temperature to 18.2 °C
    dive_profile.update_temperature(182);

    // Calculate PPO2 for the current depth
    let depth_meters = dive_profile.current_depth_cm / 100;
    let ppo2 = calculate_ppo2(depth_meters, dive_profile.gas_type);
    assert(ppo2 == 58);

    // Example with nitrox: EAN32 at 18 meters
    let nitrox_profile = DiveProfile::new(GasType::Nitrox { oxygen_percent: 32 });
    let nitrox_ead = calculate_ead(18, GasType::Nitrox { oxygen_percent: 32 });
    assert(nitrox_ead == Some(14u16));
}

/// Example of using the communication protocol.
pub fn protocol_example() -> (r: Result<(), ProtocolError>)
    ensures
        r == Ok::<(), ProtocolError>(()),
{
    // Create a command message with sequence number 123
    let command = Command::GetBatteryStatus;
    let command_message = Message::new(MessageKind::Command, 123, command)?;

    // Serialize the message; the buffer would be sent to the device
    let (size, buffer) = command_message.serialize()?;

    // Create a response message for the same sequence number
    let response_payload = ResponsePayload::BatteryStatus {
        level: 85,
        voltage: 3720,
        estimated_time_remaining: 120,
    };
    let response = Response::success(456, 123, 1234567890, Some(response_payload));
    let response_message = Message::new(MessageKind::Response, 123, response)?;

    // Serialize the response; the buffer would be sent back
    let (response_size, response_buffer) = response_message.serialize()?;

    Ok(())
}

} // verus!
