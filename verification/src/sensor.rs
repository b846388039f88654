//! Sensor module for dive computer.
//!
//! This module defines the structures for working with the sensors of a
//! dive computer system: sensor identification and sensor readings.

use vstd::prelude::*;

verus! {

/// Represents a physical sensor device connected to the dive computer.
#[derive(Debug, PartialEq, Eq, Clone, Copy)]
pub struct Sensor {
    /// Unique identifier for the sensor.
    pub id: u16,
    /// Name of the sensor (fixed-length array, no allocation needed).
    pub name: [u8; 16],
}

impl Sensor {
    /// Creates a new sensor with the specified ID and name.
    pub fn new(sensor_id: u16, name: [u8; 16]) -> (r: Self)
        ensures
            r.id == sensor_id,
            r.name == name,
    {
        Sensor { id: sensor_id, name }
    }
}

/// Types of readings that can be provided by sensors.
#[derive(Debug, PartialEq, Eq, Structural, Clone, Copy)]
pub enum ReadingType {
    /// Water depth in centimeters.
    Depth,
    /// Temperature in degrees Celsius (scaled by 10, e.g., 215 = 21.5 °C).
    Temperature,
    /// Pressure in millibars.
    Pressure,
    /// Battery level in percentage (0-100).
    Battery,
}

/// Represents a response from a sensor containing a reading value.
#[derive(Debug, PartialEq, Eq, Structural, Clone, Copy)]
pub struct SensorResponse {
    /// ID of the sensor that provided this reading.
    pub sensor_id: u16,
    /// Type of reading (depth, temperature, etc.).
    pub reading_type: ReadingType,
    /// Value of the reading (units depend on `reading_type`).
    pub value: i32,
    /// Timestamp when the reading was taken (milliseconds since start).
    pub timestamp: u64,
}

impl SensorResponse {
    /// Creates a new sensor response with the specified parameters.
    pub fn new(sensor_id: u16, reading_type: ReadingType, value: i32, timestamp: u64) -> (r: Self)
        ensures
            r.sensor_id == sensor_id,
            r.reading_type == reading_type,
            r.value == value,
            r.timestamp == timestamp,
    {
        SensorResponse { sensor_id, reading_type, value, timestamp }
    }
}

} // verus!
