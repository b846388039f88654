//! Command and response handling for dive computer operations.
//!
//! This module defines the command and response structures used for
//! communication between the dive computer and external devices or systems,
//! together with their wire codec: every value is encoded as a one-byte
//! variant tag followed by its fields in fixed-width big-endian form, so a
//! payload is self-describing and decodes to exactly the value it came from.

use vstd::prelude::*;
use vstd::slice::slice_subrange;
use crate::wire::{
    Wire, be16, be32, be64, bei32, u16_from, u32_from, u64_from, i32_from, read_be16, read_be32,
    read_be64, read_bei32, push_be16, push_be32, push_be64, push_bei32, push_array,
    array_from_slice, bytes_as_array, lemma_bytes_as_array, lemma_be16_round, lemma_be32_round,
    lemma_be64_round, lemma_bei32_round,
};

verus! {

/// Types of messages that can be exchanged in the dive computer system.
#[derive(Debug, PartialEq, Eq, Structural, Clone, Copy)]
pub enum MessageType {
    /// Command message sent to the dive computer.
    Command,
    /// Response message sent from the dive computer.
    Response,
}

/// Commands that can be sent to the dive computer.
#[derive(Debug, PartialEq, Eq, Clone, Copy)]
pub enum Command {
    /// Request device identification.
    ID,
    /// Read data from a specific sensor.
    ReadSensor { sensor_id: u16, reading_type: u8 },
    /// Start a new dive session.
    StartDive,
    /// End the current dive session.
    EndDive,
    /// Set dive parameters for the current or next dive.
    SetParameters { max_depth: u16, max_time: u16 },
    /// Get current dive parameters.
    GetParameters,
    /// Store a dive log entry.
    LogDive { dive_id: u32, data: [u8; 32] },
    /// Retrieve a dive log entry.
    GetDiveLog { dive_id: u32 },
    /// Get battery status information.
    GetBatteryStatus,
    /// Enter low power mode to conserve battery.
    EnterLowPowerMode,
    /// Exit low power mode.
    ExitLowPowerMode,
    /// Calibrate sensors to ensure accurate readings.
    CalibrateSensors,
    /// Run self-diagnostic to check system health.
    RunDiagnostic,
    /// Reset device to factory settings (clears all data).
    FactoryReset,
    /// Start firmware update process.
    UpdateFirmwareStart { version: [u8; 4], total_chunks: u16 },
    /// Send a firmware data chunk.
    UpdateFirmwareChunk { chunk_id: u16, data: [u8; 32] },
    /// Complete firmware update process.
    UpdateFirmwareComplete,
}

/// The encoded bytes of a command: a variant tag, then the fields.
pub open spec fn cmd_wire(c: Command) -> Seq<u8> {
    match c {
        Command::ID => seq![1u8],
        Command::ReadSensor { sensor_id, reading_type } => seq![2u8] + be16(sensor_id)
            + seq![reading_type],
        Command::StartDive => seq![3u8],
        Command::EndDive => seq![4u8],
        Command::SetParameters { max_depth, max_time } => seq![5u8] + be16(max_depth) + be16(
            max_time,
        ),
        Command::GetParameters => seq![6u8],
        Command::LogDive { dive_id, data } => seq![7u8] + be32(dive_id) + data@,
        Command::GetDiveLog { dive_id } => seq![8u8] + be32(dive_id),
        Command::GetBatteryStatus => seq![9u8],
        Command::EnterLowPowerMode => seq![10u8],
        Command::ExitLowPowerMode => seq![11u8],
        Command::CalibrateSensors => seq![12u8],
        Command::RunDiagnostic => seq![13u8],
        Command::FactoryReset => seq![14u8],
        Command::UpdateFirmwareStart { version, total_chunks } => seq![15u8] + version@ + be16(
            total_chunks,
        ),
        Command::UpdateFirmwareChunk { chunk_id, data } => seq![16u8] + be16(chunk_id) + data@,
        Command::UpdateFirmwareComplete => seq![17u8],
    }
}

/// The command a byte sequence encodes, if the tag is known and the
/// length is exactly the tag's field layout.
pub open spec fn cmd_parsed(b: Seq<u8>) -> Option<Command> {
    if b.len() == 0 {
        None
    } else if b[0] == 1 && b.len() == 1 {
        Some(Command::ID)
    } else if b[0] == 2 && b.len() == 4 {
        Some(
            Command::ReadSensor {
                sensor_id: u16_from(b.subrange(1, 3)),
                reading_type: b[3],
            },
        )
    } else if b[0] == 3 && b.len() == 1 {
        Some(Command::StartDive)
    } else if b[0] == 4 && b.len() == 1 {
        Some(Command::EndDive)
    } else if b[0] == 5 && b.len() == 5 {
        Some(
            Command::SetParameters {
                max_depth: u16_from(b.subrange(1, 3)),
                max_time: u16_from(b.subrange(3, 5)),
            },
        )
    } else if b[0] == 6 && b.len() == 1 {
        Some(Command::GetParameters)
    } else if b[0] == 7 && b.len() == 37 {
        Some(
            Command::LogDive {
                dive_id: u32_from(b.subrange(1, 5)),
                data: bytes_as_array::<32>(b.subrange(5, 37)),
            },
        )
    } else if b[0] == 8 && b.len() == 5 {
        Some(Command::GetDiveLog { dive_id: u32_from(b.subrange(1, 5)) })
    } else if b[0] == 9 && b.len() == 1 {
        Some(Command::GetBatteryStatus)
    } else if b[0] == 10 && b.len() == 1 {
        Some(Command::EnterLowPowerMode)
    } else if b[0] == 11 && b.len() == 1 {
        Some(Command::ExitLowPowerMode)
    } else if b[0] == 12 && b.len() == 1 {
        Some(Command::CalibrateSensors)
    } else if b[0] == 13 && b.len() == 1 {
        Some(Command::RunDiagnostic)
    } else if b[0] == 14 && b.len() == 1 {
        Some(Command::FactoryReset)
    } else if b[0] == 15 && b.len() == 7 {
        Some(
            Command::UpdateFirmwareStart {
                version: bytes_as_array::<4>(b.subrange(1, 5)),
                total_chunks: u16_from(b.subrange(5, 7)),
            },
        )
    } else if b[0] == 16 && b.len() == 35 {
        Some(
            Command::UpdateFirmwareChunk {
                chunk_id: u16_from(b.subrange(1, 3)),
                data: bytes_as_array::<32>(b.subrange(3, 35)),
            },
        )
    } else if b[0] == 17 && b.len() == 1 {
        Some(Command::UpdateFirmwareComplete)
    } else {
        None
    }
}

impl Wire for Command {
    open spec fn wire(&self) -> Seq<u8> {
        cmd_wire(*self)
    }

    open spec fn parsed(b: Seq<u8>) -> Option<Command> {
        cmd_parsed(b)
    }

    proof fn lemma_round_trip(&self) {
        let w = cmd_wire(*self);
        match *self {
            Command::ReadSensor { sensor_id, reading_type } => {
                lemma_be16_round(sensor_id);
                assert(w.subrange(1, 3) =~= be16(sensor_id));
            },
            Command::SetParameters { max_depth, max_time } => {
                lemma_be16_round(max_depth);
                lemma_be16_round(max_time);
                assert(w.subrange(1, 3) =~= be16(max_depth));
                assert(w.subrange(3, 5) =~= be16(max_time));
            },
            Command::LogDive { dive_id, data } => {
                lemma_be32_round(dive_id);
                assert(w.subrange(1, 5) =~= be32(dive_id));
                assert(w.subrange(5, 37) =~= data@);
                lemma_bytes_as_array::<32>(data);
            },
            Command::GetDiveLog { dive_id } => {
                lemma_be32_round(dive_id);
                assert(w.subrange(1, 5) =~= be32(dive_id));
            },
            Command::UpdateFirmwareStart { version, total_chunks } => {
                lemma_be16_round(total_chunks);
                assert(w.subrange(1, 5) =~= version@);
                assert(w.subrange(5, 7) =~= be16(total_chunks));
                lemma_bytes_as_array::<4>(version);
            },
            Command::UpdateFirmwareChunk { chunk_id, data } => {
                lemma_be16_round(chunk_id);
                assert(w.subrange(1, 3) =~= be16(chunk_id));
                assert(w.subrange(3, 35) =~= data@);
                lemma_bytes_as_array::<32>(data);
            },
            _ => {},
        }
    }

    fn encode(&self, out: &mut Vec<u8>) {
        match self {
            Command::ID => {
                out.push(1);
            },
            Command::ReadSensor { sensor_id, reading_type } => {
                out.push(2);
                push_be16(out, *sensor_id);
                out.push(*reading_type);
            },
            Command::StartDive => {
                out.push(3);
            },
            Command::EndDive => {
                out.push(4);
            },
            Command::SetParameters { max_depth, max_time } => {
                out.push(5);
                push_be16(out, *max_depth);
                push_be16(out, *max_time);
            },
            Command::GetParameters => {
                out.push(6);
            },
            Command::LogDive { dive_id, data } => {
                out.push(7);
                push_be32(out, *dive_id);
                push_array(out, data);
            },
            Command::GetDiveLog { dive_id } => {
                out.push(8);
                push_be32(out, *dive_id);
            },
            Command::GetBatteryStatus => {
                out.push(9);
            },
            Command::EnterLowPowerMode => {
                out.push(10);
            },
            Command::ExitLowPowerMode => {
                out.push(11);
            },
            Command::CalibrateSensors => {
                out.push(12);
            },
            Command::RunDiagnostic => {
                out.push(13);
            },
            Command::FactoryReset => {
                out.push(14);
            },
            Command::UpdateFirmwareStart { version, total_chunks } => {
                out.push(15);
                push_array(out, version);
                push_be16(out, *total_chunks);
            },
            Command::UpdateFirmwareChunk { chunk_id, data } => {
                out.push(16);
                push_be16(out, *chunk_id);
                push_array(out, data);
            },
            Command::UpdateFirmwareComplete => {
                out.push(17);
            },
        }
        assert(out@ =~= old(out)@ + self.wire());
    }

    fn decode(b: &[u8]) -> (r: Option<Command>) {
        if b.len() == 0 {
            return None;
        }
        let tag = b[0];
        if tag == 1 && b.len() == 1 {
            Some(Command::ID)
        } else if tag == 2 && b.len() == 4 {
            let sensor_id = read_be16(b, 1);
            Some(Command::ReadSensor { sensor_id, reading_type: b[3] })
        } else if tag == 3 && b.len() == 1 {
            Some(Command::StartDive)
        } else if tag == 4 && b.len() == 1 {
            Some(Command::EndDive)
        } else if tag == 5 && b.len() == 5 {
            let max_depth = read_be16(b, 1);
            let max_time = read_be16(b, 3);
            Some(Command::SetParameters { max_depth, max_time })
        } else if tag == 6 && b.len() == 1 {
            Some(Command::GetParameters)
        } else if tag == 7 && b.len() == 37 {
            let dive_id = read_be32(b, 1);
            let data = array_from_slice::<32>(b, 5);
            proof {
                lemma_bytes_as_array::<32>(data);
            }
            Some(Command::LogDive { dive_id, data })
        } else if tag == 8 && b.len() == 5 {
            let dive_id = read_be32(b, 1);
            Some(Command::GetDiveLog { dive_id })
        } else if tag == 9 && b.len() == 1 {
            Some(Command::GetBatteryStatus)
        } else if tag == 10 && b.len() == 1 {
            Some(Command::EnterLowPowerMode)
        } else if tag == 11 && b.len() == 1 {
            Some(Command::ExitLowPowerMode)
        } else if tag == 12 && b.len() == 1 {
            Some(Command::CalibrateSensors)
        } else if tag == 13 && b.len() == 1 {
            Some(Command::RunDiagnostic)
        } else if tag == 14 && b.len() == 1 {
            Some(Command::FactoryReset)
        } else if tag == 15 && b.len() == 7 {
            let version = array_from_slice::<4>(b, 1);
            let total_chunks = read_be16(b, 5);
            proof {
                lemma_bytes_as_array::<4>(version);
            }
            Some(Command::UpdateFirmwareStart { version, total_chunks })
        } else if tag == 16 && b.len() == 35 {
            let chunk_id = read_be16(b, 1);
            let data = array_from_slice::<32>(b, 3);
            proof {
                lemma_bytes_as_array::<32>(data);
            }
            Some(Command::UpdateFirmwareChunk { chunk_id, data })
        } else if tag == 17 && b.len() == 1 {
            Some(Command::UpdateFirmwareComplete)
        } else {
            None
        }
    }
}

/// Status of a response.
#[derive(Debug, PartialEq, Eq, Structural, Clone, Copy)]
pub enum ResponseStatus {
    /// Command executed successfully.
    Success,
    /// Command execution failed.
    Error,
    /// Command is being processed.
    InProgress,
    /// Command was received but execution is delayed.
    Pending,
}

/// The one-byte wire tag of a response status.
pub open spec fn status_tag(s: ResponseStatus) -> u8 {
    match s {
        ResponseStatus::Success => 1,
        ResponseStatus::Error => 2,
        ResponseStatus::InProgress => 3,
        ResponseStatus::Pending => 4,
    }
}

/// The response status a wire tag stands for, if any.
pub open spec fn status_of_tag(t: u8) -> Option<ResponseStatus> {
    if t == 1 {
        Some(ResponseStatus::Success)
    } else if t == 2 {
        Some(ResponseStatus::Error)
    } else if t == 3 {
        Some(ResponseStatus::InProgress)
    } else if t == 4 {
        Some(ResponseStatus::Pending)
    } else {
        None
    }
}

/// Reading a status tag back gives the status it was printed from.
pub proof fn lemma_status_tag_round(s: ResponseStatus)
    ensures
        status_of_tag(status_tag(s)) == Some(s),
{
}

fn status_tag_of(s: &ResponseStatus) -> (r: u8)
    ensures
        r == status_tag(*s),
{
    match s {
        ResponseStatus::Success => 1,
        ResponseStatus::Error => 2,
        ResponseStatus::InProgress => 3,
        ResponseStatus::Pending => 4,
    }
}

fn status_from_tag(t: u8) -> (r: Option<ResponseStatus>)
    ensures
        r == status_of_tag(t),
{
    if t == 1 {
        Some(ResponseStatus::Success)
    } else if t == 2 {
        Some(ResponseStatus::Error)
    } else if t == 3 {
        Some(ResponseStatus::InProgress)
    } else if t == 4 {
        Some(ResponseStatus::Pending)
    } else {
        None
    }
}

/// Payload data for responses.
#[derive(Debug, PartialEq, Eq, Clone, Copy)]
pub enum ResponsePayload {
    /// Device identification information.
    DeviceInfo { device_id: u32, firmware_version: [u8; 4], hardware_version: [u8; 4] },
    /// Sensor reading data.
    SensorData { sensor_id: u8, reading_type: u8, value: i32 },
    /// Current dive parameters.
    DiveParameters { max_depth: u16, max_time: u16, current_depth: u16, elapsed_time: u16 },
    /// Dive log entry.
    DiveLog { dive_id: u32, data: [u8; 32] },
    /// Battery status information.
    BatteryStatus { level: u8, voltage: u16, estimated_time_remaining: u16 },
    /// Diagnostic results.
    DiagnosticResults { status: u8, error_codes: [u8; 4] },
    /// Error information.
    ErrorInfo { code: u16 },
    /// Acknowledgment with no data.
    Ack,
}

/// The encoded bytes of a response payload: a variant tag, then the
/// fields.
pub open spec fn rp_wire(p: ResponsePayload) -> Seq<u8> {
    match p {
        ResponsePayload::DeviceInfo { device_id, firmware_version, hardware_version } => seq![1u8]
            + be32(device_id) + firmware_version@ + hardware_version@,
        ResponsePayload::SensorData { sensor_id, reading_type, value } => seq![
            2u8,
            sensor_id,
            reading_type,
        ] + bei32(value),
        ResponsePayload::DiveParameters { max_depth, max_time, current_depth, elapsed_time } => seq![
            3u8,
        ] + be16(max_depth) + be16(max_time) + be16(current_depth) + be16(elapsed_time),
        ResponsePayload::DiveLog { dive_id, data } => seq![4u8] + be32(dive_id) + data@,
        ResponsePayload::BatteryStatus { level, voltage, estimated_time_remaining } => seq![
            5u8,
            level,
        ] + be16(voltage) + be16(estimated_time_remaining),
        ResponsePayload::DiagnosticResults { status, error_codes } => seq![6u8, status]
            + error_codes@,
        ResponsePayload::ErrorInfo { code } => seq![7u8] + be16(code),
        ResponsePayload::Ack => seq![8u8],
    }
}

/// The response payload a byte sequence encodes, if any.
pub open spec fn rp_parsed(b: Seq<u8>) -> Option<ResponsePayload> {
    if b.len() == 0 {
        None
    } else if b[0] == 1 && b.len() == 13 {
        Some(
            ResponsePayload::DeviceInfo {
                device_id: u32_from(b.subrange(1, 5)),
                firmware_version: bytes_as_array::<4>(b.subrange(5, 9)),
                hardware_version: bytes_as_array::<4>(b.subrange(9, 13)),
            },
        )
    } else if b[0] == 2 && b.len() == 7 {
        Some(
            ResponsePayload::SensorData {
                sensor_id: b[1],
                reading_type: b[2],
                value: i32_from(b.subrange(3, 7)),
            },
        )
    } else if b[0] == 3 && b.len() == 9 {
        Some(
            ResponsePayload::DiveParameters {
                max_depth: u16_from(b.subrange(1, 3)),
                max_time: u16_from(b.subrange(3, 5)),
                current_depth: u16_from(b.subrange(5, 7)),
                elapsed_time: u16_from(b.subrange(7, 9)),
            },
        )
    } else if b[0] == 4 && b.len() == 37 {
        Some(
            ResponsePayload::DiveLog {
                dive_id: u32_from(b.subrange(1, 5)),
                data: bytes_as_array::<32>(b.subrange(5, 37)),
            },
        )
    } else if b[0] == 5 && b.len() == 6 {
        Some(
            ResponsePayload::BatteryStatus {
                level: b[1],
                voltage: u16_from(b.subrange(2, 4)),
                estimated_time_remaining: u16_from(b.subrange(4, 6)),
            },
        )
    } else if b[0] == 6 && b.len() == 6 {
        Some(
            ResponsePayload::DiagnosticResults {
                status: b[1],
                error_codes: bytes_as_array::<4>(b.subrange(2, 6)),
            },
        )
    } else if b[0] == 7 && b.len() == 3 {
        Some(ResponsePayload::ErrorInfo { code: u16_from(b.subrange(1, 3)) })
    } else if b[0] == 8 && b.len() == 1 {
        Some(ResponsePayload::Ack)
    } else {
        None
    }
}

/// Parsing a response payload's encoding gives back the payload.
pub proof fn lemma_rp_round(p: ResponsePayload)
    ensures
        rp_parsed(rp_wire(p)) == Some(p),
{
    let w = rp_wire(p);
    match p {
        ResponsePayload::DeviceInfo { device_id, firmware_version, hardware_version } => {
            lemma_be32_round(device_id);
            assert(w.subrange(1, 5) =~= be32(device_id));
            assert(w.subrange(5, 9) =~= firmware_version@);
            assert(w.subrange(9, 13) =~= hardware_version@);
            lemma_bytes_as_array::<4>(firmware_version);
            lemma_bytes_as_array::<4>(hardware_version);
        },
        ResponsePayload::SensorData { sensor_id, reading_type, value } => {
            lemma_bei32_round(value);
            assert(w.subrange(3, 7) =~= bei32(value));
        },
        ResponsePayload::DiveParameters { max_depth, max_time, current_depth, elapsed_time } => {
            lemma_be16_round(max_depth);
            lemma_be16_round(max_time);
            lemma_be16_round(current_depth);
            lemma_be16_round(elapsed_time);
            assert(w.subrange(1, 3) =~= be16(max_depth));
            assert(w.subrange(3, 5) =~= be16(max_time));
            assert(w.subrange(5, 7) =~= be16(current_depth));
            assert(w.subrange(7, 9) =~= be16(elapsed_time));
        },
        ResponsePayload::DiveLog { dive_id, data } => {
            lemma_be32_round(dive_id);
            assert(w.subrange(1, 5) =~= be32(dive_id));
            assert(w.subrange(5, 37) =~= data@);
            lemma_bytes_as_array::<32>(data);
        },
        ResponsePayload::BatteryStatus { level, voltage, estimated_time_remaining } => {
            lemma_be16_round(voltage);
            lemma_be16_round(estimated_time_remaining);
            assert(w.subrange(2, 4) =~= be16(voltage));
            assert(w.subrange(4, 6) =~= be16(estimated_time_remaining));
        },
        ResponsePayload::DiagnosticResults { status, error_codes } => {
            assert(w.subrange(2, 6) =~= error_codes@);
            lemma_bytes_as_array::<4>(error_codes);
        },
        ResponsePayload::ErrorInfo { code } => {
            lemma_be16_round(code);
            assert(w.subrange(1, 3) =~= be16(code));
        },
        ResponsePayload::Ack => {},
    }
}

/// Appends the encoded bytes of a response payload.
fn encode_rp(p: &ResponsePayload, out: &mut Vec<u8>)
    ensures
        final(out)@ == old(out)@ + rp_wire(*p),
{
    match p {
        ResponsePayload::DeviceInfo { device_id, firmware_version, hardware_version } => {
            out.push(1);
            push_be32(out, *device_id);
            push_array(out, firmware_version);
            push_array(out, hardware_version);
        },
        ResponsePayload::SensorData { sensor_id, reading_type, value } => {
            out.push(2);
            out.push(*sensor_id);
            out.push(*reading_type);
            push_bei32(out, *value);
        },
        ResponsePayload::DiveParameters { max_depth, max_time, current_depth, elapsed_time } => {
            out.push(3);
            push_be16(out, *max_depth);
            push_be16(out, *max_time);
            push_be16(out, *current_depth);
            push_be16(out, *elapsed_time);
        },
        ResponsePayload::DiveLog { dive_id, data } => {
            out.push(4);
            push_be32(out, *dive_id);
            push_array(out, data);
        },
        ResponsePayload::BatteryStatus { level, voltage, estimated_time_remaining } => {
            out.push(5);
            out.push(*level);
            push_be16(out, *voltage);
            push_be16(out, *estimated_time_remaining);
        },
        ResponsePayload::DiagnosticResults { status, error_codes } => {
            out.push(6);
            out.push(*status);
            push_array(out, error_codes);
        },
        ResponsePayload::ErrorInfo { code } => {
            out.push(7);
            push_be16(out, *code);
        },
        ResponsePayload::Ack => {
            out.push(8);
        },
    }
    assert(out@ =~= old(out)@ + rp_wire(*p));
}

/// Parses a response payload from exactly the given bytes.
fn decode_rp(b: &[u8]) -> (r: Option<ResponsePayload>)
    ensures
        r == rp_parsed(b@),
{
    if b.len() == 0 {
        return None;
    }
    let tag = b[0];
    if tag == 1 && b.len() == 13 {
        let device_id = read_be32(b, 1);
        let firmware_version = array_from_slice::<4>(b, 5);
        let hardware_version = array_from_slice::<4>(b, 9);
        proof {
            lemma_bytes_as_array::<4>(firmware_version);
            lemma_bytes_as_array::<4>(hardware_version);
        }
        Some(ResponsePayload::DeviceInfo { device_id, firmware_version, hardware_version })
    } else if tag == 2 && b.len() == 7 {
        let value = read_bei32(b, 3);
        Some(ResponsePayload::SensorData { sensor_id: b[1], reading_type: b[2], value })
    } else if tag == 3 && b.len() == 9 {
        let max_depth = read_be16(b, 1);
        let max_time = read_be16(b, 3);
        let current_depth = read_be16(b, 5);
        let elapsed_time = read_be16(b, 7);
        Some(ResponsePayload::DiveParameters { max_depth, max_time, current_depth, elapsed_time })
    } else if tag == 4 && b.len() == 37 {
        let dive_id = read_be32(b, 1);
        let data = array_from_slice::<32>(b, 5);
        proof {
            lemma_bytes_as_array::<32>(data);
        }
        Some(ResponsePayload::DiveLog { dive_id, data })
    } else if tag == 5 && b.len() == 6 {
        let voltage = read_be16(b, 2);
        let estimated_time_remaining = read_be16(b, 4);
        Some(ResponsePayload::BatteryStatus { level: b[1], voltage, estimated_time_remaining })
    } else if tag == 6 && b.len() == 6 {
        let error_codes = array_from_slice::<4>(b, 2);
        proof {
            lemma_bytes_as_array::<4>(error_codes);
        }
        Some(ResponsePayload::DiagnosticResults { status: b[1], error_codes })
    } else if tag == 7 && b.len() == 3 {
        let code = read_be16(b, 1);
        Some(ResponsePayload::ErrorInfo { code })
    } else if tag == 8 && b.len() == 1 {
        Some(ResponsePayload::Ack)
    } else {
        None
    }
}

/// The encoded bytes of an optional response payload: a presence byte,
/// then the payload's bytes if present.
pub open spec fn opt_rp_wire(p: Option<ResponsePayload>) -> Seq<u8> {
    match p {
        None => seq![0u8],
        Some(q) => seq![1u8] + rp_wire(q),
    }
}

/// The optional response payload a byte sequence encodes, if any.
pub open spec fn opt_rp_parsed(b: Seq<u8>) -> Option<Option<ResponsePayload>> {
    if b.len() == 0 {
        None
    } else if b[0] == 0 && b.len() == 1 {
        Some(None)
    } else if b[0] == 1 {
        match rp_parsed(b.subrange(1, b.len() as int)) {
            Some(q) => Some(Some(q)),
            None => None,
        }
    } else {
        None
    }
}

/// Parsing an optional response payload's encoding gives it back.
pub proof fn lemma_opt_rp_round(p: Option<ResponsePayload>)
    ensures
        opt_rp_parsed(opt_rp_wire(p)) == Some(p),
{
    match p {
        None => {},
        Some(q) => {
            let w = opt_rp_wire(p);
            assert(w.subrange(1, w.len() as int) =~= rp_wire(q));
            lemma_rp_round(q);
        },
    }
}

/// Parses an optional response payload from exactly the given bytes.
fn decode_opt_rp(b: &[u8]) -> (r: Option<Option<ResponsePayload>>)
    ensures
        r == opt_rp_parsed(b@),
{
    if b.len() == 0 {
        return None;
    }
    if b[0] == 0 && b.len() == 1 {
        Some(None)
    } else if b[0] == 1 {
        let inner = slice_subrange(b, 1, b.len());
        match decode_rp(inner) {
            Some(q) => Some(Some(q)),
            None => None,
        }
    } else {
        None
    }
}

/// A response from the dive computer.
#[derive(Debug, PartialEq, Eq, Clone, Copy)]
pub struct Response {
    /// Unique response ID.
    pub id: u32,
    /// ID of the command that triggered this response.
    pub command_id: u32,
    /// Status code of the response.
    pub status: ResponseStatus,
    /// Timestamp when the response was generated.
    pub timestamp: u64,
    /// Optional payload data.
    pub payload: Option<ResponsePayload>,
}

impl Response {
    /// Creates a new response with the specified parameters.
    pub fn new(
        id: u32,
        command_id: u32,
        status: ResponseStatus,
        timestamp: u64,
        payload: Option<ResponsePayload>,
    ) -> (r: Self)
        ensures
            r.id == id,
            r.command_id == command_id,
            r.status == status,
            r.timestamp == timestamp,
            r.payload == payload,
    {
        Response { id, command_id, status, timestamp, payload }
    }

    /// Creates a success response with the specified parameters.
    pub fn success(id: u32, command_id: u32, timestamp: u64, payload: Option<ResponsePayload>) -> (r:
        Self)
        ensures
            r.id == id,
            r.command_id == command_id,
            r.status == ResponseStatus::Success,
            r.timestamp == timestamp,
            r.payload == payload,
    {
        Response::new(id, command_id, ResponseStatus::Success, timestamp, payload)
    }

    /// Creates an error response carrying the given error code.
    pub fn error(id: u32, command_id: u32, timestamp: u64, error_code: u16) -> (r: Self)
        ensures
            r.id == id,
            r.command_id == command_id,
            r.status == ResponseStatus::Error,
            r.timestamp == timestamp,
            r.payload == Some(ResponsePayload::ErrorInfo { code: error_code }),
    {
        Response::new(
            id,
            command_id,
            ResponseStatus::Error,
            timestamp,
            Some(ResponsePayload::ErrorInfo { code: error_code }),
        )
    }
}

/// The encoded bytes of a response: id, command id, status tag,
/// timestamp, then the optional payload.
pub open spec fn resp_wire(r: Response) -> Seq<u8> {
    be32(r.id) + be32(r.command_id) + seq![status_tag(r.status)] + be64(r.timestamp) + opt_rp_wire(
        r.payload,
    )
}

/// The response a byte sequence encodes, if any.
pub open spec fn resp_parsed(b: Seq<u8>) -> Option<Response> {
    if b.len() < 18 {
        None
    } else {
        match status_of_tag(b[8]) {
            None => None,
            Some(status) => match opt_rp_parsed(b.subrange(17, b.len() as int)) {
                None => None,
                Some(payload) => Some(
                    Response {
                        id: u32_from(b.subrange(0, 4)),
                        command_id: u32_from(b.subrange(4, 8)),
                        status,
                        timestamp: u64_from(b.subrange(9, 17)),
                        payload,
                    },
                ),
            },
        }
    }
}

impl Wire for Response {
    open spec fn wire(&self) -> Seq<u8> {
        resp_wire(*self)
    }

    open spec fn parsed(b: Seq<u8>) -> Option<Response> {
        resp_parsed(b)
    }

    proof fn lemma_round_trip(&self) {
        let w = resp_wire(*self);
        lemma_be32_round(self.id);
        lemma_be32_round(self.command_id);
        lemma_status_tag_round(self.status);
        lemma_be64_round(self.timestamp);
        lemma_opt_rp_round(self.payload);
        assert(w.subrange(0, 4) =~= be32(self.id));
        assert(w.subrange(4, 8) =~= be32(self.command_id));
        assert(w[8] == status_tag(self.status));
        assert(w.subrange(9, 17) =~= be64(self.timestamp));
        assert(w.subrange(17, w.len() as int) =~= opt_rp_wire(self.payload));
    }

    fn encode(&self, out: &mut Vec<u8>) {
        push_be32(out, self.id);
        push_be32(out, self.command_id);
        out.push(status_tag_of(&self.status));
        push_be64(out, self.timestamp);
        match &self.payload {
            None => {
                out.push(0);
            },
            Some(q) => {
                out.push(1);
                encode_rp(q, out);
            },
        }
        assert(out@ =~= old(out)@ + self.wire());
    }

    fn decode(b: &[u8]) -> (r: Option<Response>) {
        if b.len() < 18 {
            return None;
        }
        let status = match status_from_tag(b[8]) {
            Some(s) => s,
            None => {
                return None;
            },
        };
        let opt_region = slice_subrange(b, 17, b.len());
        let payload = match decode_opt_rp(opt_region) {
            Some(p) => p,
            None => {
                return None;
            },
        };
        let id = read_be32(b, 0);
        let command_id = read_be32(b, 4);
        let timestamp = read_be64(b, 9);
        Some(Response { id, command_id, status, timestamp, payload })
    }
}

} // verus!
