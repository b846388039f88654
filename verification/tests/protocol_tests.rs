use dive_core::protocol::{
    calculate_checksum, Message, MessageHeader, MessageKind, ProtocolError, MAX_MESSAGE_SIZE,
    PROTOCOL_VERSION,
};
use dive_core::commands::{Command, Response, ResponsePayload, ResponseStatus};

#[test]
fn checksum_of_empty_slice_is_ff() {
    assert_eq!(calculate_checksum(&[]), 0xFF);
}

#[test]
fn checksum_known_values() {
    assert_eq!(calculate_checksum(&[0]), 0xFF);
    assert_eq!(calculate_checksum(&[1, 2, 3]), 255 - 6);
    // the sum wraps mod 256: 200 + 100 = 300 -> 44
    assert_eq!(calculate_checksum(&[200, 100]), 255 - 44);
    assert_eq!(calculate_checksum(&[255, 1]), 255);
}

#[test]
fn header_builds_with_protocol_constants() {
    let h = MessageHeader::new(MessageKind::Command, 0x1234, 5);
    assert_eq!(h.magic, [0xDC, 0x42]);
    assert_eq!(h.version, PROTOCOL_VERSION);
    assert_eq!(h.kind, MessageKind::Command);
    assert_eq!(h.sequence, 0x1234);
    assert_eq!(h.payload_length, 5);
    assert!(h.validate_checksum());
}

#[test]
fn header_checksum_detects_field_change() {
    let mut h = MessageHeader::new(MessageKind::Response, 7, 3);
    assert!(h.validate_checksum());
    h.sequence = 8;
    assert!(!h.validate_checksum());
    h.sequence = 7;
    assert!(h.validate_checksum());
    h.header_checksum = h.header_checksum.wrapping_add(1);
    assert!(!h.validate_checksum());
}

#[test]
fn message_kind_tags_round_trip() {
    for kind in [
        MessageKind::Command,
        MessageKind::Response,
        MessageKind::Notification,
        MessageKind::Ack,
        MessageKind::Error,
    ] {
        assert_eq!(MessageKind::from_tag(kind.tag()), Some(kind));
    }
    assert_eq!(MessageKind::from_tag(0), None);
    assert_eq!(MessageKind::from_tag(6), None);
}

#[test]
fn command_message_scenario_exact_bytes() {
    // kind = Command, sequence = 123, payload = get battery status
    let message = Message::new(MessageKind::Command, 123, Command::GetBatteryStatus).unwrap();
    let (size, buffer) = message.serialize().unwrap();
    // header (9 bytes) + payload encoding (1 byte) + payload checksum (1 byte)
    assert_eq!(size, 11);
    assert_eq!(
        &buffer[..],
        &[0xDC, 0x42, 1, 1, 0, 123, 0, 1, 99, 9, 246][..]
    );
    let parsed = Message::<Command>::try_from(&buffer[..size]).unwrap();
    assert_eq!(parsed.header, message.header);
    assert_eq!(parsed.payload, Command::GetBatteryStatus);
    assert_eq!(parsed.payload_checksum, message.payload_checksum);

    // mutating the header checksum byte at offset 8 must be caught
    let mut corrupted = buffer.clone();
    corrupted[8] = corrupted[8].wrapping_add(1);
    assert_eq!(
        Message::<Command>::try_from(&corrupted[..]),
        Err(ProtocolError::ChecksumMismatch)
    );
}

#[test]
fn command_messages_round_trip() {
    let commands = [
        Command::ID,
        Command::ReadSensor { sensor_id: 512, reading_type: 2 },
        Command::StartDive,
        Command::EndDive,
        Command::SetParameters { max_depth: 30, max_time: 45 },
        Command::GetParameters,
        Command::LogDive { dive_id: 0xDEADBEEF, data: [0xAB; 32] },
        Command::GetDiveLog { dive_id: 42 },
        Command::GetBatteryStatus,
        Command::EnterLowPowerMode,
        Command::ExitLowPowerMode,
        Command::CalibrateSensors,
        Command::RunDiagnostic,
        Command::FactoryReset,
        Command::UpdateFirmwareStart { version: [2, 1, 0, 7], total_chunks: 640 },
        Command::UpdateFirmwareChunk { chunk_id: 17, data: [0x5A; 32] },
        Command::UpdateFirmwareComplete,
    ];
    for (i, command) in commands.iter().enumerate() {
        let message = Message::new(MessageKind::Command, i as u16, *command).unwrap();
        let (size, buffer) = message.serialize().unwrap();
        let parsed = Message::<Command>::try_from(&buffer[..size]).unwrap();
        assert_eq!(parsed, message);
    }
}

#[test]
fn response_messages_round_trip() {
    let payloads = [
        None,
        Some(ResponsePayload::DeviceInfo {
            device_id: 12345,
            firmware_version: [1, 0, 0, 0],
            hardware_version: [1, 2, 3, 4],
        }),
        Some(ResponsePayload::SensorData { sensor_id: 3, reading_type: 1, value: -215 }),
        Some(ResponsePayload::DiveParameters {
            max_depth: 3000,
            max_time: 45,
            current_depth: 1830,
            elapsed_time: 600,
        }),
        Some(ResponsePayload::DiveLog { dive_id: 99, data: [7; 32] }),
        Some(ResponsePayload::BatteryStatus {
            level: 85,
            voltage: 3720,
            estimated_time_remaining: 120,
        }),
        Some(ResponsePayload::DiagnosticResults { status: 0, error_codes: [0, 1, 2, 3] }),
        Some(ResponsePayload::ErrorInfo { code: 101 }),
        Some(ResponsePayload::Ack),
    ];
    for (i, payload) in payloads.iter().enumerate() {
        let response = Response::new(i as u32, 7, ResponseStatus::Success, 1234567890, *payload);
        let message = Message::new(MessageKind::Response, 123, response).unwrap();
        let (size, buffer) = message.serialize().unwrap();
        let parsed = Message::<Response>::try_from(&buffer[..size]).unwrap();
        assert_eq!(parsed, message);
        assert_eq!(parsed.payload.payload, *payload);
    }
}

#[test]
fn negative_sensor_values_round_trip() {
    for value in [i32::MIN, -1, 0, 1, i32::MAX] {
        let payload = ResponsePayload::SensorData { sensor_id: 1, reading_type: 1, value };
        let response = Response::success(1, 1, 0, Some(payload));
        let message = Message::new(MessageKind::Response, 1, response).unwrap();
        let (size, buffer) = message.serialize().unwrap();
        let parsed = Message::<Response>::try_from(&buffer[..size]).unwrap();
        assert_eq!(parsed.payload.payload, Some(payload));
    }
}

#[test]
fn altering_magic_bytes_gives_invalid_magic() {
    let message = Message::new(MessageKind::Command, 1, Command::ID).unwrap();
    let (size, buffer) = message.serialize().unwrap();
    for offset in 0..2 {
        let mut corrupted = buffer[..size].to_vec();
        corrupted[offset] ^= 0x01;
        assert_eq!(
            Message::<Command>::try_from(&corrupted[..]),
            Err(ProtocolError::InvalidMagic)
        );
    }
}

#[test]
fn altering_version_gives_unsupported_version() {
    let message = Message::new(MessageKind::Command, 1, Command::ID).unwrap();
    let (size, buffer) = message.serialize().unwrap();
    for version in [0u8, 2, 0xFF] {
        let mut corrupted = buffer[..size].to_vec();
        corrupted[2] = version;
        assert_eq!(
            Message::<Command>::try_from(&corrupted[..]),
            Err(ProtocolError::UnsupportedVersion)
        );
    }
}

#[test]
fn unknown_kind_tag_gives_deserialization_error() {
    let message = Message::new(MessageKind::Command, 1, Command::ID).unwrap();
    let (size, buffer) = message.serialize().unwrap();
    let mut corrupted = buffer[..size].to_vec();
    corrupted[3] = 99;
    assert_eq!(
        Message::<Command>::try_from(&corrupted[..]),
        Err(ProtocolError::DeserializationError)
    );
}

#[test]
fn corrupting_header_fields_gives_checksum_mismatch() {
    let message = Message::new(MessageKind::Command, 123, Command::GetBatteryStatus).unwrap();
    let (size, buffer) = message.serialize().unwrap();
    // sequence, payload length and the stored checksum itself
    for offset in 4..9 {
        let mut corrupted = buffer[..size].to_vec();
        corrupted[offset] = corrupted[offset].wrapping_add(1);
        assert_eq!(
            Message::<Command>::try_from(&corrupted[..]),
            Err(ProtocolError::ChecksumMismatch)
        );
    }
}

#[test]
fn flipping_any_single_bit_of_the_sequence_field_is_caught() {
    let message = Message::new(MessageKind::Command, 0x55AA, Command::ID).unwrap();
    let (size, buffer) = message.serialize().unwrap();
    for offset in 4..6 {
        for bit in 0..8 {
            let mut corrupted = buffer[..size].to_vec();
            corrupted[offset] ^= 1 << bit;
            assert_eq!(
                Message::<Command>::try_from(&corrupted[..]),
                Err(ProtocolError::ChecksumMismatch)
            );
        }
    }
}

#[test]
fn corrupting_payload_bytes_is_never_accepted() {
    // a raw byte payload decodes at any content, so corruption inside the
    // payload region is always caught by the payload checksum
    let payload: [u8; 4] = [10, 20, 30, 40];
    let message = Message::new(MessageKind::Notification, 9, payload).unwrap();
    let (size, buffer) = message.serialize().unwrap();
    for offset in 9..13 {
        let mut corrupted = buffer[..size].to_vec();
        corrupted[offset] ^= 0x80;
        assert_eq!(
            Message::<[u8; 4]>::try_from(&corrupted[..]),
            Err(ProtocolError::ChecksumMismatch)
        );
    }
    // the trailing payload checksum byte itself
    let mut corrupted = buffer[..size].to_vec();
    corrupted[13] = corrupted[13].wrapping_add(1);
    assert_eq!(
        Message::<[u8; 4]>::try_from(&corrupted[..]),
        Err(ProtocolError::ChecksumMismatch)
    );
}

#[test]
fn truncated_buffers_give_invalid_format() {
    let message = Message::new(MessageKind::Command, 5, Command::SetParameters {
        max_depth: 30,
        max_time: 45,
    })
    .unwrap();
    let (size, buffer) = message.serialize().unwrap();
    // anything shorter than header + declared payload + checksum fails;
    // below the nine header bytes it fails before even reading the header
    for cut in 0..size {
        assert_eq!(
            Message::<Command>::try_from(&buffer[..cut]),
            Err(ProtocolError::InvalidFormat)
        );
    }
}

#[test]
fn payload_the_codec_rejects_gives_deserialization_error() {
    // hand-build a frame whose payload byte is no command encoding
    let mut bytes = vec![0xDC, 0x42, 1, 1, 0, 7, 0, 1];
    let header_checksum = calculate_checksum(&bytes);
    bytes.push(header_checksum);
    bytes.push(0xFF); // no command has tag 0xFF
    bytes.push(calculate_checksum(&[0xFF]));
    assert_eq!(
        Message::<Command>::try_from(&bytes[..]),
        Err(ProtocolError::DeserializationError)
    );
    // the same frame taken as a raw byte payload parses fine
    let raw = Message::<[u8; 1]>::try_from(&bytes[..]).unwrap();
    assert_eq!(raw.payload, [0xFF]);
}

#[test]
fn oversized_payload_is_rejected_at_construction() {
    // 250 payload bytes + 9 header bytes + 1 checksum byte > 256
    let payload = [0u8; 250];
    assert_eq!(
        Message::new(MessageKind::Command, 1, payload),
        Err(ProtocolError::MessageTooLarge)
    );
}

#[test]
fn largest_fitting_payload_is_accepted() {
    let payload = [0x11u8; 246];
    let message = Message::new(MessageKind::Command, 1, payload).unwrap();
    let (size, buffer) = message.serialize().unwrap();
    assert_eq!(size, MAX_MESSAGE_SIZE);
    let parsed = Message::<[u8; 246]>::try_from(&buffer[..size]).unwrap();
    assert_eq!(parsed, message);
}

#[test]
fn oversized_message_is_rejected_at_serialization() {
    // a hand-assembled message that was never vetted by `new`
    let message = Message {
        header: MessageHeader::new(MessageKind::Command, 1, 250),
        payload: [0u8; 250],
        payload_checksum: 0,
    };
    assert_eq!(message.serialize(), Err(ProtocolError::MessageTooLarge));
}

#[test]
fn empty_payload_round_trips_with_ff_checksum() {
    let message = Message::new(MessageKind::Ack, 5, ()).unwrap();
    assert_eq!(message.header.payload_length, 0);
    assert_eq!(message.payload_checksum, 0xFF);
    let (size, buffer) = message.serialize().unwrap();
    assert_eq!(size, 10);
    assert_eq!(&buffer[..], &[0xDC, 0x42, 1, 4, 0, 5, 0, 0, 215, 0xFF][..]);
    let parsed = Message::<()>::try_from(&buffer[..size]).unwrap();
    assert_eq!(parsed, message);
}
