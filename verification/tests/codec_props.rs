use freed::commands::Commands;
use freed::error::DeserialiseError;
use freed::error::FieldKind;
use freed::extend_array;
use freed::flags::LEDFlags;
use freed::flags::SwitchSettingFlags;
use freed::message::deserialise;
use freed::message::Message;
use freed::message::Payloads;
use freed::packed::i24;
use freed::packed::u24;
use freed::packed::Millimetre32768th;
use freed::packed::Millimetre64th;
use freed::packed::Pixel32768th;
use freed::payloads::CameraCalibrationPayload;
use freed::payloads::DiagnosticModePayload;
use freed::payloads::EEPROMDataPayload;
use freed::payloads::EEPROMDataRequestPayload;
use freed::payloads::ImageDataPayload;
use freed::payloads::PollPayload;
use freed::payloads::PositionPollPayload;
use freed::payloads::SystemControlPayload;
use freed::payloads::SystemStatusPayload;
use freed::payloads::TargetDataPayload;
use freed::status::DSPError;
use freed::status::DiagnosticModes;
use freed::status::SystemStatus;
use freed::Deserialise;
use freed::FromBytes;
use freed::Serialise;
use freed::ALL_CAMERAS;

fn packed_u24_survives(v: u32) {
    let x = u24::new(v).unwrap();
    let mut bytes: Vec<u8> = Vec::new();
    x.encode_onto(&mut bytes);
    assert_eq!(bytes.len(), 3);
    let back = u24::from_be_bytes([bytes[0], bytes[1], bytes[2]]);
    assert_eq!(back.value(), v);
}

fn packed_i24_survives(v: i32) {
    let x = i24::new(v).unwrap();
    let mut bytes: Vec<u8> = Vec::new();
    x.encode_onto(&mut bytes);
    assert_eq!(bytes.len(), 3);
    let back = i24::from_be_bytes([bytes[0], bytes[1], bytes[2]]);
    assert_eq!(back.value(), v);
}

#[test]
fn packed_roundtrip_boundaries() {
    packed_u24_survives(0);
    packed_u24_survives(1);
    packed_u24_survives(0xAABBCC);
    packed_u24_survives(0xFFFFFF);
    packed_i24_survives(0);
    packed_i24_survives(-1);
    packed_i24_survives(-1000);
    packed_i24_survives(-0x800000);
    packed_i24_survives(0x7FFFFF);
}

#[test]
fn packed_range_errors() {
    assert_eq!(
        u24::new(0x1000000),
        Err(DeserialiseError::RangeError {
            value: 0x1000000,
            min: 0,
            max: 0xFFFFFF,
        })
    );
    assert_eq!(
        i24::new(0x800000),
        Err(DeserialiseError::RangeError {
            value: 0x800000,
            min: -0x800000,
            max: 0x7FFFFF,
        })
    );
    assert_eq!(
        i24::new(-0x800001),
        Err(DeserialiseError::RangeError {
            value: -0x800001,
            min: -0x800000,
            max: 0x7FFFFF,
        })
    );
}

#[test]
fn command_bytes_are_lossless() {
    let all = [
        Commands::STREAM_MODE_STOP,
        Commands::STREAM_MODE_START,
        Commands::FREEZE_MODE_STOP,
        Commands::FREEZE_MODE_START,
        Commands::POSITION_POLL,
        Commands::SYSTEM_STATUS,
        Commands::SYSTEM_PARAMS,
        Commands::FIRST_TARGET,
        Commands::NEXT_TARGET,
        Commands::FIRST_IMAGE,
        Commands::NEXT_IMAGE,
        Commands::EEPROM_DATA,
        Commands::REQUEST_EEPROM,
        Commands::CAMERA_CALIBRATION,
        Commands::DIAGNOSTIC_MODE,
    ];
    for c in all {
        assert_eq!(Commands::from_byte(c.to_byte()), Ok(c));
    }
    assert_eq!(
        Commands::from_byte(0x50),
        Err(DeserialiseError::UnknownCommand { byte: 0x50 })
    );
    assert_eq!(
        Commands::from_byte(0xD0),
        Err(DeserialiseError::UnknownCommand { byte: 0xD0 })
    );
}

#[test]
fn any_byte_is_a_valid_flag_set() {
    for b in 0..=255u8 {
        assert_eq!(SwitchSettingFlags::from_bits(b).bits(), b);
        assert_eq!(LEDFlags::from_bits(b).bits(), b);
    }
    let a = LEDFlags::from_bits(LEDFlags::VIDEO_PRESENT);
    let b = LEDFlags::from_bits(LEDFlags::FAULT | LEDFlags::VIDEO_PRESENT);
    assert_eq!(a.union(b).bits(), 0x81);
    assert_eq!(a.intersection(b).bits(), 0x01);
}

fn roundtrip(payload: Payloads) {
    let message = Message::new(payload, 7);
    let serial = message.serialise();
    let back = deserialise(&serial).expect("A serialised message deserialises");
    assert_eq!(back, message);
}

#[test]
fn every_variant_roundtrips_through_a_frame() {
    roundtrip(Payloads::PollPayload(PollPayload {
        command: Commands::POSITION_POLL,
    }));
    roundtrip(Payloads::PositionPollPayload(PositionPollPayload {
        pitch: i24::new(-1000).unwrap(),
        yaw: i24::new(42).unwrap(),
        roll: i24::new(-0x800000).unwrap(),
        pos_z: i24::new(0x7FFFFF).unwrap(),
        pos_y: i24::new(0).unwrap(),
        pos_x: i24::new(-77).unwrap(),
        zoom: u24::new(0xFFFFFF).unwrap(),
        focus: u24::new(0xAABBCC).unwrap(),
        userdefined: 0xBEEF,
    }));
    roundtrip(Payloads::SystemStatusPayload(SystemStatusPayload {
        switchsetting: SwitchSettingFlags::from_bits(0xA5),
        ledindication: LEDFlags::from_bits(0x5A),
        systemstatus: SystemStatus::I2C_OVERFLOW,
        cpufirmwareversion: 0x12,
        pldfirmwareversion: 0x34,
        dspsoftwareversion: 0x56,
        dspstatus: Err(DSPError::DSP_RESET),
        numtargetsseen: 9,
        numtargetsidentified: 8,
        numtargetsused: 7,
        rmserror: u24::new(0x010203).unwrap(),
    }));
    roundtrip(Payloads::SystemControlPayload(SystemControlPayload {
        studioid: 1,
        smoothing: 2,
        maxasymmetry: 3,
        halfboxwidth: 4,
        blackvidthreshold: 5,
        whitevidthreshold: 6,
        blackvidclip: 7,
        whitevidclip: 8,
        maxblackpixels: 9,
        minwhitepixels: 10,
    }));
    roundtrip(Payloads::TargetDataPayload(TargetDataPayload {
        studioid: 25,
        targetnumber: 10404,
        targetx: i24::new(-500).unwrap(),
        targety: i24::new(-44545).unwrap(),
        targetz: i24::new(4040404).unwrap(),
        targetflags: i24::new(60606).unwrap(),
    }));
    roundtrip(Payloads::ImageDataPayload(ImageDataPayload {
        targetindex: 250,
        targetnum: 30505,
        targetx: i24::new(-44545).unwrap(),
        targety: i24::new(-4114444).unwrap(),
        xerror: i24::new(-43422).unwrap(),
        yerror: i24::new(344).unwrap(),
    }));
    roundtrip(Payloads::EEPROMDataPayload(EEPROMDataPayload {
        EEPROMaddress: 0xFFAA,
        EEPROMdata: [
            0x00, 0x01, 0x02, 0x03, 0x04, 0x05, 0x06, 0x07, 0x08, 0x09, 0x0A, 0x0B, 0x0C, 0x0D,
            0x0E, 0x0F,
        ],
    }));
    roundtrip(Payloads::EEPROMDataRequestPayload(
        EEPROMDataRequestPayload {
            EEPROMaddress: 0xAAFF,
        },
    ));
    roundtrip(Payloads::CameraCalibrationPayload(
        CameraCalibrationPayload {
            lenscentrex: i24::new(444).unwrap(),
            lenscentrey: i24::new(44433).unwrap(),
            lensscalex: i24::new(12).unwrap(),
            lensscaley: i24::new(-33).unwrap(),
            lensdistortiona: i24::new(1010).unwrap(),
            lensdistortionb: i24::new(-3000).unwrap(),
            xoffset: i24::new(101010).unwrap(),
            yoffset: i24::new(-440).unwrap(),
            zoffset: i24::new(100000).unwrap(),
        },
    ));
    roundtrip(Payloads::DiagnosticModePayload(DiagnosticModePayload {
        diagnosticflag: DiagnosticModes::VIDEO_DATA_0xAA,
    }));
}

#[test]
fn short_frames_are_too_short() {
    assert_eq!(deserialise(&[]), Err(DeserialiseError::FrameTooShort));
    assert_eq!(deserialise(&[0xD1]), Err(DeserialiseError::FrameTooShort));
    assert_eq!(
        deserialise(&[0xD1, 0xFF, 0x00]),
        Err(DeserialiseError::FrameTooShort)
    );
}

#[test]
fn flipped_byte_is_detected() {
    let message = Message::new(
        Payloads::PositionPollPayload(PositionPollPayload {
            pitch: i24::new(-1000).unwrap(),
            ..PositionPollPayload::default()
        }),
        ALL_CAMERAS,
    );
    let serial = message.serialise();
    // Flip each byte except the trailing checksum, keeping that checksum.
    for i in 0..serial.len() - 1 {
        let mut corrupted = serial.clone();
        corrupted[i] ^= 0x01;
        assert_eq!(
            deserialise(&corrupted),
            Err(DeserialiseError::ChecksumMismatch)
        );
    }
}

#[test]
fn wrong_checksum_is_rejected() {
    let message = Message::new(
        Payloads::PollPayload(PollPayload::default()),
        ALL_CAMERAS,
    );
    let mut serial = message.serialise();
    let last = serial.len() - 1;
    serial[last] = serial[last].wrapping_add(1);
    assert_eq!(deserialise(&serial), Err(DeserialiseError::ChecksumMismatch));
}

#[test]
fn unknown_command_is_rejected() {
    // A frame with an undefined leading byte but a correct checksum.
    let body = [0x77u8, 0xFF, 0x00];
    let checksum = freed::checksum::generate_checksum(&body);
    let frame = [0x77u8, 0xFF, 0x00, checksum];
    assert_eq!(
        deserialise(&frame),
        Err(DeserialiseError::UnknownCommand { byte: 0x77 })
    );
}

#[test]
fn payload_length_is_checked() {
    // POSITION_POLL demands 26 payload bytes; this frame carries only 1.
    let body = [0xD1u8, 0xFF, 0x00];
    let checksum = freed::checksum::generate_checksum(&body);
    let frame = [0xD1u8, 0xFF, 0x00, checksum];
    assert_eq!(
        deserialise(&frame),
        Err(DeserialiseError::LengthMismatch {
            expected: 26,
            actual: 1,
        })
    );
    assert_eq!(
        PositionPollPayload::deserialise(&[0u8; 5]),
        Err(DeserialiseError::LengthMismatch {
            expected: 26,
            actual: 5,
        })
    );
}

#[test]
fn invalid_enum_bytes_are_rejected() {
    // Byte 2 of a system status payload must name a status code.
    let mut payload_bytes = SystemStatusPayload::default().serialise();
    payload_bytes[2] = 50;
    assert_eq!(
        SystemStatusPayload::deserialise(&payload_bytes),
        Err(DeserialiseError::InvalidEnumValue {
            field: FieldKind::SystemStatus,
            byte: 50,
        })
    );
    // Byte 6 as a signed value must be an iteration count or an error code.
    let mut dsp_bytes = SystemStatusPayload::default().serialise();
    dsp_bytes[6] = 0xF0;
    assert_eq!(
        SystemStatusPayload::deserialise(&dsp_bytes),
        Err(DeserialiseError::InvalidEnumValue {
            field: FieldKind::DspStatus,
            byte: 0xF0,
        })
    );
    assert_eq!(
        DiagnosticModePayload::deserialise(&[0x01]),
        Err(DeserialiseError::InvalidEnumValue {
            field: FieldKind::DiagnosticMode,
            byte: 0x01,
        })
    );
    assert_eq!(
        PollPayload::deserialise(&[0x99]),
        Err(DeserialiseError::InvalidEnumValue {
            field: FieldKind::Command,
            byte: 0x99,
        })
    );
}

#[test]
fn target_data_commands_are_restricted() {
    let mut message = Message::new(
        Payloads::TargetDataPayload(TargetDataPayload::default()),
        ALL_CAMERAS,
    );
    assert_eq!(message.command, Commands::FIRST_TARGET);

    assert_eq!(
        message.set_command(Commands::POSITION_POLL),
        Err(DeserialiseError::InvalidCommand {
            allowed: (Commands::FIRST_TARGET, Commands::NEXT_TARGET),
            got: Commands::POSITION_POLL,
        })
    );
    assert_eq!(message.command, Commands::FIRST_TARGET);

    assert_eq!(message.set_command(Commands::NEXT_TARGET), Ok(()));
    assert_eq!(message.command, Commands::NEXT_TARGET);
    assert_eq!(message.set_command(Commands::FIRST_TARGET), Ok(()));
    assert_eq!(message.command, Commands::FIRST_TARGET);
}

#[test]
fn image_data_commands_are_restricted() {
    let mut message = Message::new(
        Payloads::ImageDataPayload(ImageDataPayload::default()),
        ALL_CAMERAS,
    );
    assert_eq!(
        message.set_command(Commands::EEPROM_DATA),
        Err(DeserialiseError::InvalidCommand {
            allowed: (Commands::FIRST_IMAGE, Commands::NEXT_IMAGE),
            got: Commands::EEPROM_DATA,
        })
    );
    assert_eq!(message.set_command(Commands::NEXT_IMAGE), Ok(()));
    assert_eq!(message.set_command(Commands::FIRST_IMAGE), Ok(()));
}

#[test]
fn dsp_error_survives_byte_six() {
    let payload = SystemStatusPayload {
        dspstatus: Err(DSPError::INTERNAL_ERROR),
        ..SystemStatusPayload::default()
    };
    let serial = payload.serialise();
    assert_eq!(serial[6], 252);
    let back = SystemStatusPayload::deserialise(&serial).unwrap();
    assert_eq!(back.dspstatus, Err(DSPError::INTERNAL_ERROR));
}

#[test]
fn position_poll_end_to_end() {
    let payload = PositionPollPayload {
        pitch: i24::new(-1000).unwrap(),
        focus: u24::new(0xAABBCC).unwrap(),
        ..PositionPollPayload::default()
    };
    let message = Message::new(Payloads::PositionPollPayload(payload), 0xFF);
    let serial = message.serialise();

    assert_eq!(serial.len(), 29);
    assert_eq!(serial[0], Commands::POSITION_POLL.to_byte());
    assert_eq!(serial[1], 0xFF);

    let back = deserialise(&serial).unwrap();
    assert_eq!(back.payload.try_into_position_poll().unwrap(), payload);
}

#[test]
fn narrowing_a_wrong_variant_fails() {
    let p = Payloads::PollPayload(PollPayload::default());
    assert_eq!(
        p.try_into_position_poll(),
        Err(DeserialiseError::WrongVariant)
    );

    let mut message = Message::new(p, ALL_CAMERAS);
    assert_eq!(
        message.set_payload(Payloads::EEPROMDataRequestPayload(
            EEPROMDataRequestPayload::default()
        )),
        Err(DeserialiseError::WrongVariant)
    );
    assert_eq!(message.get_payload(), p);
}

#[test]
fn variant_indexes_are_stable() {
    let defaults = Payloads::array();
    assert_eq!(defaults.len(), 10);
    for (i, payload) in defaults.iter().enumerate() {
        assert_eq!(payload.get_array_index(), i);
    }
    assert_eq!(
        defaults[0],
        Payloads::PollPayload(PollPayload {
            command: Commands::SYSTEM_STATUS,
        })
    );
}

#[test]
fn message_checksum_is_derived() {
    let message = Message::new(
        Payloads::DiagnosticModePayload(DiagnosticModePayload::default()),
        3,
    );
    let serial = message.clone().serialise();
    assert_eq!(serial[serial.len() - 1], message.checksum());
}

#[test]
fn valid_messages_are_recognised() {
    let message = Message::new(
        Payloads::SystemControlPayload(SystemControlPayload::default()),
        ALL_CAMERAS,
    );
    let serial = message.serialise();
    assert!(freed::message::is_valid_message(
        &serial,
        Commands::SYSTEM_PARAMS
    ));
    assert!(!freed::message::is_valid_message(
        &serial,
        Commands::POSITION_POLL
    ));
    assert!(!freed::message::is_valid_message(&[], Commands::SYSTEM_PARAMS));
}

#[test]
fn poll_wrapper_roundtrips_mode_commands() {
    // A poll payload rides under a mode-control command; its own command byte
    // is the payload content.
    let message = Message::new(
        Payloads::PollPayload(PollPayload {
            command: Commands::SYSTEM_STATUS,
        }),
        ALL_CAMERAS,
    );
    assert_eq!(message.command, Commands::STREAM_MODE_STOP);
    let serial = message.serialise();
    assert_eq!(serial.len(), 4);
    let back = deserialise(&serial).unwrap();
    assert_eq!(back, message);
}

#[test]
fn extend_array_pads_with_zeroes() {
    let arr: [u8; 3] = [9, 8, 7];
    let wide: [u8; 6] = extend_array(arr);
    assert_eq!(wide, [9, 8, 7, 0, 0, 0]);
}

#[test]
fn unit_newtypes_carry_packed_values() {
    let rms = Pixel32768th(u24::new(32768).unwrap());
    assert_eq!(rms.0.value(), 32768);
    let width = Millimetre64th(i24::new(-64).unwrap());
    assert_eq!(width.0.value(), -64);
    let pos = Millimetre32768th(i24::new(98304).unwrap());
    assert_eq!(pos.0.value(), 98304);
}
