use freed::commands::Commands;
use freed::flags::LEDFlags;
use freed::flags::SwitchSettingFlags;
use freed::packed::i24;
use freed::packed::u24;
use freed::payloads::serialisei24array;
use freed::payloads::CameraCalibrationPayload;
use freed::payloads::DiagnosticModePayload;
use freed::payloads::EEPROMDataPayload;
use freed::payloads::EEPROMDataRequestPayload;
use freed::payloads::ImageDataPayload;
use freed::payloads::PollPayload;
use freed::payloads::PositionPollPayload;
use freed::payloads::SystemControlPayload;
use freed::payloads::SystemStatusPayload;
use freed::payloads::TargetDataPayload;
use freed::status::DSPError;
use freed::status::DiagnosticModes;
use freed::status::SystemStatus;
use freed::Deserialise;
use freed::Serialise;

#[test]
fn serialisei24array_test() {
    let a: i32 = 2555;
    let b: i32 = -1000;

    let array = [i24::new(a).unwrap(), i24::new(0).unwrap(), i24::new(b).unwrap()];
    let serial = serialisei24array(&array);

    let mut value1: [u8; 4] = [0x00; 4];
    value1[1..].clone_from_slice(&serial[0..3]);

    assert_eq!(serial.len(), 3 * 3);
    assert_eq!(i32::from_be_bytes(value1), a)
}

#[test]
fn freed_serialisei24array_test() {
    let a: i32 = 2555;
    let b: i32 = -1000;

    let array = [i24::new(a).unwrap(), i24::new(0).unwrap(), i24::new(b).unwrap()];
    let serial = serialisei24array(&array);

    let mut value1: [u8; 4] = [0x00; 4];
    value1[1..].clone_from_slice(&serial[0..3]);

    assert_eq!(serial.len(), 3 * 3);
    assert_eq!(i32::from_be_bytes(value1), a)
}

#[test]
fn pollpayload_serialise() {
    let payload = PollPayload {
        command: Commands::EEPROM_DATA,
    };

    let serial = payload.serialise();
    assert_eq!(serial.len(), 1);
    assert_eq!(serial[0], payload.command.to_byte());
}

#[test]
fn freed_pollpayload_serialise() {
    let payload = PollPayload {
        command: Commands::EEPROM_DATA,
    };

    let serial = payload.serialise();
    assert_eq!(serial.len(), 1);
    assert_eq!(serial[0], payload.command.to_byte());
}

#[test]
fn pollpayload_deserialise() {
    let payload = PollPayload {
        command: Commands::EEPROM_DATA,
    };

    let serial = payload.serialise();

    if let Ok(deserialisedpayload) = PollPayload::deserialise(&serial) {
        assert_eq!(payload, deserialisedpayload);
    } else {
        // failed to deserialise
        assert!(false);
    }
}

#[allow(non_snake_case)]
#[test]
fn systemstatuspayload_serialise() {
    let switchset = SwitchSettingFlags::from_bits(
        SwitchSettingFlags::S5_HEX_00 | SwitchSettingFlags::IS_S3_RIGHT,
    );
    let LEDindicate = LEDFlags::from_bits(
        LEDFlags::VIDEO_PRESENT | LEDFlags::VIDEO_OK | LEDFlags::SERIAL_PRESENT,
    );

    let payload = SystemStatusPayload {
        switchsetting: switchset,
        ledindication: LEDindicate,
        systemstatus: SystemStatus::SYSTEM_NORMAL,
        cpufirmwareversion: 1,
        pldfirmwareversion: 1,
        dspsoftwareversion: 1,
        dspstatus: Ok(3),
        numtargetsseen: 8,
        numtargetsidentified: 8,
        numtargetsused: 4,
        rmserror: u24::new(0).unwrap(),
    };

    let serial = payload.serialise();
    assert_eq!(serial.len(), 13);

    assert_eq!(serial[0], switchset.bits());
    assert_eq!(serial[1], LEDindicate.bits());

    assert_eq!(serial[2], SystemStatus::SYSTEM_NORMAL.to_byte());

    assert_eq!(serial[6], 3);
}

#[allow(non_snake_case)]
#[test]
fn freed_systemstatuspayload_serialise() {
    let switchset = SwitchSettingFlags::from_bits(
        SwitchSettingFlags::S5_HEX_00 | SwitchSettingFlags::IS_S3_RIGHT,
    );
    let LEDindicate = LEDFlags::from_bits(
        LEDFlags::VIDEO_PRESENT | LEDFlags::VIDEO_OK | LEDFlags::SERIAL_PRESENT,
    );

    let payload = SystemStatusPayload {
        switchsetting: switchset,
        ledindication: LEDindicate,
        systemstatus: SystemStatus::SYSTEM_NORMAL,
        cpufirmwareversion: 1,
        pldfirmwareversion: 1,
        dspsoftwareversion: 1,
        dspstatus: Ok(3),
        numtargetsseen: 8,
        numtargetsidentified: 8,
        numtargetsused: 4,
        rmserror: u24::new(0).unwrap(),
    };

    let serial = payload.serialise();
    assert_eq!(serial.len(), 13);

    assert_eq!(serial[0], switchset.bits());
    assert_eq!(serial[1], LEDindicate.bits());

    assert_eq!(serial[2], SystemStatus::SYSTEM_NORMAL.to_byte());

    assert_eq!(serial[6], 3);
}

#[allow(non_snake_case)]
#[test]
fn systemstatuspayload_serialise_dsperror() {
    let switchset = SwitchSettingFlags::from_bits(
        SwitchSettingFlags::S5_HEX_00 | SwitchSettingFlags::IS_S3_RIGHT,
    );
    let LEDindicate = LEDFlags::from_bits(
        LEDFlags::VIDEO_PRESENT | LEDFlags::VIDEO_OK | LEDFlags::SERIAL_PRESENT,
    );

    let payload = SystemStatusPayload {
        switchsetting: switchset,
        ledindication: LEDindicate,
        systemstatus: SystemStatus::SYSTEM_NORMAL,
        cpufirmwareversion: 1,
        pldfirmwareversion: 1,
        dspsoftwareversion: 1,
        dspstatus: Err(DSPError::INTERNAL_ERROR),
        numtargetsseen: 8,
        numtargetsidentified: 8,
        numtargetsused: 4,
        rmserror: u24::new(0).unwrap(),
    };

    let serial = payload.serialise();

    assert_eq!(serial[6], DSPError::INTERNAL_ERROR.to_code() as u8)
}

#[allow(non_snake_case)]
#[test]
fn freed_systemstatuspayload_serialise_dsperror() {
    let switchset = SwitchSettingFlags::from_bits(
        SwitchSettingFlags::S5_HEX_00 | SwitchSettingFlags::IS_S3_RIGHT,
    );
    let LEDindicate = LEDFlags::from_bits(
        LEDFlags::VIDEO_PRESENT | LEDFlags::VIDEO_OK | LEDFlags::SERIAL_PRESENT,
    );

    let payload = SystemStatusPayload {
        switchsetting: switchset,
        ledindication: LEDindicate,
        systemstatus: SystemStatus::SYSTEM_NORMAL,
        cpufirmwareversion: 1,
        pldfirmwareversion: 1,
        dspsoftwareversion: 1,
        dspstatus: Err(DSPError::INTERNAL_ERROR),
        numtargetsseen: 8,
        numtargetsidentified: 8,
        numtargetsused: 4,
        rmserror: u24::new(0).unwrap(),
    };

    let serial = payload.serialise();

    assert_eq!(serial[6], DSPError::INTERNAL_ERROR.to_code() as u8)
}

#[allow(non_snake_case)]
#[test]
fn systemstatuspayload_deserialise() {
    let switchset = SwitchSettingFlags::from_bits(
        SwitchSettingFlags::S5_HEX_00 | SwitchSettingFlags::IS_S3_RIGHT,
    );
    let LEDindicate = LEDFlags::from_bits(
        LEDFlags::VIDEO_PRESENT | LEDFlags::VIDEO_OK | LEDFlags::SERIAL_PRESENT,
    );

    let payload = SystemStatusPayload {
        switchsetting: switchset,
        ledindication: LEDindicate,
        systemstatus: SystemStatus::SYSTEM_NORMAL,
        cpufirmwareversion: 1,
        pldfirmwareversion: 1,
        dspsoftwareversion: 1,
        dspstatus: Ok(3),
        numtargetsseen: 8,
        numtargetsidentified: 8,
        numtargetsused: 4,
        rmserror: u24::new(0).unwrap(),
    };

    let serial = payload.serialise();

    if let Ok(deserialised) = SystemStatusPayload::deserialise(&serial) {
        assert_eq!(deserialised, payload);
    } else {
        assert!(false);
    }
}

#[test]
fn systemcontrolpayload_serialise() {
    let payload = SystemControlPayload {
        studioid: 25,
        smoothing: 13,
        maxasymmetry: 45,
        halfboxwidth: 8,
        blackvidthreshold: 1,
        whitevidthreshold: 55,
        blackvidclip: 255,
        whitevidclip: 23,
        maxblackpixels: 0,
        minwhitepixels: 0,
    };

    let serial = payload.serialise();

    // don't need to test that u8s are converted to u8s correctly
    assert_eq!(serial.len(), 10);
}

#[test]
fn freed_systemcontrolpayload_serialise() {
    let payload = SystemControlPayload {
        studioid: 25,
        smoothing: 13,
        maxasymmetry: 45,
        halfboxwidth: 8,
        blackvidthreshold: 1,
        whitevidthreshold: 55,
        blackvidclip: 255,
        whitevidclip: 23,
        maxblackpixels: 0,
        minwhitepixels: 0,
    };

    let serial = payload.serialise();

    assert_eq!(serial.len(), 10);
}

#[test]
fn systemcontrolpayload_deserialise() {
    let payload = SystemControlPayload {
        studioid: 25,
        smoothing: 13,
        maxasymmetry: 45,
        halfboxwidth: 8,
        blackvidthreshold: 1,
        whitevidthreshold: 55,
        blackvidclip: 255,
        whitevidclip: 23,
        maxblackpixels: 0,
        minwhitepixels: 0,
    };

    let serial = payload.serialise();
    if let Ok(deserialised) = SystemControlPayload::deserialise(&serial) {
        assert_eq!(deserialised, payload);
    } else {
        assert!(false);
    }
}

#[test]
fn targetdatapayload_serialise() {
    let testflags = 60606;

    let payload = TargetDataPayload {
        studioid: 25,
        targetnumber: 10404,
        targetx: i24::new(-500).unwrap(),
        targety: i24::new(-44545).unwrap(),
        targetz: i24::new(4040404).unwrap(),
        targetflags: i24::new(testflags).unwrap(),
    };

    let serial = payload.serialise();

    assert_eq!(serial.len(), 15);
}

#[test]
fn freed_targetdatapayload_serialise() {
    let testflags = 60606;

    let payload = TargetDataPayload {
        studioid: 25,
        targetnumber: 10404,
        targetx: i24::new(-500).unwrap(),
        targety: i24::new(-44545).unwrap(),
        targetz: i24::new(4040404).unwrap(),
        targetflags: i24::new(testflags).unwrap(),
    };

    let serial = payload.serialise();

    assert_eq!(serial.len(), 15);
}

#[test]
fn imagedatapayload_serialise() {
    let payload = ImageDataPayload {
        targetindex: 250,
        targetnum: 30505,
        targetx: i24::new(-44545).unwrap(),
        targety: i24::new(-4114444).unwrap(),
        xerror: i24::new(-43422).unwrap(),
        yerror: i24::new(344).unwrap(),
    };
    let serial = payload.serialise();

    assert_eq!(serial.len(), 18 - 3);
}

#[allow(non_snake_case)]
#[test]
fn EEPROMdatapayload_serialise() {
    let payload = EEPROMDataPayload {
        EEPROMaddress: 0xFFAA,
        EEPROMdata: [
            0x00, 0x00, 0xFF, 0xA1, 0xFF, 0x12, 0x00, 0x44, 0x00, 0x00, 0x11, 0x44, 0xCA, 0x55,
            0xAB, 0x43,
        ],
    };

    let serial = payload.serialise();

    assert_eq!(serial.len(), 18);
}

#[allow(non_snake_case)]
#[test]
fn EEPROMDataRequestPayload_serialise() {
    let payload = EEPROMDataRequestPayload {
        EEPROMaddress: 0xAAFF,
    };

    let serial = payload.serialise();
    assert_eq!(serial.len(), 5 - 3);
}

#[test]
fn cameracalibrationpayload_serialise() {
    let payload = CameraCalibrationPayload {
        lenscentrex: i24::new(444).unwrap(),
        lenscentrey: i24::new(44433).unwrap(),
        lensscalex: i24::new(12).unwrap(),
        lensscaley: i24::new(-33).unwrap(),
        lensdistortiona: i24::new(1010).unwrap(),
        lensdistortionb: i24::new(-3000).unwrap(),
        xoffset: i24::new(101010).unwrap(),
        yoffset: i24::new(-440).unwrap(),
        zoffset: i24::new(100000).unwrap(),
    };

    let serial = payload.serialise();

    assert_eq!(serial.len(), 30 - 3);
}

#[test]
fn diagnosticmodepayload_serialise() {
    let payload = DiagnosticModePayload {
        diagnosticflag: DiagnosticModes::NORMAL_OPERATION,
    };

    let serial = payload.serialise();

    assert_eq!(serial.len(), 4 - 3);

    let flag: DiagnosticModes =
        DiagnosticModes::from_byte(serial[0]).expect("Serialised diagnostic flag is valid");

    assert_eq!(flag, DiagnosticModes::NORMAL_OPERATION);
}

/*
 * This tests that POSITION_POLL payload structs are serialised to u8 arrays correctly:
 * - Values appear in the right places (sequential C-struct order)
 * - Reconstructing the array preserves values.
 */
#[test]
fn positionpollpayload_serialise() {
    let testpitch: i32 = -1000; // signed negative number for i24
    let testfocus: u32 = 0xAABBCC; // large unsigned number for u24

    let payload = PositionPollPayload {
        pitch: i24::new(testpitch).unwrap(),
        yaw: i24::new(0).unwrap(),
        roll: i24::new(0).unwrap(),
        pos_z: i24::new(0).unwrap(),
        pos_y: i24::new(0).unwrap(),
        pos_x: i24::new(0).unwrap(),
        zoom: u24::new(0).unwrap(),
        focus: u24::new(testfocus).unwrap(),
        userdefined: 0,
    };

    let serial = payload.serialise();
    println!("{:?}", serial);

    let testpitchbytes = testpitch.to_be_bytes();

    // byte values in the array at the expected positions match those generated by to_be_bytes()
    assert_eq!(serial[0], testpitchbytes[1]);
    assert_eq!(serial[1], testpitchbytes[2]);
    assert_eq!(serial[2], testpitchbytes[3]);

    // reconstructing pitch from array bytes preserves semantics (=-1000)
    let mut pitchreconstruct: [u8; 4] = [0xFF; 4];
    let pitchslice = &serial[0..3];
    assert_eq!(pitchslice.len(), 3);
    pitchreconstruct[1..].clone_from_slice(pitchslice);
    assert_eq!(i32::from_be_bytes(pitchreconstruct), testpitch);

    let testfocusbytes = testfocus.to_be_bytes();

    // byte values in the array at the expected positions match those generated by to_be_bytes()
    assert_eq!(serial[serial.len() - 2 - 3], testfocusbytes[1]);
    assert_eq!(serial[serial.len() - 2 - 2], testfocusbytes[2]);
    assert_eq!(serial[serial.len() - 2 - 1], testfocusbytes[3]);

    // reconstructing focus from array values preserves semantics (0xAABBCC)
    let mut finalvals: [u8; 4] = [0; 4];
    let slice = &serial[(serial.len() - 2 - 3)..(serial.len() - 2)];
    assert_eq!(slice.len(), 3);
    finalvals[1..].clone_from_slice(slice);
    assert_eq!(u32::from_be_bytes(finalvals), testfocus);
}

#[test]
fn freed_positionpollpayload_serialise() {
    let testpitch: i32 = -1000;
    let testfocus: u32 = 0xAABBCC;

    let payload = PositionPollPayload {
        pitch: i24::new(testpitch).unwrap(),
        yaw: i24::new(0).unwrap(),
        roll: i24::new(0).unwrap(),
        pos_z: i24::new(0).unwrap(),
        pos_y: i24::new(0).unwrap(),
        pos_x: i24::new(0).unwrap(),
        zoom: u24::new(0).unwrap(),
        focus: u24::new(testfocus).unwrap(),
        userdefined: 0,
    };

    let serial = payload.serialise();
    println!("{:?}", serial);

    let testpitchbytes = testpitch.to_be_bytes();

    assert_eq!(serial[0], testpitchbytes[1]);
    assert_eq!(serial[1], testpitchbytes[2]);
    assert_eq!(serial[2], testpitchbytes[3]);

    let mut pitchreconstruct: [u8; 4] = [0xFF; 4];
    let pitchslice = &serial[0..3];
    assert_eq!(pitchslice.len(), 3);
    pitchreconstruct[1..].clone_from_slice(pitchslice);
    assert_eq!(i32::from_be_bytes(pitchreconstruct), testpitch);

    let testfocusbytes = testfocus.to_be_bytes();

    assert_eq!(serial[serial.len() - 2 - 3], testfocusbytes[1]);
    assert_eq!(serial[serial.len() - 2 - 2], testfocusbytes[2]);
    assert_eq!(serial[serial.len() - 2 - 1], testfocusbytes[3]);

    let mut finalvals: [u8; 4] = [0; 4];
    let slice = &serial[(serial.len() - 2 - 3)..(serial.len() - 2)];
    assert_eq!(slice.len(), 3);
    finalvals[1..].clone_from_slice(slice);
    assert_eq!(u32::from_be_bytes(finalvals), testfocus);
}
