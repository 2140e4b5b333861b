//! The message envelope: a command byte, a camera id, one payload's bytes and
//! a trailing checksum. This module owns the payload union, the total
//! command-to-variant mapping, the compatibility rules, and whole-frame
//! encode and decode.

use vstd::prelude::*;

use crate::checksum::checksum_of;
use crate::checksum::generate_checksum;
use crate::checksum::lemma_checksum_detects_single_flip;
use crate::commands::command_byte;
use crate::commands::is_command_byte;
use crate::commands::spec_command_of_byte;
use crate::commands::Commands;
use crate::error::DeserialiseError;
use crate::payloads::lemma_camera_calibration_roundtrip;
use crate::payloads::lemma_diagnostic_mode_roundtrip;
use crate::payloads::lemma_eeprom_data_roundtrip;
use crate::payloads::lemma_eeprom_request_roundtrip;
use crate::payloads::lemma_image_data_roundtrip;
use crate::payloads::lemma_poll_roundtrip;
use crate::payloads::lemma_position_poll_roundtrip;
use crate::payloads::lemma_system_control_roundtrip;
use crate::payloads::lemma_system_status_roundtrip;
use crate::payloads::lemma_target_data_roundtrip;
use crate::payloads::CameraCalibrationPayload;
use crate::payloads::DiagnosticModePayload;
use crate::payloads::EEPROMDataPayload;
use crate::payloads::EEPROMDataRequestPayload;
use crate::payloads::ImageDataPayload;
use crate::payloads::PollPayload;
use crate::payloads::PositionPollPayload;
use crate::payloads::SystemControlPayload;
use crate::payloads::SystemStatusPayload;
use crate::payloads::TargetDataPayload;
use crate::Deserialise;
use crate::Serialise;

verus! {

/// The closed union over the ten payload variants, used wherever any payload
/// must be carried generically, such as the result of decoding a frame.
#[derive(Clone, Copy, Debug, PartialEq, Eq)]
pub enum Payloads {
    PollPayload(PollPayload),
    PositionPollPayload(PositionPollPayload),
    SystemStatusPayload(SystemStatusPayload),
    SystemControlPayload(SystemControlPayload),
    TargetDataPayload(TargetDataPayload),
    ImageDataPayload(ImageDataPayload),
    EEPROMDataPayload(EEPROMDataPayload),
    EEPROMDataRequestPayload(EEPROMDataRequestPayload),
    CameraCalibrationPayload(CameraCalibrationPayload),
    DiagnosticModePayload(DiagnosticModePayload),
}

impl Payloads {
    /// The stable numeric tag of each variant, 0 through 9.
    pub open spec fn spec_variant_index(self) -> int {
        match self {
            Payloads::PollPayload(_) => 0,
            Payloads::PositionPollPayload(_) => 1,
            Payloads::SystemStatusPayload(_) => 2,
            Payloads::SystemControlPayload(_) => 3,
            Payloads::TargetDataPayload(_) => 4,
            Payloads::ImageDataPayload(_) => 5,
            Payloads::EEPROMDataPayload(_) => 6,
            Payloads::EEPROMDataRequestPayload(_) => 7,
            Payloads::CameraCalibrationPayload(_) => 8,
            Payloads::DiagnosticModePayload(_) => 9,
        }
    }

    /// The fixed encoded length of each variant.
    pub open spec fn wire_len(self) -> nat {
        match self {
            Payloads::PollPayload(_) => 1,
            Payloads::PositionPollPayload(_) => 26,
            Payloads::SystemStatusPayload(_) => 13,
            Payloads::SystemControlPayload(_) => 10,
            Payloads::TargetDataPayload(_) => 15,
            Payloads::ImageDataPayload(_) => 15,
            Payloads::EEPROMDataPayload(_) => 18,
            Payloads::EEPROMDataRequestPayload(_) => 2,
            Payloads::CameraCalibrationPayload(_) => 27,
            Payloads::DiagnosticModePayload(_) => 1,
        }
    }

    /// Whether the carried value is well formed, variant by variant.
    pub open spec fn wf(self) -> bool {
        match self {
            Payloads::PollPayload(p) => p.wf(),
            Payloads::PositionPollPayload(p) => p.wf(),
            Payloads::SystemStatusPayload(p) => p.wf(),
            Payloads::SystemControlPayload(p) => p.wf(),
            Payloads::TargetDataPayload(p) => p.wf(),
            Payloads::ImageDataPayload(p) => p.wf(),
            Payloads::EEPROMDataPayload(p) => p.wf(),
            Payloads::EEPROMDataRequestPayload(p) => p.wf(),
            Payloads::CameraCalibrationPayload(p) => p.wf(),
            Payloads::DiagnosticModePayload(p) => p.wf(),
        }
    }

    /// The stable numeric tag of this payload, 0 through 9.
    pub fn get_array_index(self) -> (r: usize)
        ensures
            r == self.spec_variant_index(),
    {
        match self {
            Payloads::PollPayload(_) => 0,
            Payloads::PositionPollPayload(_) => 1,
            Payloads::SystemStatusPayload(_) => 2,
            Payloads::SystemControlPayload(_) => 3,
            Payloads::TargetDataPayload(_) => 4,
            Payloads::ImageDataPayload(_) => 5,
            Payloads::EEPROMDataPayload(_) => 6,
            Payloads::EEPROMDataRequestPayload(_) => 7,
            Payloads::CameraCalibrationPayload(_) => 8,
            Payloads::DiagnosticModePayload(_) => 9,
        }
    }

    /// One default value of every variant, indexed by its numeric tag.
    pub fn array() -> (r: [Payloads; 10])
        ensures
            forall|i: int| 0 <= i < 10 ==> (#[trigger] r@[i]).spec_variant_index() == i,
            r@[0] == Payloads::PollPayload(PollPayload::spec_default()),
            r@[1] == Payloads::PositionPollPayload(PositionPollPayload::spec_default()),
            r@[2] == Payloads::SystemStatusPayload(SystemStatusPayload::spec_default()),
            r@[3] == Payloads::SystemControlPayload(SystemControlPayload::spec_default()),
            r@[4] == Payloads::TargetDataPayload(TargetDataPayload::spec_default()),
            r@[5] == Payloads::ImageDataPayload(ImageDataPayload::spec_default()),
            r@[6] == Payloads::EEPROMDataPayload(EEPROMDataPayload::spec_default()),
            r@[7] == Payloads::EEPROMDataRequestPayload(EEPROMDataRequestPayload::spec_default()),
            r@[8] == Payloads::CameraCalibrationPayload(CameraCalibrationPayload::spec_default()),
            r@[9] == Payloads::DiagnosticModePayload(DiagnosticModePayload::spec_default()),
    {
        let mut out: [Payloads; 10] = [Payloads::PollPayload(PollPayload::default()); 10];
        out[1] = Payloads::PositionPollPayload(PositionPollPayload::default());
        out[2] = Payloads::SystemStatusPayload(SystemStatusPayload::default());
        out[3] = Payloads::SystemControlPayload(SystemControlPayload::default());
        out[4] = Payloads::TargetDataPayload(TargetDataPayload::default());
        out[5] = Payloads::ImageDataPayload(ImageDataPayload::default());
        out[6] = Payloads::EEPROMDataPayload(EEPROMDataPayload::default());
        out[7] = Payloads::EEPROMDataRequestPayload(EEPROMDataRequestPayload::default());
        out[8] = Payloads::CameraCalibrationPayload(CameraCalibrationPayload::default());
        out[9] = Payloads::DiagnosticModePayload(DiagnosticModePayload::default());
        out
    }

    /// Narrows this union value to a position poll, failing with
    /// `WrongVariant` when it carries any other variant.
    pub fn try_into_position_poll(self) -> (r: Result<PositionPollPayload, DeserialiseError>)
        ensures
            self matches Payloads::PositionPollPayload(p) ==> r == Ok::<_, DeserialiseError>(p),
            !(self is PositionPollPayload) ==> r == Err::<PositionPollPayload, _>(
                DeserialiseError::WrongVariant,
            ),
    {
        match self {
            Payloads::PositionPollPayload(p) => Ok(p),
            _ => Err(DeserialiseError::WrongVariant),
        }
    }
}

impl Serialise for Payloads {
    open spec fn bytes(&self) -> Seq<u8> {
        match *self {
            Payloads::PollPayload(p) => p.bytes(),
            Payloads::PositionPollPayload(p) => p.bytes(),
            Payloads::SystemStatusPayload(p) => p.bytes(),
            Payloads::SystemControlPayload(p) => p.bytes(),
            Payloads::TargetDataPayload(p) => p.bytes(),
            Payloads::ImageDataPayload(p) => p.bytes(),
            Payloads::EEPROMDataPayload(p) => p.bytes(),
            Payloads::EEPROMDataRequestPayload(p) => p.bytes(),
            Payloads::CameraCalibrationPayload(p) => p.bytes(),
            Payloads::DiagnosticModePayload(p) => p.bytes(),
        }
    }

    fn serialise(self) -> (r: Vec<u8>) {
        match self {
            Payloads::PollPayload(p) => p.serialise(),
            Payloads::PositionPollPayload(p) => p.serialise(),
            Payloads::SystemStatusPayload(p) => p.serialise(),
            Payloads::SystemControlPayload(p) => p.serialise(),
            Payloads::TargetDataPayload(p) => p.serialise(),
            Payloads::ImageDataPayload(p) => p.serialise(),
            Payloads::EEPROMDataPayload(p) => p.serialise(),
            Payloads::EEPROMDataRequestPayload(p) => p.serialise(),
            Payloads::CameraCalibrationPayload(p) => p.serialise(),
            Payloads::DiagnosticModePayload(p) => p.serialise(),
        }
    }
}

/// The encoded length of every payload is its variant's fixed wire length.
pub proof fn lemma_payload_wire_len(p: Payloads)
    ensures
        p.bytes().len() == p.wire_len(),
{
    match p {
        Payloads::PollPayload(_) => {},
        Payloads::PositionPollPayload(_) => {},
        Payloads::SystemStatusPayload(_) => {},
        Payloads::SystemControlPayload(_) => {},
        Payloads::TargetDataPayload(_) => {},
        Payloads::ImageDataPayload(_) => {},
        Payloads::EEPROMDataPayload(_) => {},
        Payloads::EEPROMDataRequestPayload(_) => {},
        Payloads::CameraCalibrationPayload(_) => {},
        Payloads::DiagnosticModePayload(_) => {},
    }
}

/// The variant that frames tagged with a command decode to: the mapping of
/// the protocol, total over all defined commands.
pub open spec fn variant_of_command(c: Commands) -> int {
    match c {
        Commands::STREAM_MODE_STOP => 0,
        Commands::STREAM_MODE_START => 0,
        Commands::FREEZE_MODE_STOP => 0,
        Commands::FREEZE_MODE_START => 0,
        Commands::POSITION_POLL => 1,
        Commands::SYSTEM_STATUS => 2,
        Commands::SYSTEM_PARAMS => 3,
        Commands::FIRST_TARGET => 4,
        Commands::NEXT_TARGET => 4,
        Commands::FIRST_IMAGE => 5,
        Commands::NEXT_IMAGE => 5,
        Commands::EEPROM_DATA => 6,
        Commands::REQUEST_EEPROM => 7,
        Commands::CAMERA_CALIBRATION => 8,
        Commands::DIAGNOSTIC_MODE => 9,
    }
}

/// Whether a command may legally tag a payload: exactly when the command
/// decodes to the payload's variant.
pub open spec fn command_allowed(c: Commands, p: Payloads) -> bool {
    variant_of_command(c) == p.spec_variant_index()
}

/// The command a freshly built message of each variant carries.
pub open spec fn default_command_of(p: Payloads) -> Commands {
    match p {
        Payloads::PollPayload(_) => Commands::STREAM_MODE_STOP,
        Payloads::PositionPollPayload(_) => Commands::POSITION_POLL,
        Payloads::SystemStatusPayload(_) => Commands::SYSTEM_STATUS,
        Payloads::SystemControlPayload(_) => Commands::SYSTEM_PARAMS,
        Payloads::TargetDataPayload(_) => Commands::FIRST_TARGET,
        Payloads::ImageDataPayload(_) => Commands::FIRST_IMAGE,
        Payloads::EEPROMDataPayload(_) => Commands::EEPROM_DATA,
        Payloads::EEPROMDataRequestPayload(_) => Commands::REQUEST_EEPROM,
        Payloads::CameraCalibrationPayload(_) => Commands::CAMERA_CALIBRATION,
        Payloads::DiagnosticModePayload(_) => Commands::DIAGNOSTIC_MODE,
    }
}

/// The lowest and highest commands a variant admits; the bounds reported in
/// an `InvalidCommand` error.
pub open spec fn allowed_pair(p: Payloads) -> (Commands, Commands) {
    match p {
        Payloads::PollPayload(_) => (Commands::STREAM_MODE_STOP, Commands::FREEZE_MODE_START),
        Payloads::TargetDataPayload(_) => (Commands::FIRST_TARGET, Commands::NEXT_TARGET),
        Payloads::ImageDataPayload(_) => (Commands::FIRST_IMAGE, Commands::NEXT_IMAGE),
        _ => (default_command_of(p), default_command_of(p)),
    }
}

/// A whole frame: the command byte, the camera id, the payload bytes, and
/// the checksum of everything before it.
pub open spec fn frame_bytes(command: Commands, cameraid: u8, payload: Seq<u8>) -> Seq<u8> {
    let body = seq![command_byte(command), cameraid] + payload;
    body.push(checksum_of(body))
}

/// A protocol message: a command, the camera it addresses, and one payload.
/// The trailing checksum of the frame is derived at encode time and never
/// independently settable.
#[derive(Clone, Copy, Debug, PartialEq, Eq)]
pub struct Message {
    pub command: Commands,
    pub cameraid: u8,
    pub payload: Payloads,
}

impl Message {
    /// A message is well formed when its command is legal for its payload's
    /// variant and the payload itself is well formed. `new`, `set_command`,
    /// `set_payload` and `deserialise` keep this invariant.
    pub open spec fn wf(self) -> bool {
        command_allowed(self.command, self.payload) && self.payload.wf()
    }

    /// Wraps a payload for the given camera, tagged with its variant's
    /// default command.
    pub fn new(payload: Payloads, cameraid: u8) -> (r: Message)
        ensures
            r == (Message { command: default_command_of(payload), cameraid, payload }),
            payload.wf() ==> r.wf(),
    {
        let command = match payload {
            Payloads::PollPayload(_) => Commands::STREAM_MODE_STOP,
            Payloads::PositionPollPayload(_) => Commands::POSITION_POLL,
            Payloads::SystemStatusPayload(_) => Commands::SYSTEM_STATUS,
            Payloads::SystemControlPayload(_) => Commands::SYSTEM_PARAMS,
            Payloads::TargetDataPayload(_) => Commands::FIRST_TARGET,
            Payloads::ImageDataPayload(_) => Commands::FIRST_IMAGE,
            Payloads::EEPROMDataPayload(_) => Commands::EEPROM_DATA,
            Payloads::EEPROMDataRequestPayload(_) => Commands::REQUEST_EEPROM,
            Payloads::CameraCalibrationPayload(_) => Commands::CAMERA_CALIBRATION,
            Payloads::DiagnosticModePayload(_) => Commands::DIAGNOSTIC_MODE,
        };
        Message { command, cameraid, payload }
    }

    /// A copy of the payload.
    pub fn get_payload(self) -> (r: Payloads)
        ensures
            r == self.payload,
    {
        self.payload
    }

    /// Replaces the payload. The new payload must carry the same variant as
    /// the present one, so that the message's command stays legal; any other
    /// variant is refused with `WrongVariant` and the message is unchanged.
    pub fn set_payload(&mut self, payload: Payloads) -> (r: Result<(), DeserialiseError>)
        ensures
            payload.spec_variant_index() == old(self).payload.spec_variant_index() ==> r
                == Ok::<(), DeserialiseError>(()) && *final(self) == (Message {
                payload,
                ..*old(self)
            }),
            payload.spec_variant_index() != old(self).payload.spec_variant_index() ==> r == Err::<
                (),
                DeserialiseError,
            >(DeserialiseError::WrongVariant) && *final(self) == *old(self),
    {
        if payload.get_array_index() == self.payload.get_array_index() {
            self.payload = payload;
            Ok(())
        } else {
            Err(DeserialiseError::WrongVariant)
        }
    }

    /// Re-tags the message. A command is accepted exactly when the payload's
    /// variant admits it, per the compatibility table; any other command is
    /// refused with `InvalidCommand` and the message is unchanged.
    pub fn set_command(&mut self, command: Commands) -> (r: Result<(), DeserialiseError>)
        ensures
            command_allowed(command, old(self).payload) ==> r == Ok::<(), DeserialiseError>(())
                && *final(self) == (Message { command, ..*old(self) }),
            !command_allowed(command, old(self).payload) ==> r == Err::<(), DeserialiseError>(
                DeserialiseError::InvalidCommand {
                    allowed: allowed_pair(old(self).payload),
                    got: command,
                },
            ) && *final(self) == *old(self),
    {
        let variant = self.payload.get_array_index();
        let target: usize = match command {
            Commands::STREAM_MODE_STOP => 0,
            Commands::STREAM_MODE_START => 0,
            Commands::FREEZE_MODE_STOP => 0,
            Commands::FREEZE_MODE_START => 0,
            Commands::POSITION_POLL => 1,
            Commands::SYSTEM_STATUS => 2,
            Commands::SYSTEM_PARAMS => 3,
            Commands::FIRST_TARGET => 4,
            Commands::NEXT_TARGET => 4,
            Commands::FIRST_IMAGE => 5,
            Commands::NEXT_IMAGE => 5,
            Commands::EEPROM_DATA => 6,
            Commands::REQUEST_EEPROM => 7,
            Commands::CAMERA_CALIBRATION => 8,
            Commands::DIAGNOSTIC_MODE => 9,
        };
        if target == variant {
            self.command = command;
            Ok(())
        } else {
            let allowed = match self.payload {
                Payloads::PollPayload(_) => (
                    Commands::STREAM_MODE_STOP,
                    Commands::FREEZE_MODE_START,
                ),
                Payloads::TargetDataPayload(_) => (Commands::FIRST_TARGET, Commands::NEXT_TARGET),
                Payloads::ImageDataPayload(_) => (Commands::FIRST_IMAGE, Commands::NEXT_IMAGE),
                Payloads::PositionPollPayload(_) => (
                    Commands::POSITION_POLL,
                    Commands::POSITION_POLL,
                ),
                Payloads::SystemStatusPayload(_) => (
                    Commands::SYSTEM_STATUS,
                    Commands::SYSTEM_STATUS,
                ),
                Payloads::SystemControlPayload(_) => (
                    Commands::SYSTEM_PARAMS,
                    Commands::SYSTEM_PARAMS,
                ),
                Payloads::EEPROMDataPayload(_) => (Commands::EEPROM_DATA, Commands::EEPROM_DATA),
                Payloads::EEPROMDataRequestPayload(_) => (
                    Commands::REQUEST_EEPROM,
                    Commands::REQUEST_EEPROM,
                ),
                Payloads::CameraCalibrationPayload(_) => (
                    Commands::CAMERA_CALIBRATION,
                    Commands::CAMERA_CALIBRATION,
                ),
                Payloads::DiagnosticModePayload(_) => (
                    Commands::DIAGNOSTIC_MODE,
                    Commands::DIAGNOSTIC_MODE,
                ),
            };
            Err(DeserialiseError::InvalidCommand { allowed, got: command })
        }
    }

    /// The checksum of this message's frame, derived from the command byte,
    /// the camera id and the payload bytes.
    pub fn checksum(&self) -> (r: u8)
        ensures
            r == checksum_of(
                seq![command_byte(self.command), self.cameraid] + self.payload.bytes(),
            ),
    {
        let mut body: Vec<u8> = Vec::new();
        body.push(self.command.to_byte());
        body.push(self.cameraid);
        let mut payload_bytes = self.payload.serialise();
        body.append(&mut payload_bytes);
        proof {
            assert(body@ =~= seq![command_byte(self.command), self.cameraid]
                + self.payload.bytes());
        }
        generate_checksum(body.as_slice())
    }

    /// Decodes one complete frame; the free function `deserialise` holds the
    /// contract.
    pub fn deserialise(data: &[u8]) -> (r: Result<Message, DeserialiseError>)
        ensures
            r == spec_deserialise_message(data@),
    {
        deserialise(data)
    }
}

impl Serialise for Message {
    open spec fn bytes(&self) -> Seq<u8> {
        frame_bytes(self.command, self.cameraid, self.payload.bytes())
    }

    fn serialise(self) -> (r: Vec<u8>) {
        let mut out: Vec<u8> = Vec::new();
        out.push(self.command.to_byte());
        out.push(self.cameraid);
        let mut payload_bytes = self.payload.serialise();
        out.append(&mut payload_bytes);
        proof {
            assert(out@ =~= seq![command_byte(self.command), self.cameraid]
                + self.payload.bytes());
        }
        let checksum = generate_checksum(out.as_slice());
        out.push(checksum);
        out
    }
}

/// The decoding of a payload slice, routed by the command that tagged the
/// frame: the mapping of the protocol, with no fallback arm.
pub open spec fn spec_decode_payload(c: Commands, s: Seq<u8>) -> Result<
    Payloads,
    DeserialiseError,
> {
    match c {
        Commands::STREAM_MODE_STOP => wrap_poll(PollPayload::spec_deserialise(s)),
        Commands::STREAM_MODE_START => wrap_poll(PollPayload::spec_deserialise(s)),
        Commands::FREEZE_MODE_STOP => wrap_poll(PollPayload::spec_deserialise(s)),
        Commands::FREEZE_MODE_START => wrap_poll(PollPayload::spec_deserialise(s)),
        Commands::POSITION_POLL => match PositionPollPayload::spec_deserialise(s) {
            Ok(p) => Ok(Payloads::PositionPollPayload(p)),
            Err(e) => Err(e),
        },
        Commands::SYSTEM_STATUS => match SystemStatusPayload::spec_deserialise(s) {
            Ok(p) => Ok(Payloads::SystemStatusPayload(p)),
            Err(e) => Err(e),
        },
        Commands::SYSTEM_PARAMS => match SystemControlPayload::spec_deserialise(s) {
            Ok(p) => Ok(Payloads::SystemControlPayload(p)),
            Err(e) => Err(e),
        },
        Commands::FIRST_TARGET => wrap_target(TargetDataPayload::spec_deserialise(s)),
        Commands::NEXT_TARGET => wrap_target(TargetDataPayload::spec_deserialise(s)),
        Commands::FIRST_IMAGE => wrap_image(ImageDataPayload::spec_deserialise(s)),
        Commands::NEXT_IMAGE => wrap_image(ImageDataPayload::spec_deserialise(s)),
        Commands::EEPROM_DATA => match EEPROMDataPayload::spec_deserialise(s) {
            Ok(p) => Ok(Payloads::EEPROMDataPayload(p)),
            Err(e) => Err(e),
        },
        Commands::REQUEST_EEPROM => match EEPROMDataRequestPayload::spec_deserialise(s) {
            Ok(p) => Ok(Payloads::EEPROMDataRequestPayload(p)),
            Err(e) => Err(e),
        },
        Commands::CAMERA_CALIBRATION => match CameraCalibrationPayload::spec_deserialise(s) {
            Ok(p) => Ok(Payloads::CameraCalibrationPayload(p)),
            Err(e) => Err(e),
        },
        Commands::DIAGNOSTIC_MODE => match DiagnosticModePayload::spec_deserialise(s) {
            Ok(p) => Ok(Payloads::DiagnosticModePayload(p)),
            Err(e) => Err(e),
        },
    }
}

/// Lifts a decoded poll into the union.
pub open spec fn wrap_poll(r: Result<PollPayload, DeserialiseError>) -> Result<
    Payloads,
    DeserialiseError,
> {
    match r {
        Ok(p) => Ok(Payloads::PollPayload(p)),
        Err(e) => Err(e),
    }
}

/// Lifts decoded target data into the union.
pub open spec fn wrap_target(r: Result<TargetDataPayload, DeserialiseError>) -> Result<
    Payloads,
    DeserialiseError,
> {
    match r {
        Ok(p) => Ok(Payloads::TargetDataPayload(p)),
        Err(e) => Err(e),
    }
}

/// Lifts decoded image data into the union.
pub open spec fn wrap_image(r: Result<ImageDataPayload, DeserialiseError>) -> Result<
    Payloads,
    DeserialiseError,
> {
    match r {
        Ok(p) => Ok(Payloads::ImageDataPayload(p)),
        Err(e) => Err(e),
    }
}

/// The mathematical decoding of a whole frame: too-short frames, checksum
/// disagreement and unknown commands are rejected in that order, then the
/// payload slice is decoded by the variant the command names.
pub open spec fn spec_deserialise_message(s: Seq<u8>) -> Result<Message, DeserialiseError> {
    if s.len() < 4 {
        Err(DeserialiseError::FrameTooShort)
    } else if checksum_of(s.take(s.len() - 1)) != s[s.len() - 1] {
        Err(DeserialiseError::ChecksumMismatch)
    } else if !is_command_byte(s[0]) {
        Err(DeserialiseError::UnknownCommand { byte: s[0] })
    } else {
        let c = spec_command_of_byte(s[0]);
        match spec_decode_payload(c, s.subrange(2, s.len() - 1)) {
            Ok(p) => Ok(Message { command: c, cameraid: s[1], payload: p }),
            Err(e) => Err(e),
        }
    }
}

/// Decodes the payload slice of a frame by the command that tagged it.
fn decode_payload(command: Commands, array: &[u8]) -> (r: Result<Payloads, DeserialiseError>)
    ensures
        r == spec_decode_payload(command, array@),
{
    match command {
        Commands::STREAM_MODE_STOP | Commands::STREAM_MODE_START | Commands::FREEZE_MODE_STOP
            | Commands::FREEZE_MODE_START => match PollPayload::deserialise(array) {
            Ok(p) => Ok(Payloads::PollPayload(p)),
            Err(e) => Err(e),
        },
        Commands::POSITION_POLL => match PositionPollPayload::deserialise(array) {
            Ok(p) => Ok(Payloads::PositionPollPayload(p)),
            Err(e) => Err(e),
        },
        Commands::SYSTEM_STATUS => match SystemStatusPayload::deserialise(array) {
            Ok(p) => Ok(Payloads::SystemStatusPayload(p)),
            Err(e) => Err(e),
        },
        Commands::SYSTEM_PARAMS => match SystemControlPayload::deserialise(array) {
            Ok(p) => Ok(Payloads::SystemControlPayload(p)),
            Err(e) => Err(e),
        },
        Commands::FIRST_TARGET | Commands::NEXT_TARGET => match TargetDataPayload::deserialise(
            array,
        ) {
            Ok(p) => Ok(Payloads::TargetDataPayload(p)),
            Err(e) => Err(e),
        },
        Commands::FIRST_IMAGE | Commands::NEXT_IMAGE => match ImageDataPayload::deserialise(
            array,
        ) {
            Ok(p) => Ok(Payloads::ImageDataPayload(p)),
            Err(e) => Err(e),
        },
        Commands::EEPROM_DATA => match EEPROMDataPayload::deserialise(array) {
            Ok(p) => Ok(Payloads::EEPROMDataPayload(p)),
            Err(e) => Err(e),
        },
        Commands::REQUEST_EEPROM => match EEPROMDataRequestPayload::deserialise(array) {
            Ok(p) => Ok(Payloads::EEPROMDataRequestPayload(p)),
            Err(e) => Err(e),
        },
        Commands::CAMERA_CALIBRATION => match CameraCalibrationPayload::deserialise(array) {
            Ok(p) => Ok(Payloads::CameraCalibrationPayload(p)),
            Err(e) => Err(e),
        },
        Commands::DIAGNOSTIC_MODE => match DiagnosticModePayload::deserialise(array) {
            Ok(p) => Ok(Payloads::DiagnosticModePayload(p)),
            Err(e) => Err(e),
        },
    }
}

/// Decodes one complete frame into a message: fails with `FrameTooShort`
/// under 4 bytes, `ChecksumMismatch` when the trailing byte disagrees with
/// the checksum of the rest, `UnknownCommand` on an undefined leading byte,
/// and otherwise decodes the payload slice by the command's variant,
/// propagating its errors.
pub fn deserialise(data: &[u8]) -> (r: Result<Message, DeserialiseError>)
    ensures
        r == spec_deserialise_message(data@),
{
    if data.len() < 4 {
        return Err(DeserialiseError::FrameTooShort);
    }
    let stored = data[data.len() - 1];
    let prefix = &data[0..data.len() - 1];
    proof {
        assert(prefix@ =~= data@.take(data@.len() - 1));
    }
    if generate_checksum(prefix) != stored {
        return Err(DeserialiseError::ChecksumMismatch);
    }
    let command = match Commands::from_byte(data[0]) {
        Ok(c) => c,
        Err(e) => {
            return Err(e);
        },
    };
    let cameraid = data[1];
    let payload_slice = &data[2..data.len() - 1];
    proof {
        assert(payload_slice@ =~= data@.subrange(2, data@.len() - 1));
    }
    match decode_payload(command, payload_slice) {
        Ok(payload) => Ok(Message { command, cameraid, payload }),
        Err(e) => Err(e),
    }
}

/// Whether a buffer is a plausible frame for the given command: it is
/// non-empty, its leading byte names that command, and its trailing byte is
/// the checksum of the rest.
pub fn is_valid_message(array: &[u8], expected: Commands) -> (r: bool)
    ensures
        r == (array@.len() >= 1 && array@[0] == command_byte(expected) && checksum_of(
            array@.take(array@.len() - 1),
        ) == array@[array@.len() - 1]),
{
    if array.len() == 0 {
        return false;
    }
    let prefix = &array[0..array.len() - 1];
    proof {
        assert(prefix@ =~= array@.take(array@.len() - 1));
    }
    let command_correct = array[0] == expected.to_byte();
    let checksum_correct = generate_checksum(prefix) == array[array.len() - 1];
    command_correct && checksum_correct
}

/// Every well-formed message survives the round trip through its frame:
/// decoding what `serialise` emits yields the message back, exactly.
pub proof fn lemma_message_roundtrip(m: Message)
    requires
        m.wf(),
    ensures
        spec_deserialise_message(m.bytes()) == Ok::<_, DeserialiseError>(m),
{
    let pb = m.payload.bytes();
    let body = seq![command_byte(m.command), m.cameraid] + pb;
    let s = frame_bytes(m.command, m.cameraid, pb);
    lemma_payload_wire_len(m.payload);
    assert(s.len() == pb.len() + 3);
    assert(s.take(s.len() - 1) =~= body);
    assert(s[s.len() - 1] == checksum_of(body));
    crate::commands::lemma_command_bytes_unique(m.command, m.command);
    assert(s[0] == command_byte(m.command) && s[1] == m.cameraid);
    assert(s.subrange(2, s.len() - 1) =~= pb);
    match m.payload {
        Payloads::PollPayload(p) => lemma_poll_roundtrip(p),
        Payloads::PositionPollPayload(p) => lemma_position_poll_roundtrip(p),
        Payloads::SystemStatusPayload(p) => lemma_system_status_roundtrip(p),
        Payloads::SystemControlPayload(p) => lemma_system_control_roundtrip(p),
        Payloads::TargetDataPayload(p) => lemma_target_data_roundtrip(p),
        Payloads::ImageDataPayload(p) => lemma_image_data_roundtrip(p),
        Payloads::EEPROMDataPayload(p) => lemma_eeprom_data_roundtrip(p),
        Payloads::EEPROMDataRequestPayload(p) => lemma_eeprom_request_roundtrip(p),
        Payloads::CameraCalibrationPayload(p) => lemma_camera_calibration_roundtrip(p),
        Payloads::DiagnosticModePayload(p) => lemma_diagnostic_mode_roundtrip(p),
    }
}

/// Corrupting any single byte of a valid frame other than its checksum byte
/// is always detected: the corrupted frame decodes to `ChecksumMismatch`.
/// Corruption of several bytes at once may cancel out, since the checksum is
/// additive, not cryptographic.
pub proof fn lemma_single_flip_detected(s: Seq<u8>, i: int, b: u8)
    requires
        s.len() >= 4,
        checksum_of(s.take(s.len() - 1)) == s[s.len() - 1],
        0 <= i < s.len() - 1,
        b != s[i],
    ensures
        spec_deserialise_message(s.update(i, b)) == Err::<Message, _>(
            DeserialiseError::ChecksumMismatch,
        ),
{
    let t = s.update(i, b);
    assert(t.take(t.len() - 1) =~= s.take(s.len() - 1).update(i, b));
    lemma_checksum_detects_single_flip(s.take(s.len() - 1), i, b);
    assert(t[t.len() - 1] == s[s.len() - 1]);
}

} // verus!
