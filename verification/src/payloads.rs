//! The ten payload variants of the protocol. Each is a plain data aggregate
//! with a fixed encoded length; encoding is deterministic, total and pure,
//! and decoding is its exact inverse, failing with a typed error on a slice
//! of the wrong length or a byte that names no enumeration member.

use vstd::prelude::*;

use crate::commands::command_byte;
use crate::commands::is_command_byte;
use crate::commands::spec_command_of_byte;
use crate::commands::Commands;
use crate::error::DeserialiseError;
use crate::error::FieldKind;
use crate::flags::LEDFlags;
use crate::flags::SwitchSettingFlags;
use crate::packed::be2;
use crate::packed::be3;
use crate::packed::encode_u16_onto;
use crate::packed::from_be2;
use crate::packed::from_be3;
use crate::packed::i24;
use crate::packed::i24_from_bits;
use crate::packed::i24_to_bits;
use crate::packed::lemma_i24_roundtrip;
use crate::packed::lemma_u16_roundtrip;
use crate::packed::lemma_u24_roundtrip;
use crate::packed::read_i24;
use crate::packed::read_u16;
use crate::packed::read_u24;
use crate::packed::u24;
use crate::status::dsp_status_byte;
use crate::status::dsp_status_from_byte;
use crate::status::dsp_status_to_byte;
use crate::status::is_dsp_status_byte;
use crate::status::is_diagnostic_mode_code;
use crate::status::is_system_status_code;
use crate::status::diagnostic_mode_code;
use crate::status::lemma_dsp_status_roundtrip;
use crate::status::spec_diagnostic_mode_of;
use crate::status::spec_dsp_status_of;
use crate::status::spec_system_status_of;
use crate::status::system_status_code;
use crate::status::DiagnosticModes;
use crate::status::DSPError;
use crate::status::SystemStatus;
use crate::Deserialise;
use crate::Serialise;

verus! {

/// A poll request: a single command byte asking the unit to reply with the
/// payload that command names.
#[derive(Clone, Copy, Debug, PartialEq, Eq, Structural)]
pub struct PollPayload {
    pub command: Commands,
}

impl PollPayload {
    /// The default poll asks for the system status.
    pub open spec fn spec_default() -> PollPayload {
        PollPayload { command: Commands::SYSTEM_STATUS }
    }

    /// Every poll value is well formed.
    pub open spec fn wf(self) -> bool {
        true
    }
}

impl Default for PollPayload {
    fn default() -> (r: Self)
        ensures
            r == PollPayload::spec_default(),
    {
        PollPayload { command: Commands::SYSTEM_STATUS }
    }
}

impl Serialise for PollPayload {
    open spec fn bytes(&self) -> Seq<u8> {
        seq![command_byte(self.command)]
    }

    fn serialise(self) -> (r: Vec<u8>) {
        let mut out: Vec<u8> = Vec::new();
        out.push(self.command.to_byte());
        proof {
            assert(out@ =~= self.bytes());
        }
        out
    }
}

impl Deserialise for PollPayload {
    open spec fn spec_deserialise(s: Seq<u8>) -> Result<Self, DeserialiseError> {
        if s.len() != 1 {
            Err(DeserialiseError::LengthMismatch { expected: 1, actual: s.len() as usize })
        } else if !is_command_byte(s[0]) {
            Err(DeserialiseError::InvalidEnumValue { field: FieldKind::Command, byte: s[0] })
        } else {
            Ok(PollPayload { command: spec_command_of_byte(s[0]) })
        }
    }

    fn deserialise(array: &[u8]) -> (r: Result<Self, DeserialiseError>) {
        if array.len() != 1 {
            return Err(DeserialiseError::LengthMismatch { expected: 1, actual: array.len() });
        }
        match Commands::from_byte(array[0]) {
            Ok(command) => Ok(PollPayload { command }),
            Err(_) => Err(DeserialiseError::InvalidEnumValue {
                field: FieldKind::Command,
                byte: array[0],
            }),
        }
    }
}

/// Decoding an encoded poll yields the poll back.
pub proof fn lemma_poll_roundtrip(p: PollPayload)
    requires
        p.wf(),
    ensures
        p.bytes().len() == 1,
        PollPayload::spec_deserialise(p.bytes()) == Ok::<_, DeserialiseError>(p),
{
    crate::commands::lemma_command_bytes_unique(p.command, p.command);
}

/// Camera location data, the answer to a position poll. All position and
/// orientation fields are signed 24-bit values; zoom and focus are unsigned
/// 24-bit values.
#[derive(Clone, Copy, Debug, PartialEq, Eq, Structural)]
pub struct PositionPollPayload {
    pub pitch: i24,
    pub yaw: i24,
    pub roll: i24,
    pub pos_z: i24,
    pub pos_y: i24,
    pub pos_x: i24,
    pub zoom: u24,
    pub focus: u24,
    pub userdefined: u16,
}

impl PositionPollPayload {
    /// All fields zero.
    pub open spec fn spec_default() -> PositionPollPayload {
        PositionPollPayload {
            pitch: i24::spec_from(0),
            yaw: i24::spec_from(0),
            roll: i24::spec_from(0),
            pos_z: i24::spec_from(0),
            pos_y: i24::spec_from(0),
            pos_x: i24::spec_from(0),
            zoom: u24::spec_from(0),
            focus: u24::spec_from(0),
            userdefined: 0,
        }
    }

    /// All packed fields hold values in their 24-bit ranges; every value
    /// built by the public constructors does.
    pub open spec fn wf(self) -> bool {
        &&& self.pitch.in_range()
        &&& self.yaw.in_range()
        &&& self.roll.in_range()
        &&& self.pos_z.in_range()
        &&& self.pos_y.in_range()
        &&& self.pos_x.in_range()
        &&& self.zoom.in_range()
        &&& self.focus.in_range()
    }
}

impl Default for PositionPollPayload {
    fn default() -> (r: Self)
        ensures
            r == PositionPollPayload::spec_default(),
    {
        PositionPollPayload {
            pitch: i24::default(),
            yaw: i24::default(),
            roll: i24::default(),
            pos_z: i24::default(),
            pos_y: i24::default(),
            pos_x: i24::default(),
            zoom: u24::default(),
            focus: u24::default(),
            userdefined: 0,
        }
    }
}

impl Serialise for PositionPollPayload {
    open spec fn bytes(&self) -> Seq<u8> {
        be3(i24_to_bits(self.pitch@)) + be3(i24_to_bits(self.yaw@)) + be3(i24_to_bits(self.roll@))
            + be3(i24_to_bits(self.pos_z@)) + be3(i24_to_bits(self.pos_y@)) + be3(
            i24_to_bits(self.pos_x@),
        ) + be3(self.zoom@) + be3(self.focus@) + be2(self.userdefined)
    }

    fn serialise(self) -> (r: Vec<u8>) {
        let mut out: Vec<u8> = Vec::new();
        self.pitch.encode_onto(&mut out);
        self.yaw.encode_onto(&mut out);
        self.roll.encode_onto(&mut out);
        self.pos_z.encode_onto(&mut out);
        self.pos_y.encode_onto(&mut out);
        self.pos_x.encode_onto(&mut out);
        self.zoom.encode_onto(&mut out);
        self.focus.encode_onto(&mut out);
        encode_u16_onto(self.userdefined, &mut out);
        proof {
            assert(out@ =~= self.bytes());
        }
        out
    }
}

impl Deserialise for PositionPollPayload {
    open spec fn spec_deserialise(s: Seq<u8>) -> Result<Self, DeserialiseError> {
        if s.len() != 26 {
            Err(DeserialiseError::LengthMismatch { expected: 26, actual: s.len() as usize })
        } else {
            Ok(
                PositionPollPayload {
                    pitch: i24::spec_from(i24_from_bits(from_be3(s[0], s[1], s[2]))),
                    yaw: i24::spec_from(i24_from_bits(from_be3(s[3], s[4], s[5]))),
                    roll: i24::spec_from(i24_from_bits(from_be3(s[6], s[7], s[8]))),
                    pos_z: i24::spec_from(i24_from_bits(from_be3(s[9], s[10], s[11]))),
                    pos_y: i24::spec_from(i24_from_bits(from_be3(s[12], s[13], s[14]))),
                    pos_x: i24::spec_from(i24_from_bits(from_be3(s[15], s[16], s[17]))),
                    zoom: u24::spec_from(from_be3(s[18], s[19], s[20])),
                    focus: u24::spec_from(from_be3(s[21], s[22], s[23])),
                    userdefined: from_be2(s[24], s[25]),
                },
            )
        }
    }

    fn deserialise(array: &[u8]) -> (r: Result<Self, DeserialiseError>) {
        if array.len() != 26 {
            return Err(DeserialiseError::LengthMismatch { expected: 26, actual: array.len() });
        }
        Ok(
            PositionPollPayload {
                pitch: read_i24(array, 0),
                yaw: read_i24(array, 3),
                roll: read_i24(array, 6),
                pos_z: read_i24(array, 9),
                pos_y: read_i24(array, 12),
                pos_x: read_i24(array, 15),
                zoom: read_u24(array, 18),
                focus: read_u24(array, 21),
                userdefined: read_u16(array, 24),
            },
        )
    }
}

/// Decoding an encoded position poll yields the payload back.
pub proof fn lemma_position_poll_roundtrip(p: PositionPollPayload)
    requires
        p.wf(),
    ensures
        p.bytes().len() == 26,
        PositionPollPayload::spec_deserialise(p.bytes()) == Ok::<_, DeserialiseError>(p),
{
    let s = p.bytes();
    assert(s.subrange(0, 3) =~= be3(i24_to_bits(p.pitch@)));
    assert(s.subrange(3, 6) =~= be3(i24_to_bits(p.yaw@)));
    assert(s.subrange(6, 9) =~= be3(i24_to_bits(p.roll@)));
    assert(s.subrange(9, 12) =~= be3(i24_to_bits(p.pos_z@)));
    assert(s.subrange(12, 15) =~= be3(i24_to_bits(p.pos_y@)));
    assert(s.subrange(15, 18) =~= be3(i24_to_bits(p.pos_x@)));
    assert(s.subrange(18, 21) =~= be3(p.zoom@));
    assert(s.subrange(21, 24) =~= be3(p.focus@));
    lemma_i24_field(p.pitch, s, 0);
    lemma_i24_field(p.yaw, s, 3);
    lemma_i24_field(p.roll, s, 6);
    lemma_i24_field(p.pos_z, s, 9);
    lemma_i24_field(p.pos_y, s, 12);
    lemma_i24_field(p.pos_x, s, 15);
    lemma_u24_field(p.zoom, s, 18);
    lemma_u24_field(p.focus, s, 21);
    lemma_u16_roundtrip(p.userdefined);
    assert(s[24] == be2(p.userdefined)[0] && s[25] == be2(p.userdefined)[1]);
}

/// The three bytes of an in-range `i24` field sitting at `off` in `s` decode
/// back to the field.
proof fn lemma_i24_field(x: i24, s: Seq<u8>, off: int)
    requires
        x.in_range(),
        0 <= off,
        off + 3 <= s.len(),
        s.subrange(off, off + 3) == be3(i24_to_bits(x@)),
    ensures
        i24::spec_from(i24_from_bits(from_be3(s[off], s[off + 1], s[off + 2]))) == x,
{
    lemma_i24_roundtrip(x@);
    let bits = i24_to_bits(x@);
    lemma_u24_roundtrip(bits);
    assert(s[off] == be3(bits)[0] && s[off + 1] == be3(bits)[1] && s[off + 2] == be3(bits)[2]);
    crate::packed::lemma_i24_spec_from(i24_from_bits(bits));
    crate::packed::lemma_i24_eq(i24::spec_from(i24_from_bits(bits)), x);
}

/// The three bytes of an in-range `u24` field sitting at `off` in `s` decode
/// back to the field.
proof fn lemma_u24_field(x: u24, s: Seq<u8>, off: int)
    requires
        x.in_range(),
        0 <= off,
        off + 3 <= s.len(),
        s.subrange(off, off + 3) == be3(x@),
    ensures
        u24::spec_from(from_be3(s[off], s[off + 1], s[off + 2])) == x,
{
    lemma_u24_roundtrip(x@);
    assert(s[off] == be3(x@)[0] && s[off + 1] == be3(x@)[1] && s[off + 2] == be3(x@)[2]);
    crate::packed::lemma_u24_spec_from(from_be3(s[off], s[off + 1], s[off + 2]));
    crate::packed::lemma_u24_eq(u24::spec_from(from_be3(s[off], s[off + 1], s[off + 2])), x);
}

/// The status report of the tracking unit: switch and LED flags, the system
/// status code, firmware versions, the DSP status, target counts and the RMS
/// error.
#[derive(Clone, Copy, Debug, PartialEq, Eq)]
pub struct SystemStatusPayload {
    pub switchsetting: SwitchSettingFlags,
    pub ledindication: LEDFlags,
    pub systemstatus: SystemStatus,
    pub cpufirmwareversion: u8,
    pub pldfirmwareversion: u8,
    pub dspsoftwareversion: u8,
    pub dspstatus: Result<i8, DSPError>,
    pub numtargetsseen: u8,
    pub numtargetsidentified: u8,
    pub numtargetsused: u8,
    pub rmserror: u24,
}

impl SystemStatusPayload {
    /// Empty flags, normal status, zero versions and counts, zero iterations.
    pub open spec fn spec_default() -> SystemStatusPayload {
        SystemStatusPayload {
            switchsetting: SwitchSettingFlags::spec_from_bits(0),
            ledindication: LEDFlags::spec_from_bits(0),
            systemstatus: SystemStatus::SYSTEM_NORMAL,
            cpufirmwareversion: 0,
            pldfirmwareversion: 0,
            dspsoftwareversion: 0,
            dspstatus: Ok(0),
            numtargetsseen: 0,
            numtargetsidentified: 0,
            numtargetsused: 0,
            rmserror: u24::spec_from(0),
        }
    }

    /// The RMS error is in range and an `Ok` DSP status is a non-negative
    /// iteration count, as the wire format requires: a negative count would
    /// encode as an error code.
    pub open spec fn wf(self) -> bool {
        &&& self.rmserror.in_range()
        &&& (self.dspstatus matches Ok(x) ==> x >= 0)
    }
}

impl Default for SystemStatusPayload {
    fn default() -> (r: Self)
        ensures
            r == SystemStatusPayload::spec_default(),
    {
        SystemStatusPayload {
            switchsetting: SwitchSettingFlags::default(),
            ledindication: LEDFlags::default(),
            systemstatus: SystemStatus::default(),
            cpufirmwareversion: 0,
            pldfirmwareversion: 0,
            dspsoftwareversion: 0,
            dspstatus: Ok(0),
            numtargetsseen: 0,
            numtargetsidentified: 0,
            numtargetsused: 0,
            rmserror: u24::default(),
        }
    }
}

impl Serialise for SystemStatusPayload {
    open spec fn bytes(&self) -> Seq<u8> {
        seq![
            self.switchsetting@,
            self.ledindication@,
            system_status_code(self.systemstatus),
            self.cpufirmwareversion,
            self.pldfirmwareversion,
            self.dspsoftwareversion,
            dsp_status_byte(self.dspstatus),
            self.numtargetsseen,
            self.numtargetsidentified,
            self.numtargetsused,
        ] + be3(self.rmserror@)
    }

    fn serialise(self) -> (r: Vec<u8>) {
        let mut out: Vec<u8> = Vec::new();
        out.push(self.switchsetting.bits());
        out.push(self.ledindication.bits());
        out.push(self.systemstatus.to_byte());
        out.push(self.cpufirmwareversion);
        out.push(self.pldfirmwareversion);
        out.push(self.dspsoftwareversion);
        out.push(dsp_status_to_byte(self.dspstatus));
        out.push(self.numtargetsseen);
        out.push(self.numtargetsidentified);
        out.push(self.numtargetsused);
        self.rmserror.encode_onto(&mut out);
        proof {
            assert(out@ =~= self.bytes());
        }
        out
    }
}

impl Deserialise for SystemStatusPayload {
    open spec fn spec_deserialise(s: Seq<u8>) -> Result<Self, DeserialiseError> {
        if s.len() != 13 {
            Err(DeserialiseError::LengthMismatch { expected: 13, actual: s.len() as usize })
        } else if !is_system_status_code(s[2]) {
            Err(DeserialiseError::InvalidEnumValue { field: FieldKind::SystemStatus, byte: s[2] })
        } else if !is_dsp_status_byte(s[6]) {
            Err(DeserialiseError::InvalidEnumValue { field: FieldKind::DspStatus, byte: s[6] })
        } else {
            Ok(
                SystemStatusPayload {
                    switchsetting: SwitchSettingFlags::spec_from_bits(s[0]),
                    ledindication: LEDFlags::spec_from_bits(s[1]),
                    systemstatus: spec_system_status_of(s[2]),
                    cpufirmwareversion: s[3],
                    pldfirmwareversion: s[4],
                    dspsoftwareversion: s[5],
                    dspstatus: spec_dsp_status_of(s[6]),
                    numtargetsseen: s[7],
                    numtargetsidentified: s[8],
                    numtargetsused: s[9],
                    rmserror: u24::spec_from(from_be3(s[10], s[11], s[12])),
                },
            )
        }
    }

    fn deserialise(array: &[u8]) -> (r: Result<Self, DeserialiseError>) {
        if array.len() != 13 {
            return Err(DeserialiseError::LengthMismatch { expected: 13, actual: array.len() });
        }
        let systemstatus = match SystemStatus::from_byte(array[2]) {
            Ok(s) => s,
            Err(e) => {
                return Err(e);
            },
        };
        let dspstatus = match dsp_status_from_byte(array[6]) {
            Ok(d) => d,
            Err(e) => {
                return Err(e);
            },
        };
        Ok(
            SystemStatusPayload {
                switchsetting: SwitchSettingFlags::from_bits(array[0]),
                ledindication: LEDFlags::from_bits(array[1]),
                systemstatus,
                cpufirmwareversion: array[3],
                pldfirmwareversion: array[4],
                dspsoftwareversion: array[5],
                dspstatus,
                numtargetsseen: array[7],
                numtargetsidentified: array[8],
                numtargetsused: array[9],
                rmserror: read_u24(array, 10),
            },
        )
    }
}

/// Decoding an encoded system status yields the payload back.
pub proof fn lemma_system_status_roundtrip(p: SystemStatusPayload)
    requires
        p.wf(),
    ensures
        p.bytes().len() == 13,
        SystemStatusPayload::spec_deserialise(p.bytes()) == Ok::<_, DeserialiseError>(p),
{
    let s = p.bytes();
    assert(s[0] == p.switchsetting@ && s[1] == p.ledindication@);
    crate::flags::lemma_switch_from_bits_eq(s[0], p.switchsetting);
    crate::flags::lemma_led_from_bits_eq(s[1], p.ledindication);
    lemma_dsp_status_roundtrip(p.dspstatus);
    assert(s.subrange(10, 13) =~= be3(p.rmserror@));
    lemma_u24_field(p.rmserror, s, 10);
}

/// The tuning parameters of the tracking unit: ten independent 8-bit values.
#[derive(Clone, Copy, Debug, PartialEq, Eq, Structural)]
pub struct SystemControlPayload {
    pub studioid: u8,
    pub smoothing: u8,
    pub maxasymmetry: u8,
    pub halfboxwidth: u8,
    pub blackvidthreshold: u8,
    pub whitevidthreshold: u8,
    pub blackvidclip: u8,
    pub whitevidclip: u8,
    pub maxblackpixels: u8,
    pub minwhitepixels: u8,
}

impl SystemControlPayload {
    /// All parameters zero.
    pub open spec fn spec_default() -> SystemControlPayload {
        SystemControlPayload {
            studioid: 0,
            smoothing: 0,
            maxasymmetry: 0,
            halfboxwidth: 0,
            blackvidthreshold: 0,
            whitevidthreshold: 0,
            blackvidclip: 0,
            whitevidclip: 0,
            maxblackpixels: 0,
            minwhitepixels: 0,
        }
    }

    /// Every control value is well formed.
    pub open spec fn wf(self) -> bool {
        true
    }
}

impl Default for SystemControlPayload {
    fn default() -> (r: Self)
        ensures
            r == SystemControlPayload::spec_default(),
    {
        SystemControlPayload {
            studioid: 0,
            smoothing: 0,
            maxasymmetry: 0,
            halfboxwidth: 0,
            blackvidthreshold: 0,
            whitevidthreshold: 0,
            blackvidclip: 0,
            whitevidclip: 0,
            maxblackpixels: 0,
            minwhitepixels: 0,
        }
    }
}

impl Serialise for SystemControlPayload {
    open spec fn bytes(&self) -> Seq<u8> {
        seq![
            self.studioid,
            self.smoothing,
            self.maxasymmetry,
            self.halfboxwidth,
            self.blackvidthreshold,
            self.whitevidthreshold,
            self.blackvidclip,
            self.whitevidclip,
            self.maxblackpixels,
            self.minwhitepixels,
        ]
    }

    fn serialise(self) -> (r: Vec<u8>) {
        let mut out: Vec<u8> = Vec::new();
        out.push(self.studioid);
        out.push(self.smoothing);
        out.push(self.maxasymmetry);
        out.push(self.halfboxwidth);
        out.push(self.blackvidthreshold);
        out.push(self.whitevidthreshold);
        out.push(self.blackvidclip);
        out.push(self.whitevidclip);
        out.push(self.maxblackpixels);
        out.push(self.minwhitepixels);
        proof {
            assert(out@ =~= self.bytes());
        }
        out
    }
}

impl Deserialise for SystemControlPayload {
    open spec fn spec_deserialise(s: Seq<u8>) -> Result<Self, DeserialiseError> {
        if s.len() != 10 {
            Err(DeserialiseError::LengthMismatch { expected: 10, actual: s.len() as usize })
        } else {
            Ok(
                SystemControlPayload {
                    studioid: s[0],
                    smoothing: s[1],
                    maxasymmetry: s[2],
                    halfboxwidth: s[3],
                    blackvidthreshold: s[4],
                    whitevidthreshold: s[5],
                    blackvidclip: s[6],
                    whitevidclip: s[7],
                    maxblackpixels: s[8],
                    minwhitepixels: s[9],
                },
            )
        }
    }

    fn deserialise(array: &[u8]) -> (r: Result<Self, DeserialiseError>) {
        if array.len() != 10 {
            return Err(DeserialiseError::LengthMismatch { expected: 10, actual: array.len() });
        }
        Ok(
            SystemControlPayload {
                studioid: array[0],
                smoothing: array[1],
                maxasymmetry: array[2],
                halfboxwidth: array[3],
                blackvidthreshold: array[4],
                whitevidthreshold: array[5],
                blackvidclip: array[6],
                whitevidclip: array[7],
                maxblackpixels: array[8],
                minwhitepixels: array[9],
            },
        )
    }
}

/// Decoding an encoded control payload yields the payload back.
pub proof fn lemma_system_control_roundtrip(p: SystemControlPayload)
    requires
        p.wf(),
    ensures
        p.bytes().len() == 10,
        SystemControlPayload::spec_deserialise(p.bytes()) == Ok::<_, DeserialiseError>(p),
{
}

/// Data of one tracked target: its studio, number, position and flags.
#[derive(Clone, Copy, Debug, PartialEq, Eq, Structural)]
pub struct TargetDataPayload {
    pub studioid: u8,
    pub targetnumber: u16,
    pub targetx: i24,
    pub targety: i24,
    pub targetz: i24,
    pub targetflags: i24,
}

impl TargetDataPayload {
    /// All fields zero.
    pub open spec fn spec_default() -> TargetDataPayload {
        TargetDataPayload {
            studioid: 0,
            targetnumber: 0,
            targetx: i24::spec_from(0),
            targety: i24::spec_from(0),
            targetz: i24::spec_from(0),
            targetflags: i24::spec_from(0),
        }
    }

    /// All packed fields hold values in their 24-bit ranges.
    pub open spec fn wf(self) -> bool {
        &&& self.targetx.in_range()
        &&& self.targety.in_range()
        &&& self.targetz.in_range()
        &&& self.targetflags.in_range()
    }
}

impl Default for TargetDataPayload {
    fn default() -> (r: Self)
        ensures
            r == TargetDataPayload::spec_default(),
    {
        TargetDataPayload {
            studioid: 0,
            targetnumber: 0,
            targetx: i24::default(),
            targety: i24::default(),
            targetz: i24::default(),
            targetflags: i24::default(),
        }
    }
}

impl Serialise for TargetDataPayload {
    open spec fn bytes(&self) -> Seq<u8> {
        seq![self.studioid] + be2(self.targetnumber) + be3(i24_to_bits(self.targetx@)) + be3(
            i24_to_bits(self.targety@),
        ) + be3(i24_to_bits(self.targetz@)) + be3(i24_to_bits(self.targetflags@))
    }

    fn serialise(self) -> (r: Vec<u8>) {
        let mut out: Vec<u8> = Vec::new();
        out.push(self.studioid);
        encode_u16_onto(self.targetnumber, &mut out);
        self.targetx.encode_onto(&mut out);
        self.targety.encode_onto(&mut out);
        self.targetz.encode_onto(&mut out);
        self.targetflags.encode_onto(&mut out);
        proof {
            assert(out@ =~= self.bytes());
        }
        out
    }
}

impl Deserialise for TargetDataPayload {
    open spec fn spec_deserialise(s: Seq<u8>) -> Result<Self, DeserialiseError> {
        if s.len() != 15 {
            Err(DeserialiseError::LengthMismatch { expected: 15, actual: s.len() as usize })
        } else {
            Ok(
                TargetDataPayload {
                    studioid: s[0],
                    targetnumber: from_be2(s[1], s[2]),
                    targetx: i24::spec_from(i24_from_bits(from_be3(s[3], s[4], s[5]))),
                    targety: i24::spec_from(i24_from_bits(from_be3(s[6], s[7], s[8]))),
                    targetz: i24::spec_from(i24_from_bits(from_be3(s[9], s[10], s[11]))),
                    targetflags: i24::spec_from(i24_from_bits(from_be3(s[12], s[13], s[14]))),
                },
            )
        }
    }

    fn deserialise(array: &[u8]) -> (r: Result<Self, DeserialiseError>) {
        if array.len() != 15 {
            return Err(DeserialiseError::LengthMismatch { expected: 15, actual: array.len() });
        }
        Ok(
            TargetDataPayload {
                studioid: array[0],
                targetnumber: read_u16(array, 1),
                targetx: read_i24(array, 3),
                targety: read_i24(array, 6),
                targetz: read_i24(array, 9),
                targetflags: read_i24(array, 12),
            },
        )
    }
}

/// Decoding an encoded target-data payload yields the payload back.
pub proof fn lemma_target_data_roundtrip(p: TargetDataPayload)
    requires
        p.wf(),
    ensures
        p.bytes().len() == 15,
        TargetDataPayload::spec_deserialise(p.bytes()) == Ok::<_, DeserialiseError>(p),
{
    let s = p.bytes();
    lemma_u16_roundtrip(p.targetnumber);
    assert(s[1] == be2(p.targetnumber)[0] && s[2] == be2(p.targetnumber)[1]);
    assert(s.subrange(3, 6) =~= be3(i24_to_bits(p.targetx@)));
    assert(s.subrange(6, 9) =~= be3(i24_to_bits(p.targety@)));
    assert(s.subrange(9, 12) =~= be3(i24_to_bits(p.targetz@)));
    assert(s.subrange(12, 15) =~= be3(i24_to_bits(p.targetflags@)));
    lemma_i24_field(p.targetx, s, 3);
    lemma_i24_field(p.targety, s, 6);
    lemma_i24_field(p.targetz, s, 9);
    lemma_i24_field(p.targetflags, s, 12);
}

/// Data of one target image: index, number, position and the two error
/// terms.
#[derive(Clone, Copy, Debug, PartialEq, Eq, Structural)]
pub struct ImageDataPayload {
    pub targetindex: u8,
    pub targetnum: u16,
    pub targetx: i24,
    pub targety: i24,
    pub xerror: i24,
    pub yerror: i24,
}

impl ImageDataPayload {
    /// All fields zero.
    pub open spec fn spec_default() -> ImageDataPayload {
        ImageDataPayload {
            targetindex: 0,
            targetnum: 0,
            targetx: i24::spec_from(0),
            targety: i24::spec_from(0),
            xerror: i24::spec_from(0),
            yerror: i24::spec_from(0),
        }
    }

    /// All packed fields hold values in their 24-bit ranges.
    pub open spec fn wf(self) -> bool {
        &&& self.targetx.in_range()
        &&& self.targety.in_range()
        &&& self.xerror.in_range()
        &&& self.yerror.in_range()
    }
}

impl Default for ImageDataPayload {
    fn default() -> (r: Self)
        ensures
            r == ImageDataPayload::spec_default(),
    {
        ImageDataPayload {
            targetindex: 0,
            targetnum: 0,
            targetx: i24::default(),
            targety: i24::default(),
            xerror: i24::default(),
            yerror: i24::default(),
        }
    }
}

impl Serialise for ImageDataPayload {
    open spec fn bytes(&self) -> Seq<u8> {
        seq![self.targetindex] + be2(self.targetnum) + be3(i24_to_bits(self.targetx@)) + be3(
            i24_to_bits(self.targety@),
        ) + be3(i24_to_bits(self.xerror@)) + be3(i24_to_bits(self.yerror@))
    }

    fn serialise(self) -> (r: Vec<u8>) {
        let mut out: Vec<u8> = Vec::new();
        out.push(self.targetindex);
        encode_u16_onto(self.targetnum, &mut out);
        self.targetx.encode_onto(&mut out);
        self.targety.encode_onto(&mut out);
        self.xerror.encode_onto(&mut out);
        self.yerror.encode_onto(&mut out);
        proof {
            assert(out@ =~= self.bytes());
        }
        out
    }
}

impl Deserialise for ImageDataPayload {
    open spec fn spec_deserialise(s: Seq<u8>) -> Result<Self, DeserialiseError> {
        if s.len() != 15 {
            Err(DeserialiseError::LengthMismatch { expected: 15, actual: s.len() as usize })
        } else {
            Ok(
                ImageDataPayload {
                    targetindex: s[0],
                    targetnum: from_be2(s[1], s[2]),
                    targetx: i24::spec_from(i24_from_bits(from_be3(s[3], s[4], s[5]))),
                    targety: i24::spec_from(i24_from_bits(from_be3(s[6], s[7], s[8]))),
                    xerror: i24::spec_from(i24_from_bits(from_be3(s[9], s[10], s[11]))),
                    yerror: i24::spec_from(i24_from_bits(from_be3(s[12], s[13], s[14]))),
                },
            )
        }
    }

    fn deserialise(array: &[u8]) -> (r: Result<Self, DeserialiseError>) {
        if array.len() != 15 {
            return Err(DeserialiseError::LengthMismatch { expected: 15, actual: array.len() });
        }
        Ok(
            ImageDataPayload {
                targetindex: array[0],
                targetnum: read_u16(array, 1),
                targetx: read_i24(array, 3),
                targety: read_i24(array, 6),
                xerror: read_i24(array, 9),
                yerror: read_i24(array, 12),
            },
        )
    }
}

/// Decoding an encoded image-data payload yields the payload back.
pub proof fn lemma_image_data_roundtrip(p: ImageDataPayload)
    requires
        p.wf(),
    ensures
        p.bytes().len() == 15,
        ImageDataPayload::spec_deserialise(p.bytes()) == Ok::<_, DeserialiseError>(p),
{
    let s = p.bytes();
    lemma_u16_roundtrip(p.targetnum);
    assert(s[1] == be2(p.targetnum)[0] && s[2] == be2(p.targetnum)[1]);
    assert(s.subrange(3, 6) =~= be3(i24_to_bits(p.targetx@)));
    assert(s.subrange(6, 9) =~= be3(i24_to_bits(p.targety@)));
    assert(s.subrange(9, 12) =~= be3(i24_to_bits(p.xerror@)));
    assert(s.subrange(12, 15) =~= be3(i24_to_bits(p.yerror@)));
    lemma_i24_field(p.targetx, s, 3);
    lemma_i24_field(p.targety, s, 6);
    lemma_i24_field(p.xerror, s, 9);
    lemma_i24_field(p.yerror, s, 12);
}

/// The `[u8; 16]` whose elements are exactly the bytes of `s`; meaningful
/// when `s` has length 16.
pub open spec fn arr16_of(s: Seq<u8>) -> [u8; 16] {
    choose|a: [u8; 16]| a@ == s
}

/// One EEPROM page: a 16-bit address and 16 raw bytes copied verbatim.
#[allow(non_snake_case)]
#[derive(Clone, Copy, Debug, PartialEq, Eq)]
pub struct EEPROMDataPayload {
    pub EEPROMaddress: u16,
    pub EEPROMdata: [u8; 16],
}

impl EEPROMDataPayload {
    /// Address zero, all data bytes zero.
    pub open spec fn spec_default() -> EEPROMDataPayload {
        EEPROMDataPayload { EEPROMaddress: 0, EEPROMdata: arr16_of(Seq::new(16, |i: int| 0u8)) }
    }

    /// Every EEPROM page value is well formed.
    pub open spec fn wf(self) -> bool {
        true
    }
}

impl Default for EEPROMDataPayload {
    fn default() -> (r: Self)
        ensures
            r == EEPROMDataPayload::spec_default(),
    {
        let data: [u8; 16] = [0; 16];
        proof {
            assert(data@ =~= Seq::new(16, |i: int| 0u8));
            lemma_arr16_of(data);
        }
        EEPROMDataPayload { EEPROMaddress: 0, EEPROMdata: data }
    }
}

/// `arr16_of` applied to the view of a 16-byte array is the array itself.
proof fn lemma_arr16_of(a: [u8; 16])
    ensures
        arr16_of(a@) == a,
{
    assert(exists|x: [u8; 16]| x@ == a@) by {
        assert(a@ == a@);
    }
    let c = arr16_of(a@);
    assert(c@ == a@);
    assert(c =~= a);
}

impl Serialise for EEPROMDataPayload {
    open spec fn bytes(&self) -> Seq<u8> {
        be2(self.EEPROMaddress) + self.EEPROMdata@
    }

    fn serialise(self) -> (r: Vec<u8>) {
        let mut out: Vec<u8> = Vec::new();
        encode_u16_onto(self.EEPROMaddress, &mut out);
        let mut i: usize = 0;
        while i < 16
            invariant
                i <= 16,
                out@ == be2(self.EEPROMaddress) + self.EEPROMdata@.take(i as int),
            decreases 16 - i,
        {
            out.push(self.EEPROMdata[i]);
            proof {
                assert(self.EEPROMdata@.take(i + 1) =~= self.EEPROMdata@.take(i as int).push(
                    self.EEPROMdata@[i as int],
                ));
            }
            i = i + 1;
        }
        proof {
            assert(self.EEPROMdata@.take(16) =~= self.EEPROMdata@);
        }
        out
    }
}

impl Deserialise for EEPROMDataPayload {
    open spec fn spec_deserialise(s: Seq<u8>) -> Result<Self, DeserialiseError> {
        if s.len() != 18 {
            Err(DeserialiseError::LengthMismatch { expected: 18, actual: s.len() as usize })
        } else {
            Ok(
                EEPROMDataPayload {
                    EEPROMaddress: from_be2(s[0], s[1]),
                    EEPROMdata: arr16_of(s.subrange(2, 18)),
                },
            )
        }
    }

    fn deserialise(array: &[u8]) -> (r: Result<Self, DeserialiseError>) {
        if array.len() != 18 {
            return Err(DeserialiseError::LengthMismatch { expected: 18, actual: array.len() });
        }
        let mut data: [u8; 16] = [0; 16];
        let mut i: usize = 0;
        while i < 16
            invariant
                i <= 16,
                array@.len() == 18,
                data@.len() == 16,
                forall|j: int| 0 <= j < i ==> data@[j] == array@[2 + j],
            decreases 16 - i,
        {
            data[i] = array[2 + i];
            i = i + 1;
        }
        proof {
            assert(data@ =~= array@.subrange(2, 18));
            lemma_arr16_of(data);
        }
        Ok(EEPROMDataPayload { EEPROMaddress: read_u16(array, 0), EEPROMdata: data })
    }
}

/// Decoding an encoded EEPROM page yields the page back.
#[verifier::rlimit(30)]
pub proof fn lemma_eeprom_data_roundtrip(p: EEPROMDataPayload)
    requires
        p.wf(),
    ensures
        p.bytes().len() == 18,
        EEPROMDataPayload::spec_deserialise(p.bytes()) == Ok::<_, DeserialiseError>(p),
{
    let s = p.bytes();
    lemma_u16_roundtrip(p.EEPROMaddress);
    assert(s[0] == be2(p.EEPROMaddress)[0] && s[1] == be2(p.EEPROMaddress)[1]);
    assert(s.subrange(2, 18) =~= p.EEPROMdata@);
    lemma_arr16_of(p.EEPROMdata);
}

/// A request for one EEPROM page by its 16-bit address.
#[allow(non_snake_case)]
#[derive(Clone, Copy, Debug, PartialEq, Eq, Structural)]
pub struct EEPROMDataRequestPayload {
    pub EEPROMaddress: u16,
}

impl EEPROMDataRequestPayload {
    /// Address zero.
    pub open spec fn spec_default() -> EEPROMDataRequestPayload {
        EEPROMDataRequestPayload { EEPROMaddress: 0 }
    }

    /// Every request value is well formed.
    pub open spec fn wf(self) -> bool {
        true
    }
}

impl Default for EEPROMDataRequestPayload {
    fn default() -> (r: Self)
        ensures
            r == EEPROMDataRequestPayload::spec_default(),
    {
        EEPROMDataRequestPayload { EEPROMaddress: 0 }
    }
}

impl Serialise for EEPROMDataRequestPayload {
    open spec fn bytes(&self) -> Seq<u8> {
        be2(self.EEPROMaddress)
    }

    fn serialise(self) -> (r: Vec<u8>) {
        let mut out: Vec<u8> = Vec::new();
        encode_u16_onto(self.EEPROMaddress, &mut out);
        out
    }
}

impl Deserialise for EEPROMDataRequestPayload {
    open spec fn spec_deserialise(s: Seq<u8>) -> Result<Self, DeserialiseError> {
        if s.len() != 2 {
            Err(DeserialiseError::LengthMismatch { expected: 2, actual: s.len() as usize })
        } else {
            Ok(EEPROMDataRequestPayload { EEPROMaddress: from_be2(s[0], s[1]) })
        }
    }

    fn deserialise(array: &[u8]) -> (r: Result<Self, DeserialiseError>) {
        if array.len() != 2 {
            return Err(DeserialiseError::LengthMismatch { expected: 2, actual: array.len() });
        }
        Ok(EEPROMDataRequestPayload { EEPROMaddress: read_u16(array, 0) })
    }
}

/// Decoding an encoded EEPROM request yields the request back.
pub proof fn lemma_eeprom_request_roundtrip(p: EEPROMDataRequestPayload)
    requires
        p.wf(),
    ensures
        p.bytes().len() == 2,
        EEPROMDataRequestPayload::spec_deserialise(p.bytes()) == Ok::<_, DeserialiseError>(p),
{
    lemma_u16_roundtrip(p.EEPROMaddress);
}

/// Lens and offset calibration of one camera: nine signed 24-bit parameters.
#[derive(Clone, Copy, Debug, PartialEq, Eq, Structural)]
pub struct CameraCalibrationPayload {
    pub lenscentrex: i24,
    pub lenscentrey: i24,
    pub lensscalex: i24,
    pub lensscaley: i24,
    pub lensdistortiona: i24,
    pub lensdistortionb: i24,
    pub xoffset: i24,
    pub yoffset: i24,
    pub zoffset: i24,
}

impl CameraCalibrationPayload {
    /// All parameters zero.
    pub open spec fn spec_default() -> CameraCalibrationPayload {
        CameraCalibrationPayload {
            lenscentrex: i24::spec_from(0),
            lenscentrey: i24::spec_from(0),
            lensscalex: i24::spec_from(0),
            lensscaley: i24::spec_from(0),
            lensdistortiona: i24::spec_from(0),
            lensdistortionb: i24::spec_from(0),
            xoffset: i24::spec_from(0),
            yoffset: i24::spec_from(0),
            zoffset: i24::spec_from(0),
        }
    }

    /// All packed fields hold values in their 24-bit ranges.
    pub open spec fn wf(self) -> bool {
        &&& self.lenscentrex.in_range()
        &&& self.lenscentrey.in_range()
        &&& self.lensscalex.in_range()
        &&& self.lensscaley.in_range()
        &&& self.lensdistortiona.in_range()
        &&& self.lensdistortionb.in_range()
        &&& self.xoffset.in_range()
        &&& self.yoffset.in_range()
        &&& self.zoffset.in_range()
    }
}

impl Default for CameraCalibrationPayload {
    fn default() -> (r: Self)
        ensures
            r == CameraCalibrationPayload::spec_default(),
    {
        CameraCalibrationPayload {
            lenscentrex: i24::default(),
            lenscentrey: i24::default(),
            lensscalex: i24::default(),
            lensscaley: i24::default(),
            lensdistortiona: i24::default(),
            lensdistortionb: i24::default(),
            xoffset: i24::default(),
            yoffset: i24::default(),
            zoffset: i24::default(),
        }
    }
}

impl Serialise for CameraCalibrationPayload {
    open spec fn bytes(&self) -> Seq<u8> {
        be3(i24_to_bits(self.lenscentrex@)) + be3(i24_to_bits(self.lenscentrey@)) + be3(
            i24_to_bits(self.lensscalex@),
        ) + be3(i24_to_bits(self.lensscaley@)) + be3(i24_to_bits(self.lensdistortiona@)) + be3(
            i24_to_bits(self.lensdistortionb@),
        ) + be3(i24_to_bits(self.xoffset@)) + be3(i24_to_bits(self.yoffset@)) + be3(
            i24_to_bits(self.zoffset@),
        )
    }

    fn serialise(self) -> (r: Vec<u8>) {
        let mut out: Vec<u8> = Vec::new();
        self.lenscentrex.encode_onto(&mut out);
        self.lenscentrey.encode_onto(&mut out);
        self.lensscalex.encode_onto(&mut out);
        self.lensscaley.encode_onto(&mut out);
        self.lensdistortiona.encode_onto(&mut out);
        self.lensdistortionb.encode_onto(&mut out);
        self.xoffset.encode_onto(&mut out);
        self.yoffset.encode_onto(&mut out);
        self.zoffset.encode_onto(&mut out);
        proof {
            assert(out@ =~= self.bytes());
        }
        out
    }
}

impl Deserialise for CameraCalibrationPayload {
    open spec fn spec_deserialise(s: Seq<u8>) -> Result<Self, DeserialiseError> {
        if s.len() != 27 {
            Err(DeserialiseError::LengthMismatch { expected: 27, actual: s.len() as usize })
        } else {
            Ok(
                CameraCalibrationPayload {
                    lenscentrex: i24::spec_from(i24_from_bits(from_be3(s[0], s[1], s[2]))),
                    lenscentrey: i24::spec_from(i24_from_bits(from_be3(s[3], s[4], s[5]))),
                    lensscalex: i24::spec_from(i24_from_bits(from_be3(s[6], s[7], s[8]))),
                    lensscaley: i24::spec_from(i24_from_bits(from_be3(s[9], s[10], s[11]))),
                    lensdistortiona: i24::spec_from(i24_from_bits(from_be3(s[12], s[13], s[14]))),
                    lensdistortionb: i24::spec_from(i24_from_bits(from_be3(s[15], s[16], s[17]))),
                    xoffset: i24::spec_from(i24_from_bits(from_be3(s[18], s[19], s[20]))),
                    yoffset: i24::spec_from(i24_from_bits(from_be3(s[21], s[22], s[23]))),
                    zoffset: i24::spec_from(i24_from_bits(from_be3(s[24], s[25], s[26]))),
                },
            )
        }
    }

    fn deserialise(array: &[u8]) -> (r: Result<Self, DeserialiseError>) {
        if array.len() != 27 {
            return Err(DeserialiseError::LengthMismatch { expected: 27, actual: array.len() });
        }
        Ok(
            CameraCalibrationPayload {
                lenscentrex: read_i24(array, 0),
                lenscentrey: read_i24(array, 3),
                lensscalex: read_i24(array, 6),
                lensscaley: read_i24(array, 9),
                lensdistortiona: read_i24(array, 12),
                lensdistortionb: read_i24(array, 15),
                xoffset: read_i24(array, 18),
                yoffset: read_i24(array, 21),
                zoffset: read_i24(array, 24),
            },
        )
    }
}

/// Decoding an encoded calibration payload yields the payload back.
pub proof fn lemma_camera_calibration_roundtrip(p: CameraCalibrationPayload)
    requires
        p.wf(),
    ensures
        p.bytes().len() == 27,
        CameraCalibrationPayload::spec_deserialise(p.bytes()) == Ok::<_, DeserialiseError>(p),
{
    let s = p.bytes();
    assert(s.subrange(0, 3) =~= be3(i24_to_bits(p.lenscentrex@)));
    assert(s.subrange(3, 6) =~= be3(i24_to_bits(p.lenscentrey@)));
    assert(s.subrange(6, 9) =~= be3(i24_to_bits(p.lensscalex@)));
    assert(s.subrange(9, 12) =~= be3(i24_to_bits(p.lensscaley@)));
    assert(s.subrange(12, 15) =~= be3(i24_to_bits(p.lensdistortiona@)));
    assert(s.subrange(15, 18) =~= be3(i24_to_bits(p.lensdistortionb@)));
    assert(s.subrange(18, 21) =~= be3(i24_to_bits(p.xoffset@)));
    assert(s.subrange(21, 24) =~= be3(i24_to_bits(p.yoffset@)));
    assert(s.subrange(24, 27) =~= be3(i24_to_bits(p.zoffset@)));
    lemma_i24_field(p.lenscentrex, s, 0);
    lemma_i24_field(p.lenscentrey, s, 3);
    lemma_i24_field(p.lensscalex, s, 6);
    lemma_i24_field(p.lensscaley, s, 9);
    lemma_i24_field(p.lensdistortiona, s, 12);
    lemma_i24_field(p.lensdistortionb, s, 15);
    lemma_i24_field(p.xoffset, s, 18);
    lemma_i24_field(p.yoffset, s, 21);
    lemma_i24_field(p.zoffset, s, 24);
}

/// A diagnostic-mode selection: a single enumeration byte.
#[derive(Clone, Copy, Debug, PartialEq, Eq, Structural)]
pub struct DiagnosticModePayload {
    pub diagnosticflag: DiagnosticModes,
}

impl DiagnosticModePayload {
    /// Normal operation.
    pub open spec fn spec_default() -> DiagnosticModePayload {
        DiagnosticModePayload { diagnosticflag: DiagnosticModes::NORMAL_OPERATION }
    }

    /// Every diagnostic-mode value is well formed.
    pub open spec fn wf(self) -> bool {
        true
    }
}

impl Default for DiagnosticModePayload {
    fn default() -> (r: Self)
        ensures
            r == DiagnosticModePayload::spec_default(),
    {
        DiagnosticModePayload { diagnosticflag: DiagnosticModes::NORMAL_OPERATION }
    }
}

impl Serialise for DiagnosticModePayload {
    open spec fn bytes(&self) -> Seq<u8> {
        seq![diagnostic_mode_code(self.diagnosticflag)]
    }

    fn serialise(self) -> (r: Vec<u8>) {
        let mut out: Vec<u8> = Vec::new();
        out.push(self.diagnosticflag.to_byte());
        proof {
            assert(out@ =~= self.bytes());
        }
        out
    }
}

impl Deserialise for DiagnosticModePayload {
    open spec fn spec_deserialise(s: Seq<u8>) -> Result<Self, DeserialiseError> {
        if s.len() != 1 {
            Err(DeserialiseError::LengthMismatch { expected: 1, actual: s.len() as usize })
        } else if !is_diagnostic_mode_code(s[0]) {
            Err(DeserialiseError::InvalidEnumValue { field: FieldKind::DiagnosticMode, byte: s[0] })
        } else {
            Ok(DiagnosticModePayload { diagnosticflag: spec_diagnostic_mode_of(s[0]) })
        }
    }

    fn deserialise(array: &[u8]) -> (r: Result<Self, DeserialiseError>) {
        if array.len() != 1 {
            return Err(DeserialiseError::LengthMismatch { expected: 1, actual: array.len() });
        }
        match DiagnosticModes::from_byte(array[0]) {
            Ok(diagnosticflag) => Ok(DiagnosticModePayload { diagnosticflag }),
            Err(e) => Err(e),
        }
    }
}

/// Decoding an encoded diagnostic-mode payload yields the payload back.
pub proof fn lemma_diagnostic_mode_roundtrip(p: DiagnosticModePayload)
    requires
        p.wf(),
    ensures
        p.bytes().len() == 1,
        DiagnosticModePayload::spec_deserialise(p.bytes()) == Ok::<_, DeserialiseError>(p),
{
}

/// The bytes of a run of signed 24-bit values, each encoded as three
/// big-endian bytes.
pub open spec fn i24_run_bytes(s: Seq<i24>) -> Seq<u8>
    decreases s.len(),
{
    if s.len() == 0 {
        Seq::empty()
    } else {
        be3(i24_to_bits(s[0]@)) + i24_run_bytes(s.skip(1))
    }
}

/// Encodes a run of signed 24-bit values, three big-endian bytes each.
pub fn serialisei24array(array: &[i24]) -> (r: Vec<u8>)
    ensures
        r@ == i24_run_bytes(array@),
{
    let mut out: Vec<u8> = Vec::new();
    let mut i: usize = 0;
    while i < array.len()
        invariant
            i <= array@.len(),
            out@ == i24_run_bytes(array@.take(i as int)),
        decreases array@.len() - i,
    {
        array[i].encode_onto(&mut out);
        proof {
            lemma_i24_run_bytes_snoc(array@.take(i + 1));
            assert(array@.take(i + 1).drop_last() =~= array@.take(i as int));
            assert(array@.take(i + 1).last() == array@[i as int]);
        }
        i = i + 1;
    }
    proof {
        assert(array@.take(array@.len() as int) =~= array@);
    }
    out
}

/// Unfolds the byte run of a non-empty sequence at its last element.
proof fn lemma_i24_run_bytes_snoc(s: Seq<i24>)
    requires
        s.len() > 0,
    ensures
        i24_run_bytes(s) == i24_run_bytes(s.drop_last()) + be3(i24_to_bits(s.last()@)),
    decreases s.len(),
{
    if s.len() == 1 {
        assert(s.drop_last() =~= Seq::<i24>::empty());
        assert(i24_run_bytes(s.skip(1)) == Seq::<u8>::empty()) by {
            assert(s.skip(1) =~= Seq::<i24>::empty());
        }
        assert(i24_run_bytes(s) =~= i24_run_bytes(s.drop_last()) + be3(i24_to_bits(s.last()@)));
    } else {
        lemma_i24_run_bytes_snoc(s.skip(1));
        assert(s.skip(1).drop_last() =~= s.drop_last().skip(1));
        assert(s.skip(1).last() == s.last());
        assert(s.drop_last()[0] == s[0]);
        assert(i24_run_bytes(s) =~= i24_run_bytes(s.drop_last()) + be3(i24_to_bits(s.last()@)));
    }
}

} // verus!
