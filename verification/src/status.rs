//! The small closed enumerations carried by status and diagnostic payloads:
//! system status codes, DSP error codes, the DSP status field, and the
//! diagnostic modes. Decoding an unrecognised code is an error, never a
//! default.

use vstd::prelude::*;

use crate::error::DeserialiseError;
use crate::error::FieldKind;

verus! {

/// Status codes the tracking unit reports in a system-status payload.
#[allow(non_camel_case_types)]
#[derive(Clone, Copy, Debug, PartialEq, Eq, Structural)]
pub enum SystemStatus {
    SYSTEM_NORMAL,
    PROCESSOR_RESET,
    SERIAL_ERROR,
    VBLANK_FAIL,
    XILINX_FAIL,
    I2C_FAIL,
    EEPROM_FAIL,
    DSP_ACKNOWLEDGE_FAIL,
    DSP_ACCEPT_FAIL,
    DSP_PROVIDE_FAIL,
    DSP_EXCEPTION_ERROR,
    I2C_NOREPLY_FAIL,
    I2C_BUSERROR_FAIL,
    I2C_ACK_FAIL,
    I2C_UNDEFINED_STATE,
    I2C_OVERFLOW,
}

/// The wire code of each system status.
pub open spec fn system_status_code(s: SystemStatus) -> u8 {
    match s {
        SystemStatus::SYSTEM_NORMAL => 0,
        SystemStatus::PROCESSOR_RESET => 1,
        SystemStatus::SERIAL_ERROR => 2,
        SystemStatus::VBLANK_FAIL => 3,
        SystemStatus::XILINX_FAIL => 4,
        SystemStatus::I2C_FAIL => 5,
        SystemStatus::EEPROM_FAIL => 6,
        SystemStatus::DSP_ACKNOWLEDGE_FAIL => 7,
        SystemStatus::DSP_ACCEPT_FAIL => 8,
        SystemStatus::DSP_PROVIDE_FAIL => 9,
        SystemStatus::DSP_EXCEPTION_ERROR => 10,
        SystemStatus::I2C_NOREPLY_FAIL => 91,
        SystemStatus::I2C_BUSERROR_FAIL => 93,
        SystemStatus::I2C_ACK_FAIL => 94,
        SystemStatus::I2C_UNDEFINED_STATE => 95,
        SystemStatus::I2C_OVERFLOW => 96,
    }
}

/// Whether a byte names a defined system status.
pub open spec fn is_system_status_code(b: u8) -> bool {
    b <= 10 || b == 91 || (93 <= b && b <= 96)
}

/// The system status named by a byte; meaningful only when
/// `is_system_status_code` holds of it.
pub open spec fn spec_system_status_of(b: u8) -> SystemStatus {
    if b == 0 {
        SystemStatus::SYSTEM_NORMAL
    } else if b == 1 {
        SystemStatus::PROCESSOR_RESET
    } else if b == 2 {
        SystemStatus::SERIAL_ERROR
    } else if b == 3 {
        SystemStatus::VBLANK_FAIL
    } else if b == 4 {
        SystemStatus::XILINX_FAIL
    } else if b == 5 {
        SystemStatus::I2C_FAIL
    } else if b == 6 {
        SystemStatus::EEPROM_FAIL
    } else if b == 7 {
        SystemStatus::DSP_ACKNOWLEDGE_FAIL
    } else if b == 8 {
        SystemStatus::DSP_ACCEPT_FAIL
    } else if b == 9 {
        SystemStatus::DSP_PROVIDE_FAIL
    } else if b == 10 {
        SystemStatus::DSP_EXCEPTION_ERROR
    } else if b == 91 {
        SystemStatus::I2C_NOREPLY_FAIL
    } else if b == 93 {
        SystemStatus::I2C_BUSERROR_FAIL
    } else if b == 94 {
        SystemStatus::I2C_ACK_FAIL
    } else if b == 95 {
        SystemStatus::I2C_UNDEFINED_STATE
    } else {
        SystemStatus::I2C_OVERFLOW
    }
}

impl SystemStatus {
    /// The one-byte wire code of this status.
    pub fn to_byte(self) -> (r: u8)
        ensures
            r == system_status_code(self),
    {
        match self {
            SystemStatus::SYSTEM_NORMAL => 0,
            SystemStatus::PROCESSOR_RESET => 1,
            SystemStatus::SERIAL_ERROR => 2,
            SystemStatus::VBLANK_FAIL => 3,
            SystemStatus::XILINX_FAIL => 4,
            SystemStatus::I2C_FAIL => 5,
            SystemStatus::EEPROM_FAIL => 6,
            SystemStatus::DSP_ACKNOWLEDGE_FAIL => 7,
            SystemStatus::DSP_ACCEPT_FAIL => 8,
            SystemStatus::DSP_PROVIDE_FAIL => 9,
            SystemStatus::DSP_EXCEPTION_ERROR => 10,
            SystemStatus::I2C_NOREPLY_FAIL => 91,
            SystemStatus::I2C_BUSERROR_FAIL => 93,
            SystemStatus::I2C_ACK_FAIL => 94,
            SystemStatus::I2C_UNDEFINED_STATE => 95,
            SystemStatus::I2C_OVERFLOW => 96,
        }
    }

    /// Resolves a wire byte to a system status, failing with
    /// `InvalidEnumValue` on any byte that names none.
    pub fn from_byte(b: u8) -> (r: Result<SystemStatus, DeserialiseError>)
        ensures
            r is Ok <==> is_system_status_code(b),
            r matches Ok(s) ==> s == spec_system_status_of(b) && system_status_code(s) == b,
            r matches Err(e) ==> e == (DeserialiseError::InvalidEnumValue {
                field: FieldKind::SystemStatus,
                byte: b,
            }),
    {
        if b == 0 {
            Ok(SystemStatus::SYSTEM_NORMAL)
        } else if b == 1 {
            Ok(SystemStatus::PROCESSOR_RESET)
        } else if b == 2 {
            Ok(SystemStatus::SERIAL_ERROR)
        } else if b == 3 {
            Ok(SystemStatus::VBLANK_FAIL)
        } else if b == 4 {
            Ok(SystemStatus::XILINX_FAIL)
        } else if b == 5 {
            Ok(SystemStatus::I2C_FAIL)
        } else if b == 6 {
            Ok(SystemStatus::EEPROM_FAIL)
        } else if b == 7 {
            Ok(SystemStatus::DSP_ACKNOWLEDGE_FAIL)
        } else if b == 8 {
            Ok(SystemStatus::DSP_ACCEPT_FAIL)
        } else if b == 9 {
            Ok(SystemStatus::DSP_PROVIDE_FAIL)
        } else if b == 10 {
            Ok(SystemStatus::DSP_EXCEPTION_ERROR)
        } else if b == 91 {
            Ok(SystemStatus::I2C_NOREPLY_FAIL)
        } else if b == 93 {
            Ok(SystemStatus::I2C_BUSERROR_FAIL)
        } else if b == 94 {
            Ok(SystemStatus::I2C_ACK_FAIL)
        } else if b == 95 {
            Ok(SystemStatus::I2C_UNDEFINED_STATE)
        } else if b == 96 {
            Ok(SystemStatus::I2C_OVERFLOW)
        } else {
            Err(DeserialiseError::InvalidEnumValue { field: FieldKind::SystemStatus, byte: b })
        }
    }
}

impl Default for SystemStatus {
    /// The normal operating status.
    fn default() -> (r: Self)
        ensures
            r == SystemStatus::SYSTEM_NORMAL,
    {
        SystemStatus::SYSTEM_NORMAL
    }
}

/// Errors the DSP may report in place of an iteration count; the wire codes
/// are the negative values -1 to -4.
#[allow(non_camel_case_types)]
#[derive(Clone, Copy, Debug, PartialEq, Eq, Structural)]
pub enum DSPError {
    TOO_FEW_TARGETS,
    ITERATION_CONVERGE_FAIL,
    DSP_RESET,
    INTERNAL_ERROR,
}

/// The signed wire code of each DSP error.
pub open spec fn dsp_error_code(e: DSPError) -> i8 {
    match e {
        DSPError::TOO_FEW_TARGETS => -1i8,
        DSPError::ITERATION_CONVERGE_FAIL => -2i8,
        DSPError::DSP_RESET => -3i8,
        DSPError::INTERNAL_ERROR => -4i8,
    }
}

/// Whether a signed code names a defined DSP error.
pub open spec fn is_dsp_error_code(c: i8) -> bool {
    -4 <= c && c <= -1
}

/// The DSP error named by a signed code; meaningful only when
/// `is_dsp_error_code` holds of it.
pub open spec fn spec_dsp_error_of(c: i8) -> DSPError {
    if c == -1 {
        DSPError::TOO_FEW_TARGETS
    } else if c == -2 {
        DSPError::ITERATION_CONVERGE_FAIL
    } else if c == -3 {
        DSPError::DSP_RESET
    } else {
        DSPError::INTERNAL_ERROR
    }
}

impl DSPError {
    /// The signed wire code of this error.
    pub fn to_code(self) -> (r: i8)
        ensures
            r == dsp_error_code(self),
    {
        match self {
            DSPError::TOO_FEW_TARGETS => -1,
            DSPError::ITERATION_CONVERGE_FAIL => -2,
            DSPError::DSP_RESET => -3,
            DSPError::INTERNAL_ERROR => -4,
        }
    }

    /// Resolves a signed code to a DSP error, failing with
    /// `InvalidEnumValue` on any code that names none.
    pub fn from_code(c: i8) -> (r: Result<DSPError, DeserialiseError>)
        ensures
            r is Ok <==> is_dsp_error_code(c),
            r matches Ok(e) ==> e == spec_dsp_error_of(c) && dsp_error_code(e) == c,
            r matches Err(e) ==> e == (DeserialiseError::InvalidEnumValue {
                field: FieldKind::DspStatus,
                byte: c as u8,
            }),
    {
        if c == -1 {
            Ok(DSPError::TOO_FEW_TARGETS)
        } else if c == -2 {
            Ok(DSPError::ITERATION_CONVERGE_FAIL)
        } else if c == -3 {
            Ok(DSPError::DSP_RESET)
        } else if c == -4 {
            Ok(DSPError::INTERNAL_ERROR)
        } else {
            Err(DeserialiseError::InvalidEnumValue { field: FieldKind::DspStatus, byte: c as u8 })
        }
    }
}

impl Default for DSPError {
    /// The too-few-targets error.
    fn default() -> (r: Self)
        ensures
            r == DSPError::TOO_FEW_TARGETS,
    {
        DSPError::TOO_FEW_TARGETS
    }
}

/// The DSP status field of a system-status payload: either the number of
/// iterations the position computation took, or a DSP error.
#[derive(Clone, Copy, Debug, PartialEq, Eq, Structural)]
pub enum DSPStatus {
    Error(DSPError),
    Iterations(i8),
}

/// The wire byte of a DSP status field: a non-negative iteration count is
/// sent as itself, an error as the two's-complement byte of its code.
pub open spec fn dsp_status_byte(d: Result<i8, DSPError>) -> u8 {
    match d {
        Ok(x) => x as u8,
        Err(e) => dsp_error_code(e) as u8,
    }
}

/// Whether a byte decodes to a DSP status: as a signed value it must be a
/// non-negative iteration count or a defined error code.
pub open spec fn is_dsp_status_byte(b: u8) -> bool {
    (b as i8) >= 0 || is_dsp_error_code(b as i8)
}

/// The DSP status held by a wire byte; meaningful only when
/// `is_dsp_status_byte` holds of it.
pub open spec fn spec_dsp_status_of(b: u8) -> Result<i8, DSPError> {
    if (b as i8) >= 0 {
        Ok(b as i8)
    } else {
        Err(spec_dsp_error_of(b as i8))
    }
}

/// Encodes a DSP status field into its wire byte.
pub fn dsp_status_to_byte(d: Result<i8, DSPError>) -> (r: u8)
    ensures
        r == dsp_status_byte(d),
{
    match d {
        Ok(x) => x as u8,
        Err(e) => e.to_code() as u8,
    }
}

/// Decodes the DSP status byte: a non-negative signed value is an iteration
/// count, a negative one must be a defined DSP error code.
pub fn dsp_status_from_byte(b: u8) -> (r: Result<Result<i8, DSPError>, DeserialiseError>)
    ensures
        r is Ok <==> is_dsp_status_byte(b),
        r matches Ok(d) ==> d == spec_dsp_status_of(b) && dsp_status_byte(d) == b,
        r matches Err(e) ==> e == (DeserialiseError::InvalidEnumValue {
            field: FieldKind::DspStatus,
            byte: b,
        }),
{
    let code = b as i8;
    if code >= 0 {
        proof {
            assert(code as u8 == b) by (bit_vector)
                requires
                    code == b as i8,
            ;
        }
        Ok(Ok(code))
    } else {
        match DSPError::from_code(code) {
            Ok(e) => {
                proof {
                    assert(code as u8 == b) by (bit_vector)
                        requires
                            code == b as i8,
                    ;
                }
                Ok(Err(e))
            },
            Err(err) => {
                proof {
                    assert(code as u8 == b) by (bit_vector)
                        requires
                            code == b as i8,
                    ;
                }
                Err(err)
            },
        }
    }
}

/// A well-formed DSP status (no negative iteration count) survives the trip
/// through its wire byte.
pub proof fn lemma_dsp_status_roundtrip(d: Result<i8, DSPError>)
    requires
        d matches Ok(x) ==> x >= 0,
    ensures
        is_dsp_status_byte(dsp_status_byte(d)),
        spec_dsp_status_of(dsp_status_byte(d)) == d,
{
    match d {
        Ok(x) => {
            assert((x as u8) as i8 == x && (x as u8) as i8 >= 0) by (bit_vector)
                requires
                    x >= 0,
            ;
        },
        Err(e) => {
            let c = dsp_error_code(e);
            assert((c as u8) as i8 == c) by (bit_vector)
                requires
                    -4 <= c <= -1,
            ;
        },
    }
}

/// Diagnostic modes of the tracking unit.
#[allow(non_camel_case_types)]
#[derive(Clone, Copy, Debug, PartialEq, Eq, Structural)]
pub enum DiagnosticModes {
    NORMAL_OPERATION,
    VIDEO_DATA_0x55,
    VIDEO_DATA_0xAA,
    VIDEO_DATA_TEST,
}

/// The wire code of each diagnostic mode.
pub open spec fn diagnostic_mode_code(m: DiagnosticModes) -> u8 {
    match m {
        DiagnosticModes::NORMAL_OPERATION => 0x00,
        DiagnosticModes::VIDEO_DATA_0x55 => 0x40,
        DiagnosticModes::VIDEO_DATA_0xAA => 0x80,
        DiagnosticModes::VIDEO_DATA_TEST => 0xC0,
    }
}

/// Whether a byte names a defined diagnostic mode.
pub open spec fn is_diagnostic_mode_code(b: u8) -> bool {
    b == 0x00 || b == 0x40 || b == 0x80 || b == 0xC0
}

/// The diagnostic mode named by a byte; meaningful only when
/// `is_diagnostic_mode_code` holds of it.
pub open spec fn spec_diagnostic_mode_of(b: u8) -> DiagnosticModes {
    if b == 0x00 {
        DiagnosticModes::NORMAL_OPERATION
    } else if b == 0x40 {
        DiagnosticModes::VIDEO_DATA_0x55
    } else if b == 0x80 {
        DiagnosticModes::VIDEO_DATA_0xAA
    } else {
        DiagnosticModes::VIDEO_DATA_TEST
    }
}

impl DiagnosticModes {
    /// The one-byte wire code of this mode.
    pub fn to_byte(self) -> (r: u8)
        ensures
            r == diagnostic_mode_code(self),
    {
        match self {
            DiagnosticModes::NORMAL_OPERATION => 0x00,
            DiagnosticModes::VIDEO_DATA_0x55 => 0x40,
            DiagnosticModes::VIDEO_DATA_0xAA => 0x80,
            DiagnosticModes::VIDEO_DATA_TEST => 0xC0,
        }
    }

    /// Resolves a wire byte to a diagnostic mode, failing with
    /// `InvalidEnumValue` on any byte that names none.
    pub fn from_byte(b: u8) -> (r: Result<DiagnosticModes, DeserialiseError>)
        ensures
            r is Ok <==> is_diagnostic_mode_code(b),
            r matches Ok(m) ==> m == spec_diagnostic_mode_of(b) && diagnostic_mode_code(m) == b,
            r matches Err(e) ==> e == (DeserialiseError::InvalidEnumValue {
                field: FieldKind::DiagnosticMode,
                byte: b,
            }),
    {
        if b == 0x00 {
            Ok(DiagnosticModes::NORMAL_OPERATION)
        } else if b == 0x40 {
            Ok(DiagnosticModes::VIDEO_DATA_0x55)
        } else if b == 0x80 {
            Ok(DiagnosticModes::VIDEO_DATA_0xAA)
        } else if b == 0xC0 {
            Ok(DiagnosticModes::VIDEO_DATA_TEST)
        } else {
            Err(DeserialiseError::InvalidEnumValue { field: FieldKind::DiagnosticMode, byte: b })
        }
    }
}

impl Default for DiagnosticModes {
    /// The normal operating mode.
    fn default() -> (r: Self)
        ensures
            r == DiagnosticModes::NORMAL_OPERATION,
    {
        DiagnosticModes::NORMAL_OPERATION
    }
}

} // verus!
