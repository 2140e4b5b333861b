//! The command registry: the fixed one-byte command codes of the protocol.

use vstd::prelude::*;

use crate::error::DeserialiseError;

verus! {

/// Command bytes that may be used to tag payloads or signal the tracking unit.
///
/// The control commands occupy 0x00 to 0x03 and the data commands 0xD1 to
/// 0xDB; every other byte is rejected by `from_byte`.
#[allow(non_camel_case_types)]
#[derive(Clone, Copy, Debug, PartialEq, Eq, Structural)]
pub enum Commands {
    STREAM_MODE_STOP,
    STREAM_MODE_START,
    FREEZE_MODE_STOP,
    FREEZE_MODE_START,
    POSITION_POLL,
    SYSTEM_STATUS,
    SYSTEM_PARAMS,
    FIRST_TARGET,
    NEXT_TARGET,
    FIRST_IMAGE,
    NEXT_IMAGE,
    EEPROM_DATA,
    REQUEST_EEPROM,
    CAMERA_CALIBRATION,
    DIAGNOSTIC_MODE,
}

/// The wire byte of each command.
pub open spec fn command_byte(c: Commands) -> u8 {
    match c {
        Commands::STREAM_MODE_STOP => 0x00,
        Commands::STREAM_MODE_START => 0x01,
        Commands::FREEZE_MODE_STOP => 0x02,
        Commands::FREEZE_MODE_START => 0x03,
        Commands::POSITION_POLL => 0xD1,
        Commands::SYSTEM_STATUS => 0xD2,
        Commands::SYSTEM_PARAMS => 0xD3,
        Commands::FIRST_TARGET => 0xD4,
        Commands::NEXT_TARGET => 0xD5,
        Commands::FIRST_IMAGE => 0xD6,
        Commands::NEXT_IMAGE => 0xD7,
        Commands::EEPROM_DATA => 0xD8,
        Commands::REQUEST_EEPROM => 0xD9,
        Commands::CAMERA_CALIBRATION => 0xDA,
        Commands::DIAGNOSTIC_MODE => 0xDB,
    }
}

/// Whether a wire byte names a defined command.
pub open spec fn is_command_byte(b: u8) -> bool {
    b <= 0x03 || (0xD1 <= b && b <= 0xDB)
}

/// The command named by a wire byte; meaningful only when `is_command_byte`
/// holds of the byte.
pub open spec fn spec_command_of_byte(b: u8) -> Commands {
    if b == 0x00 {
        Commands::STREAM_MODE_STOP
    } else if b == 0x01 {
        Commands::STREAM_MODE_START
    } else if b == 0x02 {
        Commands::FREEZE_MODE_STOP
    } else if b == 0x03 {
        Commands::FREEZE_MODE_START
    } else if b == 0xD1 {
        Commands::POSITION_POLL
    } else if b == 0xD2 {
        Commands::SYSTEM_STATUS
    } else if b == 0xD3 {
        Commands::SYSTEM_PARAMS
    } else if b == 0xD4 {
        Commands::FIRST_TARGET
    } else if b == 0xD5 {
        Commands::NEXT_TARGET
    } else if b == 0xD6 {
        Commands::FIRST_IMAGE
    } else if b == 0xD7 {
        Commands::NEXT_IMAGE
    } else if b == 0xD8 {
        Commands::EEPROM_DATA
    } else if b == 0xD9 {
        Commands::REQUEST_EEPROM
    } else if b == 0xDA {
        Commands::CAMERA_CALIBRATION
    } else {
        Commands::DIAGNOSTIC_MODE
    }
}

impl Commands {
    /// The one-byte wire code of this command; total and lossless.
    pub fn to_byte(self) -> (r: u8)
        ensures
            r == command_byte(self),
    {
        match self {
            Commands::STREAM_MODE_STOP => 0x00,
            Commands::STREAM_MODE_START => 0x01,
            Commands::FREEZE_MODE_STOP => 0x02,
            Commands::FREEZE_MODE_START => 0x03,
            Commands::POSITION_POLL => 0xD1,
            Commands::SYSTEM_STATUS => 0xD2,
            Commands::SYSTEM_PARAMS => 0xD3,
            Commands::FIRST_TARGET => 0xD4,
            Commands::NEXT_TARGET => 0xD5,
            Commands::FIRST_IMAGE => 0xD6,
            Commands::NEXT_IMAGE => 0xD7,
            Commands::EEPROM_DATA => 0xD8,
            Commands::REQUEST_EEPROM => 0xD9,
            Commands::CAMERA_CALIBRATION => 0xDA,
            Commands::DIAGNOSTIC_MODE => 0xDB,
        }
    }

    /// Looks a wire byte up in the command registry: every defined code maps
    /// to its command, and any other byte is an `UnknownCommand` error.
    pub fn from_byte(b: u8) -> (r: Result<Commands, DeserialiseError>)
        ensures
            r is Ok <==> is_command_byte(b),
            r matches Ok(c) ==> c == spec_command_of_byte(b) && command_byte(c) == b,
            r matches Err(e) ==> !is_command_byte(b) && e == (DeserialiseError::UnknownCommand {
                byte: b,
            }),
    {
        if b == 0x00 {
            Ok(Commands::STREAM_MODE_STOP)
        } else if b == 0x01 {
            Ok(Commands::STREAM_MODE_START)
        } else if b == 0x02 {
            Ok(Commands::FREEZE_MODE_STOP)
        } else if b == 0x03 {
            Ok(Commands::FREEZE_MODE_START)
        } else if b == 0xD1 {
            Ok(Commands::POSITION_POLL)
        } else if b == 0xD2 {
            Ok(Commands::SYSTEM_STATUS)
        } else if b == 0xD3 {
            Ok(Commands::SYSTEM_PARAMS)
        } else if b == 0xD4 {
            Ok(Commands::FIRST_TARGET)
        } else if b == 0xD5 {
            Ok(Commands::NEXT_TARGET)
        } else if b == 0xD6 {
            Ok(Commands::FIRST_IMAGE)
        } else if b == 0xD7 {
            Ok(Commands::NEXT_IMAGE)
        } else if b == 0xD8 {
            Ok(Commands::EEPROM_DATA)
        } else if b == 0xD9 {
            Ok(Commands::REQUEST_EEPROM)
        } else if b == 0xDA {
            Ok(Commands::CAMERA_CALIBRATION)
        } else if b == 0xDB {
            Ok(Commands::DIAGNOSTIC_MODE)
        } else {
            Err(DeserialiseError::UnknownCommand { byte: b })
        }
    }
}

/// No two commands share a wire byte, and every defined byte resolves back to
/// the command it encodes.
pub proof fn lemma_command_bytes_unique(c1: Commands, c2: Commands)
    ensures
        command_byte(c1) == command_byte(c2) ==> c1 == c2,
        spec_command_of_byte(command_byte(c1)) == c1,
        is_command_byte(command_byte(c1)),
{
}

} // verus!
