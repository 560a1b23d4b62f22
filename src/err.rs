//! Errors of the emulator's API.
use vstd::prelude::*;

verus! {

/// The ways an emulator operation can fail.
#[derive(Debug, PartialEq, Eq)]
#[non_exhaustive]
pub enum DeSmuMEError {
    /// The emulator is already instantiated.
    AlreadyInit,
    /// The engine failed to initialise.
    FailedInit,
    /// The engine failed to open the ROM file.
    FailedOpen,
    /// The engine failed to create its window.
    FailedInitWindow,
    /// The engine failed to load a savestate.
    LoadSavestateFailed,
    /// The engine failed to save a savestate.
    SaveSavestateFailed,
    /// The engine refused to play a movie, with its message.
    MoviePlayError(String),
    /// No movie is active.
    NoMovieActive,
    /// Joystick input processing is not initialised.
    JoystickNotInit,
    /// The engine failed to initialise joystick input processing.
    FailedInitJoystick,
    /// A string handed to the engine holds a NUL byte.
    NulError,
    /// The engine failed to initialise its timer.
    FailedSdlInit,
    /// The engine failed to switch the audio core.
    FailedAudioCoreSwitch,
    /// The engine failed to start the Metal renderer.
    FailedMetalInit,
}

impl DeSmuMEError {
    /// The description of the error; the engine's own message for a movie
    /// that failed to play.
    pub open spec fn spec_message(&self) -> Seq<char> {
        match self {
            DeSmuMEError::AlreadyInit => "The emulator is already instantiated."@,
            DeSmuMEError::FailedInit => "Failed to initialize the emulator."@,
            DeSmuMEError::FailedOpen => "Failed to open the ROM file."@,
            DeSmuMEError::FailedInitWindow => "Failed to initialize the SDL window."@,
            DeSmuMEError::LoadSavestateFailed => "Failed to load savestate."@,
            DeSmuMEError::SaveSavestateFailed => "Failed to save savestate."@,
            DeSmuMEError::NoMovieActive => "No movie is active."@,
            DeSmuMEError::JoystickNotInit => "Joystick not initialized."@,
            DeSmuMEError::FailedInitJoystick => "Failed to initialize the joystick controls."@,
            DeSmuMEError::NulError => "Null error while trying to convert string."@,
            DeSmuMEError::FailedSdlInit => "Failed to initialize the SDL timer."@,
            DeSmuMEError::FailedAudioCoreSwitch => "Failed to switch the audio core."@,
            DeSmuMEError::FailedMetalInit => "Failed to initialize the Metal renderer."@,
            DeSmuMEError::MoviePlayError(m) => m@,
        }
    }

    /// The description of the error.
    pub fn message(&self) -> (r: String)
        ensures
            r@ == self.spec_message(),
    {
        match self {
            DeSmuMEError::AlreadyInit => String::from_str("The emulator is already instantiated."),
            DeSmuMEError::FailedInit => String::from_str("Failed to initialize the emulator."),
            DeSmuMEError::FailedOpen => String::from_str("Failed to open the ROM file."),
            DeSmuMEError::FailedInitWindow => String::from_str("Failed to initialize the SDL window."),
            DeSmuMEError::LoadSavestateFailed => String::from_str("Failed to load savestate."),
            DeSmuMEError::SaveSavestateFailed => String::from_str("Failed to save savestate."),
            DeSmuMEError::NoMovieActive => String::from_str("No movie is active."),
            DeSmuMEError::JoystickNotInit => String::from_str("Joystick not initialized."),
            DeSmuMEError::FailedInitJoystick => String::from_str("Failed to initialize the joystick controls."),
            DeSmuMEError::NulError => String::from_str("Null error while trying to convert string."),
            DeSmuMEError::FailedSdlInit => String::from_str("Failed to initialize the SDL timer."),
            DeSmuMEError::FailedAudioCoreSwitch => String::from_str("Failed to switch the audio core."),
            DeSmuMEError::FailedMetalInit => String::from_str("Failed to initialize the Metal renderer."),
            DeSmuMEError::MoviePlayError(m) => m.clone(),
        }
    }
}

} // verus!
