//! Handles of the emulator's movie, savestate and window subsystems.
use vstd::prelude::*;

use crate::err::DeSmuMEError;
use crate::sys::{SimpleDate, StartFrom};

verus! {

/// Record and play movies.
#[derive(Debug)]
pub struct DeSmuMEMovie {
    pub(crate) live: (),
}

/// Load and save savestates, in slots or in files.
#[derive(Debug)]
pub struct DeSmuMESavestate {
    pub(crate) live: (),
}

/// A window that shows the emulator and takes touch and keyboard input.
#[derive(Debug)]
pub struct DeSmuMESdlWindow {
    pub(crate) live: (),
}

/// Maximum number of savestate slots.
pub const NB_STATES: usize = 10;

impl DeSmuMEMovie {
    /// Fails unless a movie is active: the movie queries may reach the engine
    /// only then.
    pub fn check_active(&self, active: bool) -> (r: Result<(), DeSmuMEError>)
        ensures
            active ==> r is Ok,
            !active ==> r == Err::<(), DeSmuMEError>(DeSmuMEError::NoMovieActive),
    {
        if active {
            Ok(())
        } else {
            Err(DeSmuMEError::NoMovieActive)
        }
    }

    /// The outcome of playing a movie, from the engine's message: none or an
    /// empty one means success.
    pub fn play_result(&self, message: Option<String>) -> (r: Result<(), DeSmuMEError>)
        ensures
            match message {
                Some(m) => if m@.len() == 0 {
                    r is Ok
                } else {
                    r == Err::<(), DeSmuMEError>(DeSmuMEError::MoviePlayError(m))
                },
                None => r is Ok,
            },
    {
        match message {
            Some(m) => {
                if m.as_str().unicode_len() == 0 {
                    Ok(())
                } else {
                    Err(DeSmuMEError::MoviePlayError(m))
                }
            },
            None => Ok(()),
        }
    }
}

impl DeSmuMESavestate {
    /// The outcome of loading a savestate file, from the engine's status:
    /// positive means success.
    pub fn load_result(&self, status: i32) -> (r: Result<(), DeSmuMEError>)
        ensures
            status > 0 ==> r is Ok,
            status <= 0 ==> r == Err::<(), DeSmuMEError>(DeSmuMEError::LoadSavestateFailed),
    {
        if status > 0 {
            Ok(())
        } else {
            Err(DeSmuMEError::LoadSavestateFailed)
        }
    }

    /// The outcome of saving a savestate file, from the engine's status:
    /// positive means success.
    pub fn save_result(&self, status: i32) -> (r: Result<(), DeSmuMEError>)
        ensures
            status > 0 ==> r is Ok,
            status <= 0 ==> r == Err::<(), DeSmuMEError>(DeSmuMEError::SaveSavestateFailed),
    {
        if status > 0 {
            Ok(())
        } else {
            Err(DeSmuMEError::SaveSavestateFailed)
        }
    }
}

/// What a movie recording needs.
#[derive(Debug)]
pub struct RecordData<'a> {
    /// The file to save the movie to.
    pub file_name: &'a str,
    /// The movie's author.
    pub author_name: &'a str,
    /// Where the recording starts from.
    pub start_from: StartFrom,
    /// The SRAM save to start from, when starting from SRAM.
    pub sram_save: &'a str,
    /// The date to set the real-time clock to; none keeps the current one.
    pub rtc_date: Option<SimpleDate>,
}

impl<'a> RecordData<'a> {
    /// Start from reset.
    pub fn new_from_blank(file_name: &'a str, author_name: &'a str) -> (r: RecordData<'a>)
        ensures
            r.file_name == file_name,
            r.author_name == author_name,
            r.start_from == StartFrom::Blank,
            r.sram_save@ == ""@,
            r.rtc_date is None,
    {
        RecordData {
            file_name,
            author_name,
            start_from: StartFrom::Blank,
            sram_save: "",
            rtc_date: None,
        }
    }

    /// Start from the given SRAM save.
    pub fn new_from_sram(file_name: &'a str, author_name: &'a str, sram_save_name: &'a str) -> (r: RecordData<'a>)
        ensures
            r.file_name == file_name,
            r.author_name == author_name,
            r.start_from == StartFrom::SRAM,
            r.sram_save == sram_save_name,
            r.rtc_date is None,
    {
        RecordData {
            file_name,
            author_name,
            start_from: StartFrom::SRAM,
            sram_save: sram_save_name,
            rtc_date: None,
        }
    }

    /// Start from the first savestate.
    pub fn new_from_savestate(file_name: &'a str, author_name: &'a str) -> (r: RecordData<'a>)
        ensures
            r.file_name == file_name,
            r.author_name == author_name,
            r.start_from == StartFrom::Savestate,
            r.sram_save@ == ""@,
            r.rtc_date is None,
    {
        RecordData {
            file_name,
            author_name,
            start_from: StartFrom::Savestate,
            sram_save: "",
            rtc_date: None,
        }
    }

    /// Start from reset, with the real-time clock set to `rtc_date`.
    pub fn new_from_blank_with_date(file_name: &'a str, author_name: &'a str, rtc_date: SimpleDate) -> (r: RecordData<'a>)
        ensures
            r.file_name == file_name,
            r.author_name == author_name,
            r.start_from == StartFrom::Blank,
            r.sram_save@ == ""@,
            r.rtc_date == Some(rtc_date),
    {
        RecordData {
            file_name,
            author_name,
            start_from: StartFrom::Blank,
            sram_save: "",
            rtc_date: Some(rtc_date),
        }
    }

    /// Start from the given SRAM save, with the real-time clock set to `rtc_date`.
    pub fn new_from_sram_with_date(file_name: &'a str, author_name: &'a str, sram_save_name: &'a str, rtc_date: SimpleDate) -> (r: RecordData<'a>)
        ensures
            r.file_name == file_name,
            r.author_name == author_name,
            r.start_from == StartFrom::SRAM,
            r.sram_save == sram_save_name,
            r.rtc_date == Some(rtc_date),
    {
        RecordData {
            file_name,
            author_name,
            start_from: StartFrom::SRAM,
            sram_save: sram_save_name,
            rtc_date: Some(rtc_date),
        }
    }

    /// Start from the first savestate, with the real-time clock set to `rtc_date`.
    pub fn new_from_savestate_with_date(file_name: &'a str, author_name: &'a str, rtc_date: SimpleDate) -> (r: RecordData<'a>)
        ensures
            r.file_name == file_name,
            r.author_name == author_name,
            r.start_from == StartFrom::Savestate,
            r.sram_save@ == ""@,
            r.rtc_date == Some(rtc_date),
    {
        RecordData {
            file_name,
            author_name,
            start_from: StartFrom::Savestate,
            sram_save: "",
            rtc_date: Some(rtc_date),
        }
    }
}

} // verus!
