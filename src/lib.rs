//! Typed, capability-checked access to the memory of a Nintendo DS emulator,
//! and the decisions of its control surface.
use vstd::prelude::*;

mod err;
mod handles;
pub mod input;
pub mod mem;
mod sys;

pub use crate::err::DeSmuMEError;
pub use crate::handles::{DeSmuMEMovie, DeSmuMESavestate, DeSmuMESdlWindow, RecordData, NB_STATES};
pub use crate::input::{keymask, DeSmuMEInput, Joy, JoyHats, Key};
pub use crate::mem::DeSmuMEMemory;
pub use crate::sys::{
    get_metal_library, Desmume3DRenderer, DesmumeAudioCore, DesmumeInitOptions, SimpleDate,
    StartFrom,
};

verus! {

/// Width of one screen, in pixels.
pub const SCREEN_WIDTH: usize = 256;

/// Height of one screen, in pixels.
pub const SCREEN_HEIGHT: usize = 192;

/// Height of both screens together, in pixels.
pub const SCREEN_HEIGHT_BOTH: usize = SCREEN_HEIGHT * 2;

/// Pixels of one screen.
pub const SCREEN_PIXEL_SIZE: usize = SCREEN_WIDTH * SCREEN_HEIGHT;

/// Pixels of both screens.
pub const SCREEN_PIXEL_SIZE_BOTH: usize = SCREEN_WIDTH * SCREEN_HEIGHT_BOTH;

/// Firmware languages.
#[derive(Clone, Copy, Debug, PartialEq, Eq, Structural)]
pub enum Language {
    Japanese,
    English,
    French,
    German,
    Italian,
    Spanish,
}

impl Language {
    /// The engine's number of the language, `0` to `5` in declaration order.
    pub fn code(&self) -> (r: u8)
        ensures
            r == (match self {
                Language::Japanese => 0u8,
                Language::English => 1u8,
                Language::French => 2u8,
                Language::German => 3u8,
                Language::Italian => 4u8,
                Language::Spanish => 5u8,
            }),
    {
        match self {
            Language::Japanese => 0,
            Language::English => 1,
            Language::French => 2,
            Language::German => 3,
            Language::Italian => 4,
            Language::Spanish => 5,
        }
    }
}

/// Audio cores that can be selected at run time.
#[derive(Clone, Copy, Debug, PartialEq, Eq, Structural)]
pub enum AudioCore {
    Dummy,
    SDL,
}

impl AudioCore {
    /// The engine's number of the core.
    pub open spec fn spec_code(self) -> i32 {
        match self {
            AudioCore::Dummy => 0,
            AudioCore::SDL => 2,
        }
    }

    /// The engine's number of the core.
    pub fn code(&self) -> (r: i32)
        ensures
            r == self.spec_code(),
    {
        match self {
            AudioCore::Dummy => 0,
            AudioCore::SDL => 2,
        }
    }

    /// The core the engine reports by number: `2` is SDL, any other number
    /// the dummy core.
    pub fn from_code(code: i32) -> (r: AudioCore)
        ensures
            r == (if code == 2 { AudioCore::SDL } else { AudioCore::Dummy }),
    {
        if code == 2 {
            AudioCore::SDL
        } else {
            AudioCore::Dummy
        }
    }
}

/// 3D renderers.
#[derive(Clone, Copy, Debug, PartialEq, Eq, Structural)]
pub enum Renderer3D {
    Null,
    SoftRasterizer,
    Metal,
}

impl Renderer3D {
    /// The engine's number of the renderer.
    pub open spec fn spec_code(self) -> i32 {
        match self {
            Renderer3D::Null => 0,
            Renderer3D::SoftRasterizer => 1,
            Renderer3D::Metal => 2000,
        }
    }

    /// The engine's number of the renderer.
    pub fn code(&self) -> (r: i32)
        ensures
            r == self.spec_code(),
    {
        match self {
            Renderer3D::Null => 0,
            Renderer3D::SoftRasterizer => 1,
            Renderer3D::Metal => 2000,
        }
    }
}

/// Options for starting the emulator.
#[derive(Clone, Copy, Debug, PartialEq, Eq, Structural)]
pub struct InitOptions {
    pub audio_core: AudioCore,
    pub audio_buffer_size: Option<u32>,
    pub renderer_3d: Renderer3D,
    pub init_sdl_timer: bool,
}

impl Default for InitOptions {
    /// The dummy audio core with the engine's buffer size, the software
    /// rasterizer, and no timer.
    fn default() -> (r: InitOptions)
        ensures
            r == (InitOptions {
                audio_core: AudioCore::Dummy,
                audio_buffer_size: None,
                renderer_3d: Renderer3D::SoftRasterizer,
                init_sdl_timer: false,
            }),
    {
        InitOptions {
            audio_core: AudioCore::Dummy,
            audio_buffer_size: None,
            renderer_3d: Renderer3D::SoftRasterizer,
            init_sdl_timer: false,
        }
    }
}

/// The buffer size as the engine takes it: zero asks for its default, and a
/// size beyond the range of `i32` wraps as a C cast does.
pub open spec fn spec_engine_buffer_size(size: Option<u32>) -> i32 {
    match size {
        Some(s) => s as i32,
        None => 0,
    }
}

/// The buffer size as the engine takes it.
pub fn engine_buffer_size(size: Option<u32>) -> (r: i32)
    ensures
        r == spec_engine_buffer_size(size),
{
    match size {
        Some(s) => s as i32,
        None => 0,
    }
}

impl InitOptions {
    /// The options as the engine's initialisation takes them.
    pub fn to_engine(&self) -> (r: DesmumeInitOptions)
        ensures
            r == (DesmumeInitOptions {
                audio_core: self.audio_core.spec_code(),
                audio_buffer_size: spec_engine_buffer_size(self.audio_buffer_size),
                renderer_3d: self.renderer_3d.spec_code(),
                init_sdl_timer: if self.init_sdl_timer { 1i32 } else { 0i32 },
            }),
    {
        DesmumeInitOptions {
            audio_core: self.audio_core.code(),
            audio_buffer_size: engine_buffer_size(self.audio_buffer_size),
            renderer_3d: self.renderer_3d.code(),
            init_sdl_timer: if self.init_sdl_timer { 1 } else { 0 },
        }
    }
}

/// The outcome of an engine operation that reports failure with a negative
/// status (opening a ROM, starting the timer, switching the audio core):
/// `failure` where the status is negative.
pub fn engine_result(status: i32, failure: DeSmuMEError) -> (r: Result<(), DeSmuMEError>)
    ensures
        status >= 0 ==> r is Ok,
        status < 0 ==> r == Err::<(), DeSmuMEError>(failure),
{
    if status < 0 {
        Err(failure)
    } else {
        Ok(())
    }
}

/// Whether starting an emulator must first run the engine's own
/// initialisation: an error while an emulator is live, otherwise `true`
/// exactly when the engine was never initialised in this process.
pub fn init_step(already_initialized: bool, ever_initialized: bool) -> (r: Result<bool, DeSmuMEError>)
    ensures
        already_initialized ==> r == Err::<bool, DeSmuMEError>(DeSmuMEError::AlreadyInit),
        !already_initialized ==> r == Ok::<bool, DeSmuMEError>(!ever_initialized),
{
    if already_initialized {
        Err(DeSmuMEError::AlreadyInit)
    } else {
        Ok(!ever_initialized)
    }
}

/// The emulator: one handle per subsystem, and the window once created.
#[derive(Debug)]
pub struct DeSmuME {
    pub input: DeSmuMEInput,
    pub memory: DeSmuMEMemory,
    pub movie: DeSmuMEMovie,
    pub savestate: DeSmuMESavestate,
    pub window: Option<DeSmuMESdlWindow>,
}

impl DeSmuME {
    /// The emulator, once the engine's initialisation reported `status`
    /// (none where it was not needed): negative means failure.
    pub fn init_done(status: Option<i32>) -> (r: Result<DeSmuME, DeSmuMEError>)
        ensures
            match status {
                Some(s) if s < 0 => (r matches Err(DeSmuMEError::FailedInit)),
                _ => (r matches Ok(emu) && !emu.input.joystick_was_init && emu.window is None),
            },
    {
        match status {
            Some(s) if s < 0 => Err(DeSmuMEError::FailedInit),
            _ => Ok(
                DeSmuME {
                    input: DeSmuMEInput { joystick_was_init: false },
                    memory: DeSmuMEMemory { live: () },
                    movie: DeSmuMEMovie { live: () },
                    savestate: DeSmuMESavestate { live: () },
                    window: None,
                },
            ),
        }
    }

    pub fn input(&self) -> (r: &DeSmuMEInput)
        ensures
            *r == self.input,
    {
        &self.input
    }

    pub fn input_mut(&mut self) -> (r: &mut DeSmuMEInput)
        ensures
            *r == old(self).input,
            final(self).input == *final(r),
            final(self).window == old(self).window,
    {
        &mut self.input
    }

    pub fn memory(&self) -> (r: &DeSmuMEMemory)
        ensures
            *r == self.memory,
    {
        &self.memory
    }

    pub fn memory_mut(&mut self) -> (r: &mut DeSmuMEMemory)
        ensures
            *r == old(self).memory,
            final(self).memory == *final(r),
            final(self).input == old(self).input,
            final(self).window == old(self).window,
    {
        &mut self.memory
    }

    pub fn movie(&self) -> (r: &DeSmuMEMovie)
        ensures
            *r == self.movie,
    {
        &self.movie
    }

    pub fn movie_mut(&mut self) -> (r: &mut DeSmuMEMovie)
        ensures
            *r == old(self).movie,
            final(self).movie == *final(r),
            final(self).input == old(self).input,
            final(self).window == old(self).window,
    {
        &mut self.movie
    }

    pub fn savestate(&self) -> (r: &DeSmuMESavestate)
        ensures
            *r == self.savestate,
    {
        &self.savestate
    }

    pub fn savestate_mut(&mut self) -> (r: &mut DeSmuMESavestate)
        ensures
            *r == old(self).savestate,
            final(self).savestate == *final(r),
            final(self).input == old(self).input,
            final(self).window == old(self).window,
    {
        &mut self.savestate
    }

    /// Whether the window was created.
    pub fn has_sdl_window(&self) -> (r: bool)
        ensures
            r == self.window is Some,
    {
        self.window.is_some()
    }

    /// The window. Where none was created yet, `status` is the outcome of the
    /// engine's window creation (negative means failure) and the window is
    /// kept; where one exists, `status` is not looked at.
    pub fn create_sdl_window(&mut self, status: i32) -> (r: Result<&mut DeSmuMESdlWindow, DeSmuMEError>)
        ensures
            old(self).window is None && status < 0 ==> (r matches Err(DeSmuMEError::FailedInitWindow))
                && final(self).window is None,
            !(old(self).window is None && status < 0) ==> r is Ok && final(self).window is Some,
            final(self).input == old(self).input,
    {
        if self.window.is_none() {
            if status < 0 {
                return Err(DeSmuMEError::FailedInitWindow);
            }
            self.window = Some(DeSmuMESdlWindow { live: () });
        }
        match &mut self.window {
            Some(w) => Ok(w),
            None => Err(DeSmuMEError::FailedInitWindow),
        }
    }
}

} // verus!
