//! Values as the engine's C interface takes them.
use vstd::prelude::*;

verus! {

/// Audio cores, as the engine numbers them.
#[derive(Clone, Copy, Debug, PartialEq, Eq, Structural)]
pub enum DesmumeAudioCore {
    Dummy,
    SDL,
}

/// 3D renderers, as the engine numbers them.
#[derive(Clone, Copy, Debug, PartialEq, Eq, Structural)]
pub enum Desmume3DRenderer {
    Null,
    SoftRasterizer,
    Metal,
}

/// Where a movie recording starts from.
#[derive(Clone, Copy, Debug, PartialEq, Eq, Structural)]
pub enum StartFrom {
    Blank,
    SRAM,
    Savestate,
}

impl DesmumeAudioCore {
    /// The engine's number of the audio core.
    pub fn code(&self) -> (r: i32)
        ensures
            r == (match self {
                DesmumeAudioCore::Dummy => 0i32,
                DesmumeAudioCore::SDL => 2i32,
            }),
    {
        match self {
            DesmumeAudioCore::Dummy => 0,
            DesmumeAudioCore::SDL => 2,
        }
    }
}

impl Desmume3DRenderer {
    /// The engine's number of the renderer.
    pub fn code(&self) -> (r: i32)
        ensures
            r == (match self {
                Desmume3DRenderer::Null => 0i32,
                Desmume3DRenderer::SoftRasterizer => 1i32,
                Desmume3DRenderer::Metal => 2000i32,
            }),
    {
        match self {
            Desmume3DRenderer::Null => 0,
            Desmume3DRenderer::SoftRasterizer => 1,
            Desmume3DRenderer::Metal => 2000,
        }
    }
}

impl StartFrom {
    /// The engine's number of the starting point.
    pub fn code(&self) -> (r: u32)
        ensures
            r == (match self {
                StartFrom::Blank => 0u32,
                StartFrom::SRAM => 1u32,
                StartFrom::Savestate => 2u32,
            }),
    {
        match self {
            StartFrom::Blank => 0,
            StartFrom::SRAM => 1,
            StartFrom::Savestate => 2,
        }
    }
}

/// Start-up options as the engine's initialisation takes them.
#[derive(Clone, Copy, Debug, PartialEq, Eq, Structural)]
pub struct DesmumeInitOptions {
    pub audio_core: i32,
    pub audio_buffer_size: i32,
    pub renderer_3d: i32,
    pub init_sdl_timer: i32,
}

/// A calendar date and time of day, as the engine's real-time clock takes it.
#[derive(Clone, Copy, Debug, PartialEq, Eq, Structural)]
pub struct SimpleDate {
    pub year: i32,
    pub month: i32,
    pub day: i32,
    pub hour: i32,
    pub minute: i32,
    pub second: i32,
    pub millisecond: i32,
}

/// The embedded Metal shader library; none is embedded on this platform.
pub fn get_metal_library() -> (r: &'static [u8])
    ensures
        r@.len() == 0,
{
    &[]
}

} // verus!
