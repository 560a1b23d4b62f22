use rs_desmume::input::{add_key, rm_key};
use rs_desmume::mem::{register_path, Processor, Register};
use rs_desmume::{
    engine_result, engine_buffer_size, get_metal_library, init_step, keymask, AudioCore,
    DeSmuME, DeSmuMEError, Desmume3DRenderer, DesmumeAudioCore, DesmumeInitOptions, InitOptions,
    Key, Language, RecordData, Renderer3D, SimpleDate, StartFrom,
};

#[test]
fn keymask_of_keys() {
    assert_eq!(keymask(Key::NoKey), 0);
    assert_eq!(keymask(Key::A), 1);
    assert_eq!(keymask(Key::B), 2);
    assert_eq!(keymask(Key::Select), 4);
    assert_eq!(keymask(Key::Down), 1 << 7);
    assert_eq!(keymask(Key::Lid), 1 << 14);
}

#[test]
fn keypad_add_and_remove() {
    let emu = DeSmuME::init_done(None).unwrap();
    let input = emu.input();
    let pad = input.keypad_add_key(0, keymask(Key::A));
    assert_eq!(pad, 1);
    let pad = input.keypad_add_key(pad, keymask(Key::Start));
    assert_eq!(pad, 0b1001);
    let pad = input.keypad_add_key(pad, keymask(Key::A));
    assert_eq!(pad, 0b1001);
    let pad = input.keypad_rm_key(pad, keymask(Key::A));
    assert_eq!(pad, 0b1000);
    let pad = input.keypad_rm_key(pad, keymask(Key::B));
    assert_eq!(pad, 0b1000);
    assert_eq!(add_key(0xF0F0, 0x0F0F), 0xFFFF);
    assert_eq!(rm_key(0xFFFF, 0x00FF), 0xFF00);
}

#[test]
fn joystick_state() {
    let mut emu = DeSmuME::init_done(None).unwrap();
    let input = emu.input_mut();
    assert_eq!(input.joy_check(), Err(DeSmuMEError::JoystickNotInit));
    assert!(!input.joy_uninit());
    assert_eq!(input.joy_init_done(0), Err(DeSmuMEError::FailedInitJoystick));
    assert_eq!(input.joy_check(), Err(DeSmuMEError::JoystickNotInit));
    assert_eq!(input.joy_init_done(1), Ok(()));
    assert_eq!(input.joy_check(), Ok(()));
    assert!(input.joy_uninit());
    assert_eq!(input.joy_check(), Err(DeSmuMEError::JoystickNotInit));
}

#[test]
fn register_names_and_numbers() {
    assert_eq!(Register::SP.get_name(), "r13");
    assert_eq!(Register::LR.get_name(), "r14");
    assert_eq!(Register::PC.get_name(), "r15");
    assert_eq!(Register::CPSR.get_name(), "cpsr");
    assert_eq!(Processor::Arm7.get_name(), "arm7");
    assert_eq!(register_path(Processor::Arm7, Register::SPSR), "arm7.spsr");
    assert_eq!(register_path(Processor::Arm9, Register::R0), "arm9.r0");
    assert_eq!(Register::try_from(3u32), Ok(Register::R3));
    assert_eq!(Register::try_from(15u32), Ok(Register::R15));
    assert_eq!(Register::try_from(16u32), Err(()));
}

#[test]
fn init_guard() {
    assert_eq!(init_step(true, true), Err(DeSmuMEError::AlreadyInit));
    assert_eq!(init_step(true, false), Err(DeSmuMEError::AlreadyInit));
    assert_eq!(init_step(false, false), Ok(true));
    assert_eq!(init_step(false, true), Ok(false));
    assert!(matches!(DeSmuME::init_done(Some(-1)), Err(DeSmuMEError::FailedInit)));
    assert!(DeSmuME::init_done(Some(0)).is_ok());
}

#[test]
fn window_is_created_once() {
    let mut emu = DeSmuME::init_done(None).unwrap();
    assert!(!emu.has_sdl_window());
    assert!(matches!(emu.create_sdl_window(-1), Err(DeSmuMEError::FailedInitWindow)));
    assert!(!emu.has_sdl_window());
    assert!(emu.create_sdl_window(0).is_ok());
    assert!(emu.has_sdl_window());
    assert!(emu.create_sdl_window(-1).is_ok());
}

#[test]
fn options_as_the_engine_takes_them() {
    let d = InitOptions::default();
    assert_eq!(d.audio_core, AudioCore::Dummy);
    assert_eq!(d.audio_buffer_size, None);
    assert_eq!(d.renderer_3d, Renderer3D::SoftRasterizer);
    assert!(!d.init_sdl_timer);
    assert_eq!(
        d.to_engine(),
        DesmumeInitOptions { audio_core: 0, audio_buffer_size: 0, renderer_3d: 1, init_sdl_timer: 0 }
    );
    let o = InitOptions {
        audio_core: AudioCore::SDL,
        audio_buffer_size: Some(2940),
        renderer_3d: Renderer3D::Metal,
        init_sdl_timer: true,
    };
    assert_eq!(
        o.to_engine(),
        DesmumeInitOptions { audio_core: 2, audio_buffer_size: 2940, renderer_3d: 2000, init_sdl_timer: 1 }
    );
    assert_eq!(engine_buffer_size(Some(u32::MAX)), -1);
    assert_eq!(engine_buffer_size(None), 0);
}

#[test]
fn engine_numbers() {
    assert_eq!(AudioCore::from_code(2), AudioCore::SDL);
    assert_eq!(AudioCore::from_code(0), AudioCore::Dummy);
    assert_eq!(AudioCore::from_code(7), AudioCore::Dummy);
    assert_eq!(Language::Spanish.code(), 5);
    assert_eq!(Language::Japanese.code(), 0);
    assert_eq!(DesmumeAudioCore::SDL.code(), 2);
    assert_eq!(Desmume3DRenderer::Metal.code(), 2000);
    assert_eq!(StartFrom::Savestate.code(), 2);
    assert!(get_metal_library().is_empty());
    assert_eq!(
        engine_result(-1, DeSmuMEError::FailedAudioCoreSwitch),
        Err(DeSmuMEError::FailedAudioCoreSwitch)
    );
    assert_eq!(engine_result(-5, DeSmuMEError::FailedOpen), Err(DeSmuMEError::FailedOpen));
    assert_eq!(engine_result(0, DeSmuMEError::FailedOpen), Ok(()));
    assert_eq!(engine_result(3, DeSmuMEError::FailedSdlInit), Ok(()));
}

#[test]
fn movie_and_savestate_outcomes() {
    let emu = DeSmuME::init_done(None).unwrap();
    assert_eq!(emu.movie().check_active(false), Err(DeSmuMEError::NoMovieActive));
    assert_eq!(emu.movie().check_active(true), Ok(()));
    assert_eq!(emu.movie().play_result(None), Ok(()));
    assert_eq!(emu.movie().play_result(Some(String::new())), Ok(()));
    assert_eq!(
        emu.movie().play_result(Some("bad movie".to_string())),
        Err(DeSmuMEError::MoviePlayError("bad movie".to_string()))
    );
    assert_eq!(emu.savestate().load_result(0), Err(DeSmuMEError::LoadSavestateFailed));
    assert_eq!(emu.savestate().load_result(1), Ok(()));
    assert_eq!(emu.savestate().save_result(-1), Err(DeSmuMEError::SaveSavestateFailed));
}

#[test]
fn error_messages() {
    assert_eq!(DeSmuMEError::AlreadyInit.message(), "The emulator is already instantiated.");
    assert_eq!(DeSmuMEError::NoMovieActive.message(), "No movie is active.");
    assert_eq!(DeSmuMEError::MoviePlayError("oops".to_string()).message(), "oops");
}

#[test]
fn record_data_builders() {
    let date = SimpleDate { year: 2009, month: 3, day: 1, hour: 12, minute: 0, second: 0, millisecond: 0 };
    let r = RecordData::new_from_blank("m.dsm", "me");
    assert_eq!((r.file_name, r.author_name, r.start_from, r.sram_save, r.rtc_date), ("m.dsm", "me", StartFrom::Blank, "", None));
    let r = RecordData::new_from_sram("m.dsm", "me", "s.sav");
    assert_eq!((r.start_from, r.sram_save, r.rtc_date), (StartFrom::SRAM, "s.sav", None));
    let r = RecordData::new_from_savestate("m.dsm", "me");
    assert_eq!((r.start_from, r.sram_save), (StartFrom::Savestate, ""));
    let r = RecordData::new_from_blank_with_date("m.dsm", "me", date);
    assert_eq!((r.start_from, r.rtc_date), (StartFrom::Blank, Some(date)));
    let r = RecordData::new_from_sram_with_date("m.dsm", "me", "s.sav", date);
    assert_eq!((r.start_from, r.sram_save, r.rtc_date), (StartFrom::SRAM, "s.sav", Some(date)));
    let r = RecordData::new_from_savestate_with_date("m.dsm", "me", date);
    assert_eq!((r.file_name, r.start_from, r.rtc_date), ("m.dsm", StartFrom::Savestate, Some(date)));
}
