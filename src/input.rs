//! Keypad masks, and the state of joystick input processing.
use vstd::arithmetic::power2::{lemma2_to64, pow2};
use vstd::bits::lemma_u16_shl_is_mul;
use vstd::prelude::*;

use crate::err::DeSmuMEError;

verus! {

/// The total number of keys.
pub const NB_KEYS: u8 = 15;

/// The engine's value for "no joystick key assigned".
pub const NO_KEY_SET: u16 = 0xFFFF;

/// Joystick input types.
#[derive(Clone, Copy, Debug, PartialEq, Eq, Structural)]
pub enum Joy {
    Axis,
    Hat,
    Button,
}

/// Joystick hat identifiers.
#[derive(Clone, Copy, Debug, PartialEq, Eq, Structural)]
pub enum JoyHats {
    Right,
    Left,
    Up,
    Down,
}

/// Key identifiers of the console, numbered `0` (`NoKey`) to `15`.
#[derive(Clone, Copy, Debug, PartialEq, Eq, Structural)]
pub enum Key {
    NoKey,
    A,
    B,
    Select,
    Start,
    Right,
    Left,
    Up,
    Down,
    R,
    L,
    X,
    Y,
    Debug,
    Boost,
    Lid,
}

impl Key {
    /// The key's number.
    pub open spec fn spec_number(self) -> u16 {
        match self {
            Key::NoKey => 0,
            Key::A => 1,
            Key::B => 2,
            Key::Select => 3,
            Key::Start => 4,
            Key::Right => 5,
            Key::Left => 6,
            Key::Up => 7,
            Key::Down => 8,
            Key::R => 9,
            Key::L => 10,
            Key::X => 11,
            Key::Y => 12,
            Key::Debug => 13,
            Key::Boost => 14,
            Key::Lid => 15,
        }
    }

    /// The key's number.
    pub fn number(&self) -> (r: u16)
        ensures
            r == self.spec_number(),
            r <= NB_KEYS,
    {
        match self {
            Key::NoKey => 0,
            Key::A => 1,
            Key::B => 2,
            Key::Select => 3,
            Key::Start => 4,
            Key::Right => 5,
            Key::Left => 6,
            Key::Up => 7,
            Key::Down => 8,
            Key::R => 9,
            Key::L => 10,
            Key::X => 11,
            Key::Y => 12,
            Key::Debug => 13,
            Key::Boost => 14,
            Key::Lid => 15,
        }
    }
}

/// The keypad bit of a key: bit `n - 1`, that is `2^(n-1)`, for key number
/// `n`; no bit for `Key::NoKey`.
pub open spec fn spec_keymask(k: Key) -> int {
    if k.spec_number() == 0 {
        0
    } else {
        pow2((k.spec_number() - 1) as nat) as int
    }
}

/// Returns the keypad mask of key `k`.
pub fn keymask(k: Key) -> (r: u16)
    ensures
        r as int == spec_keymask(k),
{
    let n = k.number();
    if n == 0 {
        0
    } else {
        proof {
            lemma2_to64();
            lemma_u16_shl_is_mul(1, (n - 1) as u16);
        }
        1u16 << (n - 1)
    }
}

/// The keypad with the keys of `keymask` pressed.
pub fn add_key(keypad: u16, keymask: u16) -> (r: u16)
    ensures
        r == keypad | keymask,
        r & keymask == keymask,
        r & !keymask == keypad & !keymask,
{
    assert((keypad | keymask) & keymask == keymask) by (bit_vector);
    assert((keypad | keymask) & !keymask == keypad & !keymask) by (bit_vector);
    keypad | keymask
}

/// The keypad with the keys of `keymask` released.
pub fn rm_key(keypad: u16, keymask: u16) -> (r: u16)
    ensures
        r == keypad & !keymask,
        r & keymask == 0,
        r & !keymask == keypad & !keymask,
{
    assert((keypad & !keymask) & keymask == 0) by (bit_vector);
    assert((keypad & !keymask) & !keymask == keypad & !keymask) by (bit_vector);
    keypad & !keymask
}

/// Input processing of the emulator: the keypad, and whether joystick input
/// processing was initialised.
#[derive(Debug)]
pub struct DeSmuMEInput {
    pub joystick_was_init: bool,
}

impl DeSmuMEInput {
    /// The keypad after pressing the keys of `keymask` on `keypad`, the
    /// engine's current keypad.
    pub fn keypad_add_key(&self, keypad: u16, keymask: u16) -> (r: u16)
        ensures
            r == keypad | keymask,
    {
        add_key(keypad, keymask)
    }

    /// The keypad after releasing the keys of `keymask` on `keypad`, the
    /// engine's current keypad.
    pub fn keypad_rm_key(&self, keypad: u16, keymask: u16) -> (r: u16)
        ensures
            r == keypad & !keymask,
    {
        rm_key(keypad, keymask)
    }

    /// Records the outcome of the engine's joystick initialisation, which
    /// reports success with a positive status.
    pub fn joy_init_done(&mut self, status: i32) -> (r: Result<(), DeSmuMEError>)
        ensures
            status > 0 ==> r is Ok && final(self).joystick_was_init,
            status <= 0 ==> r == Err::<(), DeSmuMEError>(DeSmuMEError::FailedInitJoystick)
                && final(self).joystick_was_init == old(self).joystick_was_init,
    {
        if status > 0 {
            self.joystick_was_init = true;
            Ok(())
        } else {
            Err(DeSmuMEError::FailedInitJoystick)
        }
    }

    /// Marks joystick processing as shut down; returns whether it was running,
    /// that is whether the engine must be told to shut it down.
    pub fn joy_uninit(&mut self) -> (r: bool)
        ensures
            r == old(self).joystick_was_init,
            !final(self).joystick_was_init,
    {
        let was = self.joystick_was_init;
        self.joystick_was_init = false;
        was
    }

    /// Fails unless joystick processing was initialised: the joystick
    /// operations may reach the engine only then.
    pub fn joy_check(&self) -> (r: Result<(), DeSmuMEError>)
        ensures
            self.joystick_was_init ==> r is Ok,
            !self.joystick_was_init ==> r == Err::<(), DeSmuMEError>(DeSmuMEError::JoystickNotInit),
    {
        if self.joystick_was_init {
            Ok(())
        } else {
            Err(DeSmuMEError::JoystickNotInit)
        }
    }
}

} // verus!
