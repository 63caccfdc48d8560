//! Key states sampled once per tick.
use vstd::prelude::*;

verus! {

/// What a key has done since the previous sample.
#[derive(Clone, Copy, Debug, PartialEq, Eq, Structural)]
pub enum KeyState {
    /// Down now, up at the previous sample.
    Pressed,
    /// Down now and at the previous sample.
    Holding,
    /// Up now.
    Released,
}

/// The key state after one more sample, given whether the key is down now.
pub open spec fn next_key_state(prev: KeyState, down: bool) -> KeyState {
    if !down {
        KeyState::Released
    } else {
        match prev {
            KeyState::Released => KeyState::Pressed,
            _ => KeyState::Holding,
        }
    }
}

impl KeyState {
    /// Is the key down now (pressed or held)?
    pub open spec fn spec_is_down(self) -> bool {
        self is Pressed || self is Holding
    }

    /// Advances the state by one sample in which the key is `down` or not.
    pub fn update(&mut self, down: bool)
        ensures
            *final(self) == next_key_state(*old(self), down),
    {
        if !down {
            *self = KeyState::Released;
        }
        match *self {
            KeyState::Pressed => {
                if down {
                    *self = KeyState::Holding;
                }
            },
            KeyState::Released => {
                if down {
                    *self = KeyState::Pressed;
                }
            },
            KeyState::Holding => {},
        }
    }

    /// Is the key down now (pressed or held)?
    pub fn is_down(&self) -> (r: bool)
        ensures
            r == self.spec_is_down(),
    {
        matches!(*self, KeyState::Pressed | KeyState::Holding)
    }
}

/// The two keys that drive the controller.
#[derive(Clone, Copy, Debug, PartialEq, Eq, Structural)]
pub struct KeyStates {
    pub space: KeyState,
    pub shift: KeyState,
}

impl KeyStates {
    /// Both keys released.
    pub fn new() -> (r: KeyStates)
        ensures
            r.space == KeyState::Released,
            r.shift == KeyState::Released,
    {
        KeyStates { space: KeyState::Released, shift: KeyState::Released }
    }

    /// Takes one sample of both keys. When the game window is not focused
    /// both keys count as released, whatever the keyboard says.
    pub fn update(&mut self, focused: bool, shift_down: bool, space_down: bool)
        ensures
            final(self).shift == next_key_state(old(self).shift, focused && shift_down),
            final(self).space == next_key_state(old(self).space, focused && space_down),
    {
        if !focused {
            self.shift = KeyState::Released;
            self.space = KeyState::Released;
            return;
        }
        self.shift.update(shift_down);
        self.space.update(space_down);
    }
}

impl Default for KeyState {
    fn default() -> (r: KeyState)
        ensures
            r == KeyState::Released,
    {
        KeyState::Released
    }
}

impl Default for KeyStates {
    fn default() -> (r: KeyStates)
        ensures
            r.space == KeyState::Released,
            r.shift == KeyState::Released,
    {
        KeyStates::new()
    }
}

/// Reads the state word that the keyboard query gives for one key: the key
/// is down exactly when the most significant bit of the 16-bit word is set.
pub fn key_down(raw: i16) -> (r: bool)
    ensures
        r == (raw < 0),
{
    let widened = raw as u32;
    assert((widened & 0x8000u32 != 0) == (raw < 0)) by (bit_vector)
        requires
            widened == raw as u32,
    ;
    widened & 0x8000 != 0
}

/// The game window has the focus when the foreground window exists and
/// belongs to this process.
pub fn is_window_focused(foreground_owner: Option<u32>, current_pid: u32) -> (r: bool)
    ensures
        r == (foreground_owner == Some(current_pid)),
{
    match foreground_owner {
        None => false,
        Some(pid) => pid == current_pid,
    }
}

} // verus!
