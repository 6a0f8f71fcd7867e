//! Recognising the three volume keys among raw keyboard events.

use vstd::prelude::*;

verus! {

/// Virtual-key code of the mute key.
pub const VK_VOLUME_MUTE: u32 = 0xAD;

/// Virtual-key code of the volume-down key.
pub const VK_VOLUME_DOWN: u32 = 0xAE;

/// Virtual-key code of the volume-up key.
pub const VK_VOLUME_UP: u32 = 0xAF;

/// Message identifier of a key-down transition.
pub const WM_KEYDOWN: usize = 0x0100;

/// The logical keys that the controller reacts to.
#[derive(Clone, Copy, Debug, PartialEq, Eq, Structural)]
pub enum VolumeKey {
    Up,
    Down,
    Mute,
}

/// The key that a raw event stands for, if it is one for the controller: the
/// hook code is not negative, the message is a key-down, and the virtual-key
/// code is one of the three volume keys.
pub open spec fn volume_key_of(code: i32, message: usize, vk_code: u32) -> Option<VolumeKey> {
    if code < 0 || message != WM_KEYDOWN {
        None
    } else if vk_code == VK_VOLUME_UP {
        Some(VolumeKey::Up)
    } else if vk_code == VK_VOLUME_DOWN {
        Some(VolumeKey::Down)
    } else if vk_code == VK_VOLUME_MUTE {
        Some(VolumeKey::Mute)
    } else {
        None
    }
}

/// Decides what a low-level keyboard event means. `Some` says that the event
/// is to be handled and kept from the rest of the system; `None` says that it
/// is to be passed on untouched.
pub fn keyboard_hook_proc(code: i32, message: usize, vk_code: u32) -> (key: Option<VolumeKey>)
    ensures
        key == volume_key_of(code, message, vk_code),
{
    if code >= 0 && message == WM_KEYDOWN {
        if vk_code == VK_VOLUME_UP {
            Some(VolumeKey::Up)
        } else if vk_code == VK_VOLUME_DOWN {
            Some(VolumeKey::Down)
        } else if vk_code == VK_VOLUME_MUTE {
            Some(VolumeKey::Mute)
        } else {
            None
        }
    } else {
        None
    }
}

} // verus!
