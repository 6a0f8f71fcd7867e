//! Decisions of the tray menu: which menu command means what.

use vstd::prelude::*;

verus! {

/// Command identifier of the menu entry that prints a message.
pub const IDM_PRINT: u32 = 1000;

/// Command identifier of the menu entry that quits.
pub const IDM_EXIT: u32 = 1001;

/// What the tray menu asks of the application.
#[derive(Clone, Copy, Debug, PartialEq, Eq, Structural)]
pub enum TrayEvent {
    Print,
    Quit,
}

/// The low-order word of `value`.
pub fn loword(value: u32) -> (low: u32)
    ensures
        low == value & 0xFFFF,
        low == value % 0x1_0000,
{
    assert(value & 0xFFFF == value % 0x1_0000) by (bit_vector);
    value & 0xFFFF
}

/// The event that a menu command stands for. The command identifier is the
/// low-order word of `wparam`; any other command is none of the tray's.
pub fn menu_event(wparam: u32) -> (event: Option<TrayEvent>)
    ensures
        event == if wparam % 0x1_0000 == IDM_PRINT {
            Some(TrayEvent::Print)
        } else if wparam % 0x1_0000 == IDM_EXIT {
            Some(TrayEvent::Quit)
        } else {
            None
        },
{
    let id: u32 = loword(wparam);
    if id == IDM_PRINT {
        Some(TrayEvent::Print)
    } else if id == IDM_EXIT {
        Some(TrayEvent::Quit)
    } else {
        None
    }
}

/// Whether the message loop goes on after `event`: it ends on `Quit`.
pub fn keeps_running(event: TrayEvent) -> (running: bool)
    ensures
        running == (event != TrayEvent::Quit),
{
    match event {
        TrayEvent::Print => true,
        TrayEvent::Quit => false,
    }
}

} // verus!
