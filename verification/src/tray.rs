//! The tray icon: its constants, the errors that end it, which window
//! messages do what, and the show/hide toggle of the target window. Its life
//! cycle is in [`crate::lifecycle`].
use vstd::prelude::*;

verus! {

/// `WM_DESTROY`.
pub const WM_DESTROY: u32 = 2;

/// `WM_COMMAND`.
pub const WM_COMMAND: u32 = 273;

/// `WM_LBUTTONDBLCLK`.
pub const WM_LBUTTONDBLCLK: u32 = 515;

/// `WM_RBUTTONUP`.
pub const WM_RBUTTONUP: u32 = 517;

/// `WM_HOTKEY`.
pub const WM_HOTKEY: u32 = 786;

/// `WM_APP`, the first message number free for applications.
pub const WM_APP: u32 = 32768;

/// The message with which the tray icon reports mouse events.
pub const WM_TRAY_ICON: u32 = WM_APP + 1;

/// Identifier of the Win + Y hot key.
pub const ID_HOTKEY_TOGGLE: i32 = 1;

/// Command identifier of the "exit" item of the context menu.
pub const ID_MENU_EXIT: usize = 1001;

/// Identifier of the timer that polls the media sessions.
pub const ID_TIMER: usize = 1;

/// Period of that timer, in milliseconds.
pub const TIMER_PERIOD_MS: u32 = 2000;

/// Identifier of the tray icon.
pub const TRAY_ICON_ID: u32 = 1;

/// Why the tray stopped with an error.
#[derive(Debug, Clone, Copy, PartialEq, Eq, Structural)]
pub enum TrayError {
    /// A system call failed with this `HRESULT`.
    Windows(i32),
    /// The tray icon could not be added.
    NotifyIconAdd,
    /// The polling timer could not be started.
    SetTimer,
}

/// What the window procedure of the hidden tray window does with a message.
#[derive(Debug, Clone, Copy, PartialEq, Eq, Structural)]
pub enum MessageAction {
    /// Show the target window if it is hidden, hide it otherwise; answer 0.
    Toggle,
    /// Restore the target window (`SW_RESTORE`), then request the end of the
    /// message loop and post the quit message; answer 0.
    RestoreAndExit,
    /// Open the context menu at the cursor; answer 0.
    ShowContextMenu,
    /// Restore the target window if it still exists, request the end of the
    /// message loop and post the quit message; answer 0.
    Exit,
    /// Post the quit message; answer 0.
    PostQuit,
    /// Leave the message to the default window procedure.
    Default,
}

/// The action for the message `msg` with parameters `wparam` and `lparam`.
///
/// The hot key message toggles when it carries the Win + Y identifier. The
/// tray icon message carries the mouse event in the low 32 bits of `lparam`:
/// a left double click restores the window and ends the program, and a right
/// button release opens the menu.
/// A command whose low 16 bits name the exit item ends the program, and the
/// destroy message posts the quit message. All else goes to the default
/// procedure.
pub open spec fn message_action(msg: u32, wparam: usize, lparam: isize) -> MessageAction {
    if msg == WM_HOTKEY {
        if wparam == ID_HOTKEY_TOGGLE as usize {
            MessageAction::Toggle
        } else {
            MessageAction::Default
        }
    } else if msg == WM_TRAY_ICON {
        let mouse_event: u32 = lparam as u32;
        if mouse_event == WM_LBUTTONDBLCLK {
            MessageAction::RestoreAndExit
        } else if mouse_event == WM_RBUTTONUP {
            MessageAction::ShowContextMenu
        } else {
            MessageAction::Default
        }
    } else if msg == WM_COMMAND {
        if wparam & 0xFFFF == ID_MENU_EXIT {
            MessageAction::Exit
        } else {
            MessageAction::Default
        }
    } else if msg == WM_DESTROY {
        MessageAction::PostQuit
    } else {
        MessageAction::Default
    }
}

/// Decides what the tray window does with a message.
pub fn route_message(msg: u32, wparam: usize, lparam: isize) -> (a: MessageAction)
    ensures
        a == message_action(msg, wparam, lparam),
        msg == 0x8001 ==> (a == MessageAction::RestoreAndExit <==> (lparam as u32) == 0x0203),
        msg == 0x8001 ==> (a == MessageAction::ShowContextMenu <==> (lparam as u32) == 0x0205),
        msg == 0x8001 && (lparam as u32) != 0x0203 && (lparam as u32) != 0x0205 ==> a
            == MessageAction::Default,
{
    if msg == WM_HOTKEY {
        if wparam == ID_HOTKEY_TOGGLE as usize {
            MessageAction::Toggle
        } else {
            MessageAction::Default
        }
    } else if msg == WM_TRAY_ICON {
        let mouse_event: u32 = lparam as u32;
        if mouse_event == WM_LBUTTONDBLCLK {
            MessageAction::RestoreAndExit
        } else if mouse_event == WM_RBUTTONUP {
            MessageAction::ShowContextMenu
        } else {
            MessageAction::Default
        }
    } else if msg == WM_COMMAND {
        let command_id: usize = wparam & 0xFFFF;
        if command_id == ID_MENU_EXIT {
            MessageAction::Exit
        } else {
            MessageAction::Default
        }
    } else if msg == WM_DESTROY {
        MessageAction::PostQuit
    } else {
        MessageAction::Default
    }
}

/// What a toggle does to the target window.
#[derive(Debug, Clone, Copy, PartialEq, Eq, Structural)]
pub enum ToggleAction {
    /// Hide the window (`SW_HIDE`).
    Hide,
    /// Restore the window (`SW_RESTORE`).
    Show,
}

/// Whether the window is visible after the toggle action has been applied.
pub open spec fn visible_after(a: ToggleAction) -> bool {
    a is Show
}

/// The toggle action for a target window that is `visible` now: a visible
/// window is hidden, a hidden one is restored.
pub open spec fn toggle_for(visible: bool) -> ToggleAction {
    if visible {
        ToggleAction::Hide
    } else {
        ToggleAction::Show
    }
}

/// Decides how to toggle a target window that is `visible` now.
pub fn toggle_action(visible: bool) -> (a: ToggleAction)
    ensures
        a == toggle_for(visible),
{
    if visible {
        ToggleAction::Hide
    } else {
        ToggleAction::Show
    }
}

/// A double click on the tray icon always restores the window and ends the
/// program, whatever the high bits of `lparam` and whatever `wparam` hold;
/// nothing but the Win + Y hot key toggles.
pub proof fn lemma_double_click_restores_and_exits(wparam: usize, lparam: isize, msg: u32)
    ensures
        (lparam as u32) == WM_LBUTTONDBLCLK ==> message_action(WM_TRAY_ICON, wparam, lparam)
            == MessageAction::RestoreAndExit,
        message_action(msg, wparam, lparam) == MessageAction::Toggle ==> msg == WM_HOTKEY
            && wparam == 1,
{
}

/// What each message does, by its number: the hot key message (0x0312)
/// toggles exactly when `wparam` is 1; the tray icon message (0x8001)
/// restores and exits exactly on a left double click (0x0203 in the low 32
/// bits of `lparam`), opens the menu exactly on a right button release
/// (0x0205), and leaves every other mouse event, a single click among them,
/// to the default procedure; a command (0x0111) exits exactly when its low 16
/// bits are 1001; the destroy message (0x0002) posts the quit message; and
/// every other message goes to the default procedure.
pub proof fn lemma_message_action_by_number(msg: u32, wparam: usize, lparam: isize)
    ensures
        msg == 0x0312 ==> message_action(msg, wparam, lparam) == (if wparam == 1 {
            MessageAction::Toggle
        } else {
            MessageAction::Default
        }),
        msg == 0x8001 ==> message_action(msg, wparam, lparam) == (if (lparam as u32) == 0x0203 {
            MessageAction::RestoreAndExit
        } else if (lparam as u32) == 0x0205 {
            MessageAction::ShowContextMenu
        } else {
            MessageAction::Default
        }),
        msg == 0x0111 ==> message_action(msg, wparam, lparam) == (if wparam % 0x10000 == 1001 {
            MessageAction::Exit
        } else {
            MessageAction::Default
        }),
        msg == 0x0002 ==> message_action(msg, wparam, lparam) == MessageAction::PostQuit,
        msg != 0x0312 && msg != 0x8001 && msg != 0x0111 && msg != 0x0002 ==> message_action(
            msg,
            wparam,
            lparam,
        ) == MessageAction::Default,
{
    assert(wparam & 0xFFFF == wparam % 0x10000) by (bit_vector);
}

/// A toggle always flips the visibility of the target window, so two
/// toggles in a row bring it back to how it was.
pub proof fn lemma_toggle_flips_visibility(visible: bool)
    ensures
        visible_after(toggle_for(visible)) == !visible,
        visible_after(toggle_for(visible_after(toggle_for(visible)))) == visible,
{
}

} // verus!
