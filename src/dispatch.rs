use vstd::prelude::*;
use vstd::string::StringSliceAdditionalSpecFns;

verus! {

#[derive(Clone, Copy, Debug, PartialEq, Eq, Structural)]
pub enum MouseButton {
    Left,
    Right,
    Middle,
}

/// A hotkey combination reported by the hotkey listener.
#[derive(Clone, Copy, Debug, PartialEq, Eq, Structural)]
pub enum Hotkey {
    ToggleRecording,
    PolishClipboard,
}

/// What a user action asks for.
#[derive(Clone, Copy, Debug, PartialEq, Eq, Structural)]
pub enum Dispatch {
    /// Run the recording toggle; `auto_paste` pastes the transcription.
    ToggleRecording { auto_paste: bool },
    /// Run the polish workflow; `paste_after` replaces the last insertion.
    Polish { paste_after: bool },
    ShowMenu,
    Quit,
    Ignore,
}

/// The identifiers of the tray menu items.
pub const MENU_TOGGLE_RECORDING: &'static str = "toggle_recording";
pub const MENU_CLEANSE: &'static str = "cleanse";
pub const MENU_QUIT: &'static str = "quit";

pub open spec fn tray_dispatch_spec(button: MouseButton, pressed: bool) -> Dispatch {
    if !pressed {
        Dispatch::Ignore
    } else {
        match button {
            MouseButton::Left => Dispatch::ToggleRecording { auto_paste: false },
            MouseButton::Right => Dispatch::ShowMenu,
            MouseButton::Middle => Dispatch::Ignore,
        }
    }
}

pub open spec fn menu_dispatch_spec(id: Seq<u8>) -> Dispatch {
    if id == MENU_QUIT.spec_bytes() {
        Dispatch::Quit
    } else if id == MENU_TOGGLE_RECORDING.spec_bytes() {
        Dispatch::ToggleRecording { auto_paste: false }
    } else if id == MENU_CLEANSE.spec_bytes() {
        Dispatch::Polish { paste_after: false }
    } else {
        Dispatch::Ignore
    }
}

pub open spec fn hotkey_dispatch_spec(h: Hotkey) -> Dispatch {
    match h {
        Hotkey::ToggleRecording => Dispatch::ToggleRecording { auto_paste: true },
        Hotkey::PolishClipboard => Dispatch::Polish { paste_after: true },
    }
}

/// A tray click: a left press toggles recording and notifies the result, a
/// right press opens the menu, anything else is ignored.
pub fn tray_dispatch(button: MouseButton, pressed: bool) -> (r: Dispatch)
    ensures
        r == tray_dispatch_spec(button, pressed),
{
    if !pressed {
        return Dispatch::Ignore;
    }
    match button {
        MouseButton::Left => Dispatch::ToggleRecording { auto_paste: false },
        MouseButton::Right => Dispatch::ShowMenu,
        MouseButton::Middle => Dispatch::Ignore,
    }
}

/// A menu item, by its identifier; menu actions notify rather than paste.
pub fn menu_dispatch(id: &str) -> (r: Dispatch)
    ensures
        r == menu_dispatch_spec(id.spec_bytes()),
{
    let b = id.as_bytes();
    if same_bytes(b, MENU_QUIT.as_bytes()) {
        Dispatch::Quit
    } else if same_bytes(b, MENU_TOGGLE_RECORDING.as_bytes()) {
        Dispatch::ToggleRecording { auto_paste: false }
    } else if same_bytes(b, MENU_CLEANSE.as_bytes()) {
        Dispatch::Polish { paste_after: false }
    } else {
        Dispatch::Ignore
    }
}

/// A hotkey: hotkey actions paste their result in place.
pub fn hotkey_dispatch(h: Hotkey) -> (r: Dispatch)
    ensures
        r == hotkey_dispatch_spec(h),
{
    match h {
        Hotkey::ToggleRecording => Dispatch::ToggleRecording { auto_paste: true },
        Hotkey::PolishClipboard => Dispatch::Polish { paste_after: true },
    }
}

fn same_bytes(a: &[u8], b: &[u8]) -> (r: bool)
    ensures
        r == (a@ == b@),
{
    if a.len() != b.len() {
        return false;
    }
    let mut i: usize = 0;
    while i < a.len()
        invariant
            a@.len() == b@.len(),
            0 <= i <= a@.len(),
            forall|k: int| 0 <= k < i ==> a@[k] == b@[k],
        decreases a@.len() - i,
    {
        if a[i] != b[i] {
            return false;
        }
        i = i + 1;
    }
    proof {
        assert(a@ =~= b@);
    }
    true
}

} // verus!
