//! The recognized platform keys as a closed enumeration, so that callers
//! name keys instead of spelling free integers; each key carries its stable
//! platform key code and its symbolic name.

use vstd::prelude::*;

verus! {

/// A platform (virtual-key) keyboard key.
#[derive(Clone, Copy, PartialEq, Eq, Structural)]
pub enum WowWindowKeyInt {
    Backspace,
    Tab,
    Clear,
    Enter,
    Pause,
    CapsLock,
    Escape,
    Space,
    PageUp,
    PageDown,
    End,
    Home,
    LeftArrow,
    UpArrow,
    RightArrow,
    DownArrow,
    Select,
    Print,
    Execute,
    PrintScreen,
    Insert,
    Delete,
    Help,
    LeftWindows,
    RightWindows,
    Applications,
    Sleep,
    Numpad0,
    Numpad1,
    Numpad2,
    Numpad3,
    Numpad4,
    Numpad5,
    Numpad6,
    Numpad7,
    Numpad8,
    Numpad9,
    Multiply,
    Add,
    Separator,
    Subtract,
    Decimal,
    Divide,
    F1,
    F2,
    F3,
    F4,
    F5,
    F6,
    F7,
    F8,
    F9,
    F10,
    F11,
    F12,
    F13,
    F14,
    F15,
    F16,
    F17,
    F18,
    F19,
    F20,
    F21,
    F22,
    F23,
    F24,
    NumLock,
    ScrollLock,
    LeftShift,
    RightShift,
    LeftControl,
    RightControl,
    LeftAlt,
    RightAlt,
    BrowserBack,
    BrowserForward,
    BrowserRefresh,
    BrowserStop,
    BrowserSearch,
    BrowserFavorites,
    BrowserHome,
    VolumeMute,
    VolumeDown,
    VolumeUp,
    MediaNextTrack,
    MediaPreviousTrack,
    MediaStop,
    MediaPlay,
    LaunchMail,
    LaunchMediaSelect,
    LaunchApp1,
    LaunchApp2,
    OEM1,
    OEMPlus,
    OEMComma,
    OEMMinus,
    OEMPeriod,
    OEM2,
    OEM3,
    OEM4,
    OEM5,
    OEM6,
    OEM7,
    OEM8,
    OEM102,
    ProcessKey,
    Packet,
    Attn,
    CrSel,
    ExSel,
    EraseEOF,
    Play,
    Zoom,
    PA1,
}

/// The platform key code of each key.
pub open spec fn spec_key_code(k: WowWindowKeyInt) -> u8 {
    match k {
        WowWindowKeyInt::Backspace => 8,
        WowWindowKeyInt::Tab => 9,
        WowWindowKeyInt::Clear => 12,
        WowWindowKeyInt::Enter => 13,
        WowWindowKeyInt::Pause => 19,
        WowWindowKeyInt::CapsLock => 20,
        WowWindowKeyInt::Escape => 27,
        WowWindowKeyInt::Space => 32,
        WowWindowKeyInt::PageUp => 33,
        WowWindowKeyInt::PageDown => 34,
        WowWindowKeyInt::End => 35,
        WowWindowKeyInt::Home => 36,
        WowWindowKeyInt::LeftArrow => 37,
        WowWindowKeyInt::UpArrow => 38,
        WowWindowKeyInt::RightArrow => 39,
        WowWindowKeyInt::DownArrow => 40,
        WowWindowKeyInt::Select => 41,
        WowWindowKeyInt::Print => 42,
        WowWindowKeyInt::Execute => 43,
        WowWindowKeyInt::PrintScreen => 44,
        WowWindowKeyInt::Insert => 45,
        WowWindowKeyInt::Delete => 46,
        WowWindowKeyInt::Help => 47,
        WowWindowKeyInt::LeftWindows => 91,
        WowWindowKeyInt::RightWindows => 92,
        WowWindowKeyInt::Applications => 93,
        WowWindowKeyInt::Sleep => 95,
        WowWindowKeyInt::Numpad0 => 96,
        WowWindowKeyInt::Numpad1 => 97,
        WowWindowKeyInt::Numpad2 => 98,
        WowWindowKeyInt::Numpad3 => 99,
        WowWindowKeyInt::Numpad4 => 100,
        WowWindowKeyInt::Numpad5 => 101,
        WowWindowKeyInt::Numpad6 => 102,
        WowWindowKeyInt::Numpad7 => 103,
        WowWindowKeyInt::Numpad8 => 104,
        WowWindowKeyInt::Numpad9 => 105,
        WowWindowKeyInt::Multiply => 106,
        WowWindowKeyInt::Add => 107,
        WowWindowKeyInt::Separator => 108,
        WowWindowKeyInt::Subtract => 109,
        WowWindowKeyInt::Decimal => 110,
        WowWindowKeyInt::Divide => 111,
        WowWindowKeyInt::F1 => 112,
        WowWindowKeyInt::F2 => 113,
        WowWindowKeyInt::F3 => 114,
        WowWindowKeyInt::F4 => 115,
        WowWindowKeyInt::F5 => 116,
        WowWindowKeyInt::F6 => 117,
        WowWindowKeyInt::F7 => 118,
        WowWindowKeyInt::F8 => 119,
        WowWindowKeyInt::F9 => 120,
        WowWindowKeyInt::F10 => 121,
        WowWindowKeyInt::F11 => 122,
        WowWindowKeyInt::F12 => 123,
        WowWindowKeyInt::F13 => 124,
        WowWindowKeyInt::F14 => 125,
        WowWindowKeyInt::F15 => 126,
        WowWindowKeyInt::F16 => 127,
        WowWindowKeyInt::F17 => 128,
        WowWindowKeyInt::F18 => 129,
        WowWindowKeyInt::F19 => 130,
        WowWindowKeyInt::F20 => 131,
        WowWindowKeyInt::F21 => 132,
        WowWindowKeyInt::F22 => 133,
        WowWindowKeyInt::F23 => 134,
        WowWindowKeyInt::F24 => 135,
        WowWindowKeyInt::NumLock => 144,
        WowWindowKeyInt::ScrollLock => 145,
        WowWindowKeyInt::LeftShift => 160,
        WowWindowKeyInt::RightShift => 161,
        WowWindowKeyInt::LeftControl => 162,
        WowWindowKeyInt::RightControl => 163,
        WowWindowKeyInt::LeftAlt => 164,
        WowWindowKeyInt::RightAlt => 165,
        WowWindowKeyInt::BrowserBack => 166,
        WowWindowKeyInt::BrowserForward => 167,
        WowWindowKeyInt::BrowserRefresh => 168,
        WowWindowKeyInt::BrowserStop => 169,
        WowWindowKeyInt::BrowserSearch => 170,
        WowWindowKeyInt::BrowserFavorites => 171,
        WowWindowKeyInt::BrowserHome => 172,
        WowWindowKeyInt::VolumeMute => 173,
        WowWindowKeyInt::VolumeDown => 174,
        WowWindowKeyInt::VolumeUp => 175,
        WowWindowKeyInt::MediaNextTrack => 176,
        WowWindowKeyInt::MediaPreviousTrack => 177,
        WowWindowKeyInt::MediaStop => 178,
        WowWindowKeyInt::MediaPlay => 179,
        WowWindowKeyInt::LaunchMail => 180,
        WowWindowKeyInt::LaunchMediaSelect => 181,
        WowWindowKeyInt::LaunchApp1 => 182,
        WowWindowKeyInt::LaunchApp2 => 183,
        WowWindowKeyInt::OEM1 => 186,
        WowWindowKeyInt::OEMPlus => 187,
        WowWindowKeyInt::OEMComma => 188,
        WowWindowKeyInt::OEMMinus => 189,
        WowWindowKeyInt::OEMPeriod => 190,
        WowWindowKeyInt::OEM2 => 191,
        WowWindowKeyInt::OEM3 => 192,
        WowWindowKeyInt::OEM4 => 219,
        WowWindowKeyInt::OEM5 => 220,
        WowWindowKeyInt::OEM6 => 221,
        WowWindowKeyInt::OEM7 => 222,
        WowWindowKeyInt::OEM8 => 223,
        WowWindowKeyInt::OEM102 => 226,
        WowWindowKeyInt::ProcessKey => 229,
        WowWindowKeyInt::Packet => 231,
        WowWindowKeyInt::Attn => 246,
        WowWindowKeyInt::CrSel => 247,
        WowWindowKeyInt::ExSel => 248,
        WowWindowKeyInt::EraseEOF => 249,
        WowWindowKeyInt::Play => 250,
        WowWindowKeyInt::Zoom => 251,
        WowWindowKeyInt::PA1 => 253,
    }
}

/// The symbolic name of each key, as the registry spells it.
pub open spec fn spec_key_name(k: WowWindowKeyInt) -> Seq<char> {
    match k {
        WowWindowKeyInt::Backspace => "Backspace"@,
        WowWindowKeyInt::Tab => "Tab"@,
        WowWindowKeyInt::Clear => "Clear"@,
        WowWindowKeyInt::Enter => "Enter"@,
        WowWindowKeyInt::Pause => "Pause"@,
        WowWindowKeyInt::CapsLock => "CapsLock"@,
        WowWindowKeyInt::Escape => "Escape"@,
        WowWindowKeyInt::Space => "Space"@,
        WowWindowKeyInt::PageUp => "PageUp"@,
        WowWindowKeyInt::PageDown => "PageDown"@,
        WowWindowKeyInt::End => "End"@,
        WowWindowKeyInt::Home => "Home"@,
        WowWindowKeyInt::LeftArrow => "LeftArrow"@,
        WowWindowKeyInt::UpArrow => "UpArrow"@,
        WowWindowKeyInt::RightArrow => "RightArrow"@,
        WowWindowKeyInt::DownArrow => "DownArrow"@,
        WowWindowKeyInt::Select => "Select"@,
        WowWindowKeyInt::Print => "Print"@,
        WowWindowKeyInt::Execute => "Execute"@,
        WowWindowKeyInt::PrintScreen => "PrintScreen"@,
        WowWindowKeyInt::Insert => "Insert"@,
        WowWindowKeyInt::Delete => "Delete"@,
        WowWindowKeyInt::Help => "Help"@,
        WowWindowKeyInt::LeftWindows => "LeftWindows"@,
        WowWindowKeyInt::RightWindows => "RightWindows"@,
        WowWindowKeyInt::Applications => "Applications"@,
        WowWindowKeyInt::Sleep => "Sleep"@,
        WowWindowKeyInt::Numpad0 => "Numpad0"@,
        WowWindowKeyInt::Numpad1 => "Numpad1"@,
        WowWindowKeyInt::Numpad2 => "Numpad2"@,
        WowWindowKeyInt::Numpad3 => "Numpad3"@,
        WowWindowKeyInt::Numpad4 => "Numpad4"@,
        WowWindowKeyInt::Numpad5 => "Numpad5"@,
        WowWindowKeyInt::Numpad6 => "Numpad6"@,
        WowWindowKeyInt::Numpad7 => "Numpad7"@,
        WowWindowKeyInt::Numpad8 => "Numpad8"@,
        WowWindowKeyInt::Numpad9 => "Numpad9"@,
        WowWindowKeyInt::Multiply => "Multiply"@,
        WowWindowKeyInt::Add => "Add"@,
        WowWindowKeyInt::Separator => "Separator"@,
        WowWindowKeyInt::Subtract => "Subtract"@,
        WowWindowKeyInt::Decimal => "Decimal"@,
        WowWindowKeyInt::Divide => "Divide"@,
        WowWindowKeyInt::F1 => "F1"@,
        WowWindowKeyInt::F2 => "F2"@,
        WowWindowKeyInt::F3 => "F3"@,
        WowWindowKeyInt::F4 => "F4"@,
        WowWindowKeyInt::F5 => "F5"@,
        WowWindowKeyInt::F6 => "F6"@,
        WowWindowKeyInt::F7 => "F7"@,
        WowWindowKeyInt::F8 => "F8"@,
        WowWindowKeyInt::F9 => "F9"@,
        WowWindowKeyInt::F10 => "F10"@,
        WowWindowKeyInt::F11 => "F11"@,
        WowWindowKeyInt::F12 => "F12"@,
        WowWindowKeyInt::F13 => "F13"@,
        WowWindowKeyInt::F14 => "F14"@,
        WowWindowKeyInt::F15 => "F15"@,
        WowWindowKeyInt::F16 => "F16"@,
        WowWindowKeyInt::F17 => "F17"@,
        WowWindowKeyInt::F18 => "F18"@,
        WowWindowKeyInt::F19 => "F19"@,
        WowWindowKeyInt::F20 => "F20"@,
        WowWindowKeyInt::F21 => "F21"@,
        WowWindowKeyInt::F22 => "F22"@,
        WowWindowKeyInt::F23 => "F23"@,
        WowWindowKeyInt::F24 => "F24"@,
        WowWindowKeyInt::NumLock => "NumLock"@,
        WowWindowKeyInt::ScrollLock => "ScrollLock"@,
        WowWindowKeyInt::LeftShift => "LeftShift"@,
        WowWindowKeyInt::RightShift => "RightShift"@,
        WowWindowKeyInt::LeftControl => "LeftControl"@,
        WowWindowKeyInt::RightControl => "RightControl"@,
        WowWindowKeyInt::LeftAlt => "LeftAlt"@,
        WowWindowKeyInt::RightAlt => "RightAlt"@,
        WowWindowKeyInt::BrowserBack => "BrowserBack"@,
        WowWindowKeyInt::BrowserForward => "BrowserForward"@,
        WowWindowKeyInt::BrowserRefresh => "BrowserRefresh"@,
        WowWindowKeyInt::BrowserStop => "BrowserStop"@,
        WowWindowKeyInt::BrowserSearch => "BrowserSearch"@,
        WowWindowKeyInt::BrowserFavorites => "BrowserFavorites"@,
        WowWindowKeyInt::BrowserHome => "BrowserHome"@,
        WowWindowKeyInt::VolumeMute => "VolumeMute"@,
        WowWindowKeyInt::VolumeDown => "VolumeDown"@,
        WowWindowKeyInt::VolumeUp => "VolumeUp"@,
        WowWindowKeyInt::MediaNextTrack => "MediaNextTrack"@,
        WowWindowKeyInt::MediaPreviousTrack => "MediaPreviousTrack"@,
        WowWindowKeyInt::MediaStop => "MediaStop"@,
        WowWindowKeyInt::MediaPlay => "MediaPlay"@,
        WowWindowKeyInt::LaunchMail => "LaunchMail"@,
        WowWindowKeyInt::LaunchMediaSelect => "LaunchMediaSelect"@,
        WowWindowKeyInt::LaunchApp1 => "LaunchApp1"@,
        WowWindowKeyInt::LaunchApp2 => "LaunchApp2"@,
        WowWindowKeyInt::OEM1 => "OEM1"@,
        WowWindowKeyInt::OEMPlus => "OEMPlus"@,
        WowWindowKeyInt::OEMComma => "OEMComma"@,
        WowWindowKeyInt::OEMMinus => "OEMMinus"@,
        WowWindowKeyInt::OEMPeriod => "OEMPeriod"@,
        WowWindowKeyInt::OEM2 => "OEM2"@,
        WowWindowKeyInt::OEM3 => "OEM3"@,
        WowWindowKeyInt::OEM4 => "OEM4"@,
        WowWindowKeyInt::OEM5 => "OEM5"@,
        WowWindowKeyInt::OEM6 => "OEM6"@,
        WowWindowKeyInt::OEM7 => "OEM7"@,
        WowWindowKeyInt::OEM8 => "OEM8"@,
        WowWindowKeyInt::OEM102 => "OEM102"@,
        WowWindowKeyInt::ProcessKey => "ProcessKey"@,
        WowWindowKeyInt::Packet => "Packet"@,
        WowWindowKeyInt::Attn => "Attn"@,
        WowWindowKeyInt::CrSel => "CrSel"@,
        WowWindowKeyInt::ExSel => "ExSel"@,
        WowWindowKeyInt::EraseEOF => "EraseEOF"@,
        WowWindowKeyInt::Play => "Play"@,
        WowWindowKeyInt::Zoom => "Zoom"@,
        WowWindowKeyInt::PA1 => "PA1"@,
    }
}

impl WowWindowKeyInt {
    /// The 8-bit platform key code of this key.
    pub fn key_code(&self) -> (r: u8)
        ensures
            r == spec_key_code(*self),
    {
        match self {
            WowWindowKeyInt::Backspace => 8,
            WowWindowKeyInt::Tab => 9,
            WowWindowKeyInt::Clear => 12,
            WowWindowKeyInt::Enter => 13,
            WowWindowKeyInt::Pause => 19,
            WowWindowKeyInt::CapsLock => 20,
            WowWindowKeyInt::Escape => 27,
            WowWindowKeyInt::Space => 32,
            WowWindowKeyInt::PageUp => 33,
            WowWindowKeyInt::PageDown => 34,
            WowWindowKeyInt::End => 35,
            WowWindowKeyInt::Home => 36,
            WowWindowKeyInt::LeftArrow => 37,
            WowWindowKeyInt::UpArrow => 38,
            WowWindowKeyInt::RightArrow => 39,
            WowWindowKeyInt::DownArrow => 40,
            WowWindowKeyInt::Select => 41,
            WowWindowKeyInt::Print => 42,
            WowWindowKeyInt::Execute => 43,
            WowWindowKeyInt::PrintScreen => 44,
            WowWindowKeyInt::Insert => 45,
            WowWindowKeyInt::Delete => 46,
            WowWindowKeyInt::Help => 47,
            WowWindowKeyInt::LeftWindows => 91,
            WowWindowKeyInt::RightWindows => 92,
            WowWindowKeyInt::Applications => 93,
            WowWindowKeyInt::Sleep => 95,
            WowWindowKeyInt::Numpad0 => 96,
            WowWindowKeyInt::Numpad1 => 97,
            WowWindowKeyInt::Numpad2 => 98,
            WowWindowKeyInt::Numpad3 => 99,
            WowWindowKeyInt::Numpad4 => 100,
            WowWindowKeyInt::Numpad5 => 101,
            WowWindowKeyInt::Numpad6 => 102,
            WowWindowKeyInt::Numpad7 => 103,
            WowWindowKeyInt::Numpad8 => 104,
            WowWindowKeyInt::Numpad9 => 105,
            WowWindowKeyInt::Multiply => 106,
            WowWindowKeyInt::Add => 107,
            WowWindowKeyInt::Separator => 108,
            WowWindowKeyInt::Subtract => 109,
            WowWindowKeyInt::Decimal => 110,
            WowWindowKeyInt::Divide => 111,
            WowWindowKeyInt::F1 => 112,
            WowWindowKeyInt::F2 => 113,
            WowWindowKeyInt::F3 => 114,
            WowWindowKeyInt::F4 => 115,
            WowWindowKeyInt::F5 => 116,
            WowWindowKeyInt::F6 => 117,
            WowWindowKeyInt::F7 => 118,
            WowWindowKeyInt::F8 => 119,
            WowWindowKeyInt::F9 => 120,
            WowWindowKeyInt::F10 => 121,
            WowWindowKeyInt::F11 => 122,
            WowWindowKeyInt::F12 => 123,
            WowWindowKeyInt::F13 => 124,
            WowWindowKeyInt::F14 => 125,
            WowWindowKeyInt::F15 => 126,
            WowWindowKeyInt::F16 => 127,
            WowWindowKeyInt::F17 => 128,
            WowWindowKeyInt::F18 => 129,
            WowWindowKeyInt::F19 => 130,
            WowWindowKeyInt::F20 => 131,
            WowWindowKeyInt::F21 => 132,
            WowWindowKeyInt::F22 => 133,
            WowWindowKeyInt::F23 => 134,
            WowWindowKeyInt::F24 => 135,
            WowWindowKeyInt::NumLock => 144,
            WowWindowKeyInt::ScrollLock => 145,
            WowWindowKeyInt::LeftShift => 160,
            WowWindowKeyInt::RightShift => 161,
            WowWindowKeyInt::LeftControl => 162,
            WowWindowKeyInt::RightControl => 163,
            WowWindowKeyInt::LeftAlt => 164,
            WowWindowKeyInt::RightAlt => 165,
            WowWindowKeyInt::BrowserBack => 166,
            WowWindowKeyInt::BrowserForward => 167,
            WowWindowKeyInt::BrowserRefresh => 168,
            WowWindowKeyInt::BrowserStop => 169,
            WowWindowKeyInt::BrowserSearch => 170,
            WowWindowKeyInt::BrowserFavorites => 171,
            WowWindowKeyInt::BrowserHome => 172,
            WowWindowKeyInt::VolumeMute => 173,
            WowWindowKeyInt::VolumeDown => 174,
            WowWindowKeyInt::VolumeUp => 175,
            WowWindowKeyInt::MediaNextTrack => 176,
            WowWindowKeyInt::MediaPreviousTrack => 177,
            WowWindowKeyInt::MediaStop => 178,
            WowWindowKeyInt::MediaPlay => 179,
            WowWindowKeyInt::LaunchMail => 180,
            WowWindowKeyInt::LaunchMediaSelect => 181,
            WowWindowKeyInt::LaunchApp1 => 182,
            WowWindowKeyInt::LaunchApp2 => 183,
            WowWindowKeyInt::OEM1 => 186,
            WowWindowKeyInt::OEMPlus => 187,
            WowWindowKeyInt::OEMComma => 188,
            WowWindowKeyInt::OEMMinus => 189,
            WowWindowKeyInt::OEMPeriod => 190,
            WowWindowKeyInt::OEM2 => 191,
            WowWindowKeyInt::OEM3 => 192,
            WowWindowKeyInt::OEM4 => 219,
            WowWindowKeyInt::OEM5 => 220,
            WowWindowKeyInt::OEM6 => 221,
            WowWindowKeyInt::OEM7 => 222,
            WowWindowKeyInt::OEM8 => 223,
            WowWindowKeyInt::OEM102 => 226,
            WowWindowKeyInt::ProcessKey => 229,
            WowWindowKeyInt::Packet => 231,
            WowWindowKeyInt::Attn => 246,
            WowWindowKeyInt::CrSel => 247,
            WowWindowKeyInt::ExSel => 248,
            WowWindowKeyInt::EraseEOF => 249,
            WowWindowKeyInt::Play => 250,
            WowWindowKeyInt::Zoom => 251,
            WowWindowKeyInt::PA1 => 253,
        }
    }

    /// The symbolic name of this key.
    pub fn key_name(&self) -> (r: &'static str)
        ensures
            r@ == spec_key_name(*self),
    {
        match self {
            WowWindowKeyInt::Backspace => "Backspace",
            WowWindowKeyInt::Tab => "Tab",
            WowWindowKeyInt::Clear => "Clear",
            WowWindowKeyInt::Enter => "Enter",
            WowWindowKeyInt::Pause => "Pause",
            WowWindowKeyInt::CapsLock => "CapsLock",
            WowWindowKeyInt::Escape => "Escape",
            WowWindowKeyInt::Space => "Space",
            WowWindowKeyInt::PageUp => "PageUp",
            WowWindowKeyInt::PageDown => "PageDown",
            WowWindowKeyInt::End => "End",
            WowWindowKeyInt::Home => "Home",
            WowWindowKeyInt::LeftArrow => "LeftArrow",
            WowWindowKeyInt::UpArrow => "UpArrow",
            WowWindowKeyInt::RightArrow => "RightArrow",
            WowWindowKeyInt::DownArrow => "DownArrow",
            WowWindowKeyInt::Select => "Select",
            WowWindowKeyInt::Print => "Print",
            WowWindowKeyInt::Execute => "Execute",
            WowWindowKeyInt::PrintScreen => "PrintScreen",
            WowWindowKeyInt::Insert => "Insert",
            WowWindowKeyInt::Delete => "Delete",
            WowWindowKeyInt::Help => "Help",
            WowWindowKeyInt::LeftWindows => "LeftWindows",
            WowWindowKeyInt::RightWindows => "RightWindows",
            WowWindowKeyInt::Applications => "Applications",
            WowWindowKeyInt::Sleep => "Sleep",
            WowWindowKeyInt::Numpad0 => "Numpad0",
            WowWindowKeyInt::Numpad1 => "Numpad1",
            WowWindowKeyInt::Numpad2 => "Numpad2",
            WowWindowKeyInt::Numpad3 => "Numpad3",
            WowWindowKeyInt::Numpad4 => "Numpad4",
            WowWindowKeyInt::Numpad5 => "Numpad5",
            WowWindowKeyInt::Numpad6 => "Numpad6",
            WowWindowKeyInt::Numpad7 => "Numpad7",
            WowWindowKeyInt::Numpad8 => "Numpad8",
            WowWindowKeyInt::Numpad9 => "Numpad9",
            WowWindowKeyInt::Multiply => "Multiply",
            WowWindowKeyInt::Add => "Add",
            WowWindowKeyInt::Separator => "Separator",
            WowWindowKeyInt::Subtract => "Subtract",
            WowWindowKeyInt::Decimal => "Decimal",
            WowWindowKeyInt::Divide => "Divide",
            WowWindowKeyInt::F1 => "F1",
            WowWindowKeyInt::F2 => "F2",
            WowWindowKeyInt::F3 => "F3",
            WowWindowKeyInt::F4 => "F4",
            WowWindowKeyInt::F5 => "F5",
            WowWindowKeyInt::F6 => "F6",
            WowWindowKeyInt::F7 => "F7",
            WowWindowKeyInt::F8 => "F8",
            WowWindowKeyInt::F9 => "F9",
            WowWindowKeyInt::F10 => "F10",
            WowWindowKeyInt::F11 => "F11",
            WowWindowKeyInt::F12 => "F12",
            WowWindowKeyInt::F13 => "F13",
            WowWindowKeyInt::F14 => "F14",
            WowWindowKeyInt::F15 => "F15",
            WowWindowKeyInt::F16 => "F16",
            WowWindowKeyInt::F17 => "F17",
            WowWindowKeyInt::F18 => "F18",
            WowWindowKeyInt::F19 => "F19",
            WowWindowKeyInt::F20 => "F20",
            WowWindowKeyInt::F21 => "F21",
            WowWindowKeyInt::F22 => "F22",
            WowWindowKeyInt::F23 => "F23",
            WowWindowKeyInt::F24 => "F24",
            WowWindowKeyInt::NumLock => "NumLock",
            WowWindowKeyInt::ScrollLock => "ScrollLock",
            WowWindowKeyInt::LeftShift => "LeftShift",
            WowWindowKeyInt::RightShift => "RightShift",
            WowWindowKeyInt::LeftControl => "LeftControl",
            WowWindowKeyInt::RightControl => "RightControl",
            WowWindowKeyInt::LeftAlt => "LeftAlt",
            WowWindowKeyInt::RightAlt => "RightAlt",
            WowWindowKeyInt::BrowserBack => "BrowserBack",
            WowWindowKeyInt::BrowserForward => "BrowserForward",
            WowWindowKeyInt::BrowserRefresh => "BrowserRefresh",
            WowWindowKeyInt::BrowserStop => "BrowserStop",
            WowWindowKeyInt::BrowserSearch => "BrowserSearch",
            WowWindowKeyInt::BrowserFavorites => "BrowserFavorites",
            WowWindowKeyInt::BrowserHome => "BrowserHome",
            WowWindowKeyInt::VolumeMute => "VolumeMute",
            WowWindowKeyInt::VolumeDown => "VolumeDown",
            WowWindowKeyInt::VolumeUp => "VolumeUp",
            WowWindowKeyInt::MediaNextTrack => "MediaNextTrack",
            WowWindowKeyInt::MediaPreviousTrack => "MediaPreviousTrack",
            WowWindowKeyInt::MediaStop => "MediaStop",
            WowWindowKeyInt::MediaPlay => "MediaPlay",
            WowWindowKeyInt::LaunchMail => "LaunchMail",
            WowWindowKeyInt::LaunchMediaSelect => "LaunchMediaSelect",
            WowWindowKeyInt::LaunchApp1 => "LaunchApp1",
            WowWindowKeyInt::LaunchApp2 => "LaunchApp2",
            WowWindowKeyInt::OEM1 => "OEM1",
            WowWindowKeyInt::OEMPlus => "OEMPlus",
            WowWindowKeyInt::OEMComma => "OEMComma",
            WowWindowKeyInt::OEMMinus => "OEMMinus",
            WowWindowKeyInt::OEMPeriod => "OEMPeriod",
            WowWindowKeyInt::OEM2 => "OEM2",
            WowWindowKeyInt::OEM3 => "OEM3",
            WowWindowKeyInt::OEM4 => "OEM4",
            WowWindowKeyInt::OEM5 => "OEM5",
            WowWindowKeyInt::OEM6 => "OEM6",
            WowWindowKeyInt::OEM7 => "OEM7",
            WowWindowKeyInt::OEM8 => "OEM8",
            WowWindowKeyInt::OEM102 => "OEM102",
            WowWindowKeyInt::ProcessKey => "ProcessKey",
            WowWindowKeyInt::Packet => "Packet",
            WowWindowKeyInt::Attn => "Attn",
            WowWindowKeyInt::CrSel => "CrSel",
            WowWindowKeyInt::ExSel => "ExSel",
            WowWindowKeyInt::EraseEOF => "EraseEOF",
            WowWindowKeyInt::Play => "Play",
            WowWindowKeyInt::Zoom => "Zoom",
            WowWindowKeyInt::PA1 => "PA1",
        }
    }
}

} // verus!
