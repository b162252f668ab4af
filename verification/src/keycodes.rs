//! Symbolic keys and the classification of raw display-server keycodes.
//!
//! A raw code is tried against the key categories in a fixed priority
//! order — letters, then numpad keys, then modifiers, then functional
//! keys — and falls back to a direct table; a code no table lists is
//! recorded as unrecognized rather than rejected, so an exotic keyboard
//! cannot crash the subsystem and such a key never matches a chord.
//!
//! The tables follow the standard X11 evdev keymap. In particular,
//! codes 64 and 108 are the left and right Alt keys, 204 is a spare
//! left Alt, 205 is Meta, 133/134/206 are Super, 207 is Hyper, and
//! code 117 is PageDown.

use vstd::prelude::*;
use vstd::string::StringExecFns;

verus! {

/// Where a paired modifier key sits on the keyboard.
#[derive(Clone, Copy, PartialEq, Eq, Structural, Debug)]
pub enum KeyPosition {
    Left,
    Right,
}

/// The letter keys.
#[derive(Clone, Copy, PartialEq, Eq, Structural, Debug)]
pub enum Letter {
    A,
    B,
    C,
    D,
    E,
    F,
    G,
    H,
    I,
    J,
    K,
    L,
    M,
    N,
    O,
    P,
    Q,
    R,
    S,
    T,
    U,
    V,
    W,
    X,
    Y,
    Z,
}

/// The modifier keys.
#[derive(Clone, Copy, PartialEq, Eq, Structural, Debug)]
pub enum ModKey {
    Shift(KeyPosition),
    Control(KeyPosition),
    Alt(KeyPosition),
    Super(KeyPosition),
    Meta(KeyPosition),
    Hyper,
}

/// Punctuation and symbol keys.
#[derive(Clone, Copy, PartialEq, Eq, Structural, Debug)]
pub enum Symbols {
    Apostrophe,
    BackSlash,
    BracketLeft,
    BracketRight,
    Colon,
    Grave,
    Greater,
    Less,
    LessGreaterBar,
    Linefeed,
    Minus,
    ParenLeft,
    ParenRight,
    PlusAndEqual,
    PlusMinus,
    Slash,
}

/// The numeric-keypad keys.
#[derive(Clone, Copy, PartialEq, Eq, Structural, Debug)]
pub enum Numpad {
    Num(u8),
    Devide,
    Substract,
    Add,
    Multiply,
    NumLock,
    Enter,
    Equal,
    Decimal,
    Delete,
}

/// Keyboard-backlight keys.
#[derive(Clone, Copy, PartialEq, Eq, Structural, Debug)]
pub enum KBD {
    ToggleLight,
    BrightnessUp,
    BrightnessDown,
}

/// Monitor-brightness keys.
#[derive(Clone, Copy, PartialEq, Eq, Structural, Debug)]
pub enum Monitor {
    RiseBrightness,
    LowerBrightness,
    BrightnessCycle,
}

/// Touchpad-control keys.
#[derive(Clone, Copy, PartialEq, Eq, Structural, Debug)]
pub enum TouchPad {
    On,
    Off,
    Toggle,
}

/// Audio-volume keys.
#[derive(Clone, Copy, PartialEq, Eq, Structural, Debug)]
pub enum AudioVolume {
    Lower,
    Rise,
    Mute,
}

/// Audio and media keys.
#[derive(Clone, Copy, PartialEq, Eq, Structural, Debug)]
pub enum Audio {
    Volume(AudioVolume),
    Play,
    Next,
    Prev,
    Stop,
    Pause,
    MuteMicrophone,
    Record,
    Preset,
    Rewind,
    Forward,
    Media,
}

/// The extended-function keys of multimedia keyboards.
#[derive(Clone, Copy, PartialEq, Eq, Structural, Debug)]
pub enum Functional {
    Audio(Audio),
    Back,
    Battery,
    Bluetooth,
    BrightnessAuto,
    Calculator,
    Close,
    Copy,
    Cut,
    DOS,
    Display,
    DisplayOff,
    Documents,
    Eject,
    Explorer,
    Farward,
    Favourite,
    Finance,
    Game,
    Go,
    HomePage,
    KBD(KBD),
    Kill,
    Launch(u8),
    LaunchA,
    LaunchB,
    Mail,
    MailFarward,
    Menu,
    Messanger,
    Monitor(Monitor),
    MyComputer,
    New,
    NextVMode,
    Open,
    Paste,
    Phone,
    PowerOff,
    PrevVMode,
    Reload,
    Reply,
    RotateWindows,
    Save,
    ScreenSaver,
    ScrollDown,
    ScrollLock,
    ScrollUp,
    Search,
    Send,
    Shop,
    Sleep,
    Suspend,
    TaskPlane,
    Tools,
    TouchPad(TouchPad),
    UWB,
    WLAN,
    WWAN,
    WWW,
    WakeUp,
    WebCamera,
    Xref,
}

/// A symbolic key: every key the subsystem can track, including a raw
/// code no table recognizes.
#[derive(Clone, Copy, PartialEq, Eq, Structural, Debug)]
pub enum KeyCode {
    BackSpace,
    Cancel,
    CapsLock,
    Delete,
    Down,
    End,
    Escape,
    F(u8),
    Find,
    Functional(Functional),
    Help,
    Home,
    Insert,
    Left,
    Letter(Letter),
    Menu,
    Modkey(ModKey),
    Num(u8),
    NumLock,
    Numpad(Numpad),
    PageDown,
    PageUp,
    Pause,
    Print,
    Redo,
    Return,
    Right,
    Space,
    SunFront,
    SunProps,
    Tab,
    Undo,
    Up,
    Unrecognized(u8),
}

/// The letter, if any, on the raw code.
pub open spec fn spec_letter_of(value: u8) -> Option<Letter> {
    match value {
        24u8 => Some(Letter::Q),
        25u8 => Some(Letter::W),
        26u8 => Some(Letter::E),
        27u8 => Some(Letter::R),
        28u8 => Some(Letter::T),
        29u8 => Some(Letter::Y),
        30u8 => Some(Letter::U),
        31u8 => Some(Letter::I),
        32u8 => Some(Letter::O),
        33u8 => Some(Letter::P),
        38u8 => Some(Letter::A),
        39u8 => Some(Letter::S),
        40u8 => Some(Letter::D),
        41u8 => Some(Letter::F),
        42u8 => Some(Letter::G),
        43u8 => Some(Letter::H),
        44u8 => Some(Letter::J),
        45u8 => Some(Letter::K),
        46u8 => Some(Letter::L),
        52u8 => Some(Letter::Z),
        53u8 => Some(Letter::X),
        54u8 => Some(Letter::C),
        55u8 => Some(Letter::V),
        56u8 => Some(Letter::B),
        57u8 => Some(Letter::N),
        58u8 => Some(Letter::M),
        _ => None,
    }
}

/// The modifier, if any, on the raw code.
pub open spec fn spec_modkey_of(value: u8) -> Option<ModKey> {
    match value {
        50u8 => Some(ModKey::Shift(KeyPosition::Left)),
        62u8 => Some(ModKey::Shift(KeyPosition::Right)),
        37u8 => Some(ModKey::Control(KeyPosition::Left)),
        105u8 => Some(ModKey::Control(KeyPosition::Right)),
        64u8 | 204u8 => Some(ModKey::Alt(KeyPosition::Left)),
        108u8 => Some(ModKey::Alt(KeyPosition::Right)),
        133u8 | 206u8 => Some(ModKey::Super(KeyPosition::Left)),
        134u8 => Some(ModKey::Super(KeyPosition::Right)),
        205u8 => Some(ModKey::Meta(KeyPosition::Left)),
        207u8 => Some(ModKey::Hyper),
        _ => None,
    }
}

/// The symbol key, if any, on the raw code.
pub open spec fn spec_symbols_of(value: u8) -> Option<Symbols> {
    match value {
        20u8 => Some(Symbols::Minus),
        21u8 => Some(Symbols::PlusAndEqual),
        34u8 => Some(Symbols::BracketLeft),
        35u8 => Some(Symbols::BracketRight),
        47u8 => Some(Symbols::Colon),
        48u8 => Some(Symbols::Apostrophe),
        49u8 => Some(Symbols::Grave),
        51u8 => Some(Symbols::BackSlash),
        59u8 => Some(Symbols::Less),
        60u8 => Some(Symbols::Greater),
        61u8 => Some(Symbols::Slash),
        94u8 => Some(Symbols::LessGreaterBar),
        109u8 => Some(Symbols::Linefeed),
        126u8 => Some(Symbols::PlusMinus),
        187u8 => Some(Symbols::ParenLeft),
        188u8 => Some(Symbols::ParenRight),
        _ => None,
    }
}

/// The numpad key, if any, on the raw code.
pub open spec fn spec_numpad_of(value: u8) -> Option<Numpad> {
    if 79 <= value <= 81 {
        Some(Numpad::Num((value - 72) as u8))
    } else if 83 <= value <= 85 {
        Some(Numpad::Num((value - 79) as u8))
    } else if 87 <= value <= 89 {
        Some(Numpad::Num((value - 86) as u8))
    } else {
        match value {
            90u8 => Some(Numpad::Num(0)),
            63u8 => Some(Numpad::Multiply),
            82u8 => Some(Numpad::Substract),
            86u8 => Some(Numpad::Add),
            91u8 => Some(Numpad::Delete),
            104u8 => Some(Numpad::Enter),
            106u8 => Some(Numpad::Devide),
            125u8 => Some(Numpad::Equal),
            129u8 => Some(Numpad::Decimal),
            _ => None,
        }
    }
}

/// The keyboard-backlight key, if any, on the raw code.
pub open spec fn spec_kbd_of(value: u8) -> Option<KBD> {
    match value {
        236u8 => Some(KBD::ToggleLight),
        237u8 => Some(KBD::BrightnessDown),
        238u8 => Some(KBD::BrightnessUp),
        _ => None,
    }
}

/// The monitor-brightness key, if any, on the raw code.
pub open spec fn spec_monitor_of(value: u8) -> Option<Monitor> {
    match value {
        232u8 => Some(Monitor::LowerBrightness),
        233u8 => Some(Monitor::RiseBrightness),
        251u8 => Some(Monitor::BrightnessCycle),
        _ => None,
    }
}

/// The touchpad key, if any, on the raw code.
pub open spec fn spec_touchpad_of(value: u8) -> Option<TouchPad> {
    match value {
        199u8 => Some(TouchPad::Toggle),
        200u8 => Some(TouchPad::On),
        201u8 => Some(TouchPad::Off),
        _ => None,
    }
}

/// The volume key, if any, on the raw code.
pub open spec fn spec_audio_volume_of(value: u8) -> Option<AudioVolume> {
    match value {
        121u8 => Some(AudioVolume::Mute),
        122u8 => Some(AudioVolume::Lower),
        123u8 => Some(AudioVolume::Rise),
        _ => None,
    }
}

/// The audio key, if any, on the raw code: volume keys take priority.
pub open spec fn spec_audio_of(value: u8) -> Option<Audio> {
    match spec_audio_volume_of(value) {
        Some(volume) => Some(Audio::Volume(volume)),
        None => match value {
            172u8 | 208u8 | 215u8 => Some(Audio::Play),
            171u8 => Some(Audio::Next),
            209u8 => Some(Audio::Pause),
            174u8 => Some(Audio::Stop),
            198u8 => Some(Audio::MuteMicrophone),
            175u8 => Some(Audio::Record),
            173u8 => Some(Audio::Prev),
            221u8 => Some(Audio::Preset),
            176u8 => Some(Audio::Rewind),
            216u8 => Some(Audio::Forward),
            234u8 => Some(Audio::Media),
            _ => None,
        },
    }
}

/// The functional key, if any, on the raw code: the audio, keyboard,
/// monitor and touchpad groups are tried first, in that order.
pub open spec fn spec_functional_of(value: u8) -> Option<Functional> {
    if spec_audio_of(value) is Some {
        Some(Functional::Audio(spec_audio_of(value)->0))
    } else if spec_kbd_of(value) is Some {
        Some(Functional::KBD(spec_kbd_of(value)->0))
    } else if spec_monitor_of(value) is Some {
        Some(Functional::Monitor(spec_monitor_of(value)->0))
    } else if spec_touchpad_of(value) is Some {
        Some(Functional::TouchPad(spec_touchpad_of(value)->0))
    } else {
        match value {
            255u8 => Some(Functional::Kill),
            254u8 => Some(Functional::WWAN),
            253u8 => Some(Functional::DisplayOff),
            250u8 => Some(Functional::PrevVMode),
            249u8 => Some(Functional::NextVMode),
            247u8 => Some(Functional::UWB),
            246u8 => Some(Functional::WLAN),
            245u8 => Some(Functional::Bluetooth),
            244u8 => Some(Functional::Battery),
            243u8 => Some(Functional::Documents),
            242u8 => Some(Functional::Save),
            241u8 => Some(Functional::MailFarward),
            240u8 => Some(Functional::Reply),
            153u8 | 239u8 => Some(Functional::Send),
            235u8 => Some(Functional::Display),
            229u8 => Some(Functional::Shop),
            228u8 => Some(Functional::Game),
            227u8 => Some(Functional::Finance),
            226u8 => Some(Functional::Go),
            225u8 => Some(Functional::Search),
            224u8 => Some(Functional::Messanger),
            163u8 | 223u8 => Some(Functional::Mail),
            220u8 => Some(Functional::WebCamera),
            214u8 => Some(Functional::Close),
            213u8 => Some(Functional::Suspend),
            212u8 => Some(Functional::LaunchB),
            210u8 | 211u8 => Some(Functional::Launch((value - 207) as u8)),
            192u8 | 193u8 | 194u8 | 195u8 | 196u8 => Some(Functional::Launch((value - 187) as u8)),
            179u8 | 191u8 => Some(Functional::Tools),
            189u8 => Some(Functional::New),
            186u8 => Some(Functional::ScrollDown),
            185u8 => Some(Functional::ScrollUp),
            182u8 => Some(Functional::Close),
            181u8 => Some(Functional::Reload),
            180u8 => Some(Functional::HomePage),
            177u8 => Some(Functional::Phone),
            169u8 | 170u8 => Some(Functional::Eject),
            167u8 => Some(Functional::Farward),
            166u8 => Some(Functional::Back),
            165u8 => Some(Functional::MyComputer),
            164u8 => Some(Functional::Favourite),
            162u8 => Some(Functional::TaskPlane),
            161u8 => Some(Functional::RotateWindows),
            160u8 => Some(Functional::ScreenSaver),
            159u8 => Some(Functional::DOS),
            158u8 => Some(Functional::WWW),
            156u8 | 157u8 => Some(Functional::Launch((value - 155) as u8)),
            155u8 => Some(Functional::Xref),
            152u8 => Some(Functional::Explorer),
            151u8 => Some(Functional::WakeUp),
            150u8 => Some(Functional::Sleep),
            148u8 => Some(Functional::Calculator),
            147u8 => Some(Functional::Menu),
            145u8 => Some(Functional::Cut),
            143u8 => Some(Functional::Paste),
            142u8 => Some(Functional::Open),
            141u8 => Some(Functional::Copy),
            128u8 => Some(Functional::LaunchA),
            124u8 => Some(Functional::PowerOff),
            78u8 => Some(Functional::ScrollLock),
            _ => None,
        }
    }
}

/// The symbolic key on a raw code: the categories in priority order,
/// then the direct table, else the code is recorded as unrecognized.
pub open spec fn spec_keycode_of(value: u8) -> KeyCode {
    if spec_letter_of(value) is Some {
        KeyCode::Letter(spec_letter_of(value)->0)
    } else if spec_numpad_of(value) is Some {
        KeyCode::Numpad(spec_numpad_of(value)->0)
    } else if spec_modkey_of(value) is Some {
        KeyCode::Modkey(spec_modkey_of(value)->0)
    } else if spec_functional_of(value) is Some {
        KeyCode::Functional(spec_functional_of(value)->0)
    } else {
        match value {
            9u8 => KeyCode::Escape,
            10u8 | 11u8 | 12u8 | 13u8 | 14u8 | 15u8 | 16u8 | 17u8 | 18u8 => KeyCode::Num(
                (value - 9) as u8,
            ),
            19u8 => KeyCode::Num(0),
            22u8 => KeyCode::BackSpace,
            23u8 => KeyCode::Tab,
            36u8 => KeyCode::Return,
            65u8 => KeyCode::Space,
            66u8 => KeyCode::CapsLock,
            67u8 | 68u8 | 69u8 | 70u8 | 71u8 | 72u8 | 73u8 | 74u8 | 75u8 | 76u8 => KeyCode::F(
                (value - 66) as u8,
            ),
            77u8 => KeyCode::NumLock,
            95u8 | 96u8 => KeyCode::F((value - 84) as u8),
            107u8 | 218u8 => KeyCode::Print,
            110u8 => KeyCode::Home,
            111u8 => KeyCode::Up,
            112u8 => KeyCode::PageUp,
            113u8 => KeyCode::Left,
            114u8 => KeyCode::Right,
            115u8 => KeyCode::End,
            116u8 => KeyCode::Down,
            117u8 => KeyCode::PageDown,
            118u8 => KeyCode::Insert,
            119u8 => KeyCode::Delete,
            127u8 => KeyCode::Pause,
            135u8 => KeyCode::Menu,
            136u8 => KeyCode::Cancel,
            137u8 | 190u8 => KeyCode::Redo,
            138u8 => KeyCode::SunProps,
            139u8 => KeyCode::Undo,
            140u8 => KeyCode::SunFront,
            144u8 => KeyCode::Find,
            146u8 => KeyCode::Help,
            _ => KeyCode::Unrecognized(value),
        }
    }
}

impl Letter {
    /// Classifies a raw code as a letter key.
    pub fn try_from(value: u8) -> (r: Result<Letter, ()>)
        ensures
            r == match spec_letter_of(value) {
                Some(k) => Ok::<Letter, ()>(k),
                None => Err::<Letter, ()>(()),
            },
    {
        Ok(
            match value {
                24 => Letter::Q,
                25 => Letter::W,
                26 => Letter::E,
                27 => Letter::R,
                28 => Letter::T,
                29 => Letter::Y,
                30 => Letter::U,
                31 => Letter::I,
                32 => Letter::O,
                33 => Letter::P,
                52 => Letter::Z,
                53 => Letter::X,
                54 => Letter::C,
                55 => Letter::V,
                56 => Letter::B,
                57 => Letter::N,
                58 => Letter::M,
                38 => Letter::A,
                39 => Letter::S,
                40 => Letter::D,
                41 => Letter::F,
                42 => Letter::G,
                43 => Letter::H,
                44 => Letter::J,
                45 => Letter::K,
                46 => Letter::L,
                _ => {
                    return Err(());
                },
            },
        )
    }
}

impl ModKey {
    /// Classifies a raw code as a modifier key.
    pub fn try_from(value: u8) -> (r: Result<ModKey, ()>)
        ensures
            r == match spec_modkey_of(value) {
                Some(k) => Ok::<ModKey, ()>(k),
                None => Err::<ModKey, ()>(()),
            },
    {
        Ok(
            match value {
                50 => ModKey::Shift(KeyPosition::Left),
                62 => ModKey::Shift(KeyPosition::Right),
                37 => ModKey::Control(KeyPosition::Left),
                105 => ModKey::Control(KeyPosition::Right),
                64 | 204 => ModKey::Alt(KeyPosition::Left),
                108 => ModKey::Alt(KeyPosition::Right),
                133 | 206 => ModKey::Super(KeyPosition::Left),
                134 => ModKey::Super(KeyPosition::Right),
                205 => ModKey::Meta(KeyPosition::Left),
                207 => ModKey::Hyper,
                _ => {
                    return Err(());
                },
            },
        )
    }
}

impl Symbols {
    /// Classifies a raw code as a symbol key.
    pub fn try_from(value: u8) -> (r: Result<Symbols, ()>)
        ensures
            r == match spec_symbols_of(value) {
                Some(k) => Ok::<Symbols, ()>(k),
                None => Err::<Symbols, ()>(()),
            },
    {
        Ok(
            match value {
                47 => Symbols::Colon,
                48 => Symbols::Apostrophe,
                49 => Symbols::Grave,
                51 => Symbols::BackSlash,
                59 => Symbols::Less,
                60 => Symbols::Greater,
                61 => Symbols::Slash,
                109 => Symbols::Linefeed,
                34 => Symbols::BracketLeft,
                35 => Symbols::BracketRight,
                187 => Symbols::ParenLeft,
                188 => Symbols::ParenRight,
                20 => Symbols::Minus,
                94 => Symbols::LessGreaterBar,
                21 => Symbols::PlusAndEqual,
                126 => Symbols::PlusMinus,
                _ => {
                    return Err(());
                },
            },
        )
    }
}

impl Numpad {
    /// Classifies a raw code as a numpad key.
    pub fn try_from(value: u8) -> (r: Result<Numpad, ()>)
        ensures
            r == match spec_numpad_of(value) {
                Some(k) => Ok::<Numpad, ()>(k),
                None => Err::<Numpad, ()>(()),
            },
    {
        Ok(
            if 79 <= value && value <= 81 {
                Numpad::Num(7 + value - 79)
            } else if 83 <= value && value <= 85 {
                Numpad::Num(4 + value - 83)
            } else if 87 <= value && value <= 89 {
                Numpad::Num(1 + value - 87)
            } else {
                match value {
                    90 => Numpad::Num(0),
                    63 => Numpad::Multiply,
                    82 => Numpad::Substract,
                    86 => Numpad::Add,
                    91 => Numpad::Delete,
                    104 => Numpad::Enter,
                    106 => Numpad::Devide,
                    125 => Numpad::Equal,
                    129 => Numpad::Decimal,
                    _ => {
                        return Err(());
                    },
                }
            },
        )
    }
}

impl KBD {
    /// Classifies a raw code as a keyboard-backlight key.
    pub fn try_from(value: u8) -> (r: Result<KBD, ()>)
        ensures
            r == match spec_kbd_of(value) {
                Some(k) => Ok::<KBD, ()>(k),
                None => Err::<KBD, ()>(()),
            },
    {
        Ok(
            match value {
                236 => KBD::ToggleLight,
                237 => KBD::BrightnessDown,
                238 => KBD::BrightnessUp,
                _ => {
                    return Err(());
                },
            },
        )
    }
}

impl Monitor {
    /// Classifies a raw code as a monitor-brightness key.
    pub fn try_from(value: u8) -> (r: Result<Monitor, ()>)
        ensures
            r == match spec_monitor_of(value) {
                Some(k) => Ok::<Monitor, ()>(k),
                None => Err::<Monitor, ()>(()),
            },
    {
        Ok(
            match value {
                232 => Monitor::LowerBrightness,
                233 => Monitor::RiseBrightness,
                251 => Monitor::BrightnessCycle,
                _ => {
                    return Err(());
                },
            },
        )
    }
}

impl TouchPad {
    /// Classifies a raw code as a touchpad key.
    pub fn try_from(value: u8) -> (r: Result<TouchPad, ()>)
        ensures
            r == match spec_touchpad_of(value) {
                Some(k) => Ok::<TouchPad, ()>(k),
                None => Err::<TouchPad, ()>(()),
            },
    {
        Ok(
            match value {
                199 => TouchPad::Toggle,
                200 => TouchPad::On,
                201 => TouchPad::Off,
                _ => {
                    return Err(());
                },
            },
        )
    }
}

impl AudioVolume {
    /// Classifies a raw code as a volume key.
    pub fn try_from(value: u8) -> (r: Result<AudioVolume, ()>)
        ensures
            r == match spec_audio_volume_of(value) {
                Some(k) => Ok::<AudioVolume, ()>(k),
                None => Err::<AudioVolume, ()>(()),
            },
    {
        Ok(
            match value {
                121 => AudioVolume::Mute,
                122 => AudioVolume::Lower,
                123 => AudioVolume::Rise,
                _ => {
                    return Err(());
                },
            },
        )
    }
}

impl Audio {
    /// Classifies a raw code as an audio key.
    pub fn try_from(value: u8) -> (r: Result<Audio, ()>)
        ensures
            r == match spec_audio_of(value) {
                Some(k) => Ok::<Audio, ()>(k),
                None => Err::<Audio, ()>(()),
            },
    {
        if let Ok(volume) = AudioVolume::try_from(value) {
            return Ok(Audio::Volume(volume));
        }
        Ok(
            match value {
                172 | 208 | 215 => Audio::Play,
                171 => Audio::Next,
                209 => Audio::Pause,
                174 => Audio::Stop,
                198 => Audio::MuteMicrophone,
                175 => Audio::Record,
                173 => Audio::Prev,
                221 => Audio::Preset,
                176 => Audio::Rewind,
                216 => Audio::Forward,
                234 => Audio::Media,
                _ => {
                    return Err(());
                },
            },
        )
    }
}

impl Functional {
    /// Classifies a raw code as a functional key, trying the audio,
    /// keyboard, monitor and touchpad groups first, in that order.
    pub fn try_from(value: u8) -> (r: Result<Functional, ()>)
        ensures
            r == match spec_functional_of(value) {
                Some(k) => Ok::<Functional, ()>(k),
                None => Err::<Functional, ()>(()),
            },
    {
        if let Ok(audio_key) = Audio::try_from(value) {
            return Ok(Functional::Audio(audio_key));
        }
        if let Ok(kbd_key) = KBD::try_from(value) {
            return Ok(Functional::KBD(kbd_key));
        }
        if let Ok(monitor_key) = Monitor::try_from(value) {
            return Ok(Functional::Monitor(monitor_key));
        }
        if let Ok(touchpad_key) = TouchPad::try_from(value) {
            return Ok(Functional::TouchPad(touchpad_key));
        }
        Ok(
            match value {
                255 => Functional::Kill,
                254 => Functional::WWAN,
                253 => Functional::DisplayOff,
                250 => Functional::PrevVMode,
                249 => Functional::NextVMode,
                247 => Functional::UWB,
                246 => Functional::WLAN,
                245 => Functional::Bluetooth,
                244 => Functional::Battery,
                243 => Functional::Documents,
                242 => Functional::Save,
                241 => Functional::MailFarward,
                240 => Functional::Reply,
                153 | 239 => Functional::Send,
                235 => Functional::Display,
                229 => Functional::Shop,
                228 => Functional::Game,
                227 => Functional::Finance,
                226 => Functional::Go,
                225 => Functional::Search,
                224 => Functional::Messanger,
                163 | 223 => Functional::Mail,
                220 => Functional::WebCamera,
                214 => Functional::Close,
                213 => Functional::Suspend,
                212 => Functional::LaunchB,
                210 | 211 => Functional::Launch(3 + value - 210),
                192..=196 => Functional::Launch(5 + value - 192),
                179 | 191 => Functional::Tools,
                189 => Functional::New,
                186 => Functional::ScrollDown,
                185 => Functional::ScrollUp,
                182 => Functional::Close,
                181 => Functional::Reload,
                180 => Functional::HomePage,
                177 => Functional::Phone,
                169 | 170 => Functional::Eject,
                167 => Functional::Farward,
                166 => Functional::Back,
                165 => Functional::MyComputer,
                164 => Functional::Favourite,
                162 => Functional::TaskPlane,
                161 => Functional::RotateWindows,
                160 => Functional::ScreenSaver,
                159 => Functional::DOS,
                158 => Functional::WWW,
                156 | 157 => Functional::Launch(1 + value - 156),
                155 => Functional::Xref,
                152 => Functional::Explorer,
                151 => Functional::WakeUp,
                150 => Functional::Sleep,
                148 => Functional::Calculator,
                147 => Functional::Menu,
                145 => Functional::Cut,
                143 => Functional::Paste,
                142 => Functional::Open,
                141 => Functional::Copy,
                128 => Functional::LaunchA,
                124 => Functional::PowerOff,
                78 => Functional::ScrollLock,
                _ => {
                    return Err(());
                },
            },
        )
    }
}

impl KeyCode {
    /// Classifies a raw display-server keycode as a symbolic key. Every
    /// code yields a key: one no table lists becomes `Unrecognized`, so
    /// it can be tracked as held without ever matching a chord.
    pub fn from(value: u8) -> (r: KeyCode)
        ensures
            r == spec_keycode_of(value),
    {
        if let Ok(letter) = Letter::try_from(value) {
            return KeyCode::Letter(letter);
        }
        if let Ok(numpad_key) = Numpad::try_from(value) {
            return KeyCode::Numpad(numpad_key);
        }
        if let Ok(modkey) = ModKey::try_from(value) {
            return KeyCode::Modkey(modkey);
        }
        if let Ok(functional_key) = Functional::try_from(value) {
            return KeyCode::Functional(functional_key);
        }
        match value {
            9 => KeyCode::Escape,
            10..=18 => KeyCode::Num(1 + value - 10),
            19 => KeyCode::Num(0),
            22 => KeyCode::BackSpace,
            23 => KeyCode::Tab,
            36 => KeyCode::Return,
            65 => KeyCode::Space,
            66 => KeyCode::CapsLock,
            67..=76 => KeyCode::F(1 + value - 67),
            77 => KeyCode::NumLock,
            95..=96 => KeyCode::F(11 + value - 95),
            107 | 218 => KeyCode::Print,
            110 => KeyCode::Home,
            111 => KeyCode::Up,
            112 => KeyCode::PageUp,
            113 => KeyCode::Left,
            114 => KeyCode::Right,
            115 => KeyCode::End,
            116 => KeyCode::Down,
            117 => KeyCode::PageDown,
            118 => KeyCode::Insert,
            119 => KeyCode::Delete,
            127 => KeyCode::Pause,
            135 => KeyCode::Menu,
            136 => KeyCode::Cancel,
            137 | 190 => KeyCode::Redo,
            138 => KeyCode::SunProps,
            139 => KeyCode::Undo,
            140 => KeyCode::SunFront,
            144 => KeyCode::Find,
            146 => KeyCode::Help,
            _ => KeyCode::Unrecognized(value),
        }
    }
}

/// The decimal label of one digit.
pub open spec fn spec_digit_label(d: int) -> Seq<char> {
    if d == 0 {
        "0"@
    } else if d == 1 {
        "1"@
    } else if d == 2 {
        "2"@
    } else if d == 3 {
        "3"@
    } else if d == 4 {
        "4"@
    } else if d == 5 {
        "5"@
    } else if d == 6 {
        "6"@
    } else if d == 7 {
        "7"@
    } else if d == 8 {
        "8"@
    } else {
        "9"@
    }
}

/// The decimal rendering of a byte, without leading zeros.
pub open spec fn spec_u8_decimal(n: int) -> Seq<char> {
    if n < 10 {
        spec_digit_label(n)
    } else if n < 100 {
        spec_digit_label(n / 10) + spec_digit_label(n % 10)
    } else {
        spec_digit_label(n / 100) + spec_digit_label((n / 10) % 10) + spec_digit_label(n % 10)
    }
}

fn digit_label(d: u8) -> (r: String)
    requires
        d < 10,
    ensures
        r@ == spec_digit_label(d as int),
{
    match d {
        0 => "0",
        1 => "1",
        2 => "2",
        3 => "3",
        4 => "4",
        5 => "5",
        6 => "6",
        7 => "7",
        8 => "8",
        _ => "9",
    }.to_owned()
}

/// Renders a byte in decimal.
pub fn u8_decimal(n: u8) -> (r: String)
    ensures
        r@ == spec_u8_decimal(n as int),
{
    if n < 10 {
        digit_label(n)
    } else if n < 100 {
        digit_label(n / 10).concat(digit_label(n % 10).as_str())
    } else {
        digit_label(n / 100).concat(digit_label((n / 10) % 10).as_str()).concat(
            digit_label(n % 10).as_str(),
        )
    }
}

impl KeyPosition {
    /// The label of this key side.
    pub open spec fn spec_label(self) -> Seq<char> {
        match self {
            KeyPosition::Left => "L"@,
            KeyPosition::Right => "R"@,
        }
    }

    /// Renders the side's label.
    pub fn to_string(&self) -> (r: String)
        ensures
            r@ == self.spec_label(),
    {
        match self {
            KeyPosition::Left => "L",
            KeyPosition::Right => "R",
        }.to_owned()
    }
}

impl Letter {
    /// The label of this letter key.
    pub open spec fn spec_label(self) -> Seq<char> {
        match self {
            Letter::A => "a"@,
            Letter::B => "b"@,
            Letter::C => "c"@,
            Letter::D => "d"@,
            Letter::E => "e"@,
            Letter::F => "f"@,
            Letter::G => "g"@,
            Letter::H => "h"@,
            Letter::I => "i"@,
            Letter::J => "j"@,
            Letter::K => "k"@,
            Letter::L => "l"@,
            Letter::M => "m"@,
            Letter::N => "n"@,
            Letter::O => "o"@,
            Letter::P => "p"@,
            Letter::Q => "q"@,
            Letter::R => "r"@,
            Letter::S => "s"@,
            Letter::T => "t"@,
            Letter::U => "u"@,
            Letter::V => "v"@,
            Letter::W => "w"@,
            Letter::X => "x"@,
            Letter::Y => "y"@,
            Letter::Z => "z"@,
        }
    }

    /// Renders the letter's label.
    pub fn to_string(&self) -> (r: String)
        ensures
            r@ == self.spec_label(),
    {
        match self {
            Letter::A => "a",
            Letter::B => "b",
            Letter::C => "c",
            Letter::D => "d",
            Letter::E => "e",
            Letter::F => "f",
            Letter::G => "g",
            Letter::H => "h",
            Letter::I => "i",
            Letter::J => "j",
            Letter::K => "k",
            Letter::L => "l",
            Letter::M => "m",
            Letter::N => "n",
            Letter::O => "o",
            Letter::P => "p",
            Letter::Q => "q",
            Letter::R => "r",
            Letter::S => "s",
            Letter::T => "t",
            Letter::U => "u",
            Letter::V => "v",
            Letter::W => "w",
            Letter::X => "x",
            Letter::Y => "y",
            Letter::Z => "z",
        }.to_owned()
    }
}

impl ModKey {
    /// The label of this modifier: the side's label and the modifier's
    /// suffix, except the unpaired Hyper key.
    pub open spec fn spec_label(self) -> Seq<char> {
        match self {
            ModKey::Shift(side) => side.spec_label() + "_Sh"@,
            ModKey::Control(side) => side.spec_label() + "_C"@,
            ModKey::Alt(side) => side.spec_label() + "_A"@,
            ModKey::Super(side) => side.spec_label() + "_Sup"@,
            ModKey::Meta(side) => side.spec_label() + "_M"@,
            ModKey::Hyper => "H"@,
        }
    }

    /// Renders the modifier's label.
    pub fn to_string(&self) -> (r: String)
        ensures
            r@ == self.spec_label(),
    {
        match self {
            ModKey::Shift(side) => side.to_string().concat("_Sh"),
            ModKey::Control(side) => side.to_string().concat("_C"),
            ModKey::Alt(side) => side.to_string().concat("_A"),
            ModKey::Super(side) => side.to_string().concat("_Sup"),
            ModKey::Meta(side) => side.to_string().concat("_M"),
            ModKey::Hyper => "H".to_owned(),
        }
    }
}

impl Numpad {
    /// The label of this numpad key.
    pub open spec fn spec_label(self) -> Seq<char> {
        match self {
            Numpad::Num(num) => "N_"@ + spec_u8_decimal(num as int),
            Numpad::Devide => "N_/"@,
            Numpad::Substract => "N_-"@,
            Numpad::Add => "N_+"@,
            Numpad::Multiply => "N_*"@,
            Numpad::NumLock => "N_Lock"@,
            Numpad::Enter => "N_Enter"@,
            Numpad::Equal => "N_="@,
            Numpad::Decimal => "N_."@,
            Numpad::Delete => "N_delete"@,
        }
    }

    /// Renders the numpad key's label.
    pub fn to_string(&self) -> (r: String)
        ensures
            r@ == self.spec_label(),
    {
        match self {
            Numpad::Num(num) => "N_".to_owned().concat(u8_decimal(*num).as_str()),
            Numpad::Devide => "N_/".to_owned(),
            Numpad::Substract => "N_-".to_owned(),
            Numpad::Add => "N_+".to_owned(),
            Numpad::Multiply => "N_*".to_owned(),
            Numpad::NumLock => "N_Lock".to_owned(),
            Numpad::Enter => "N_Enter".to_owned(),
            Numpad::Equal => "N_=".to_owned(),
            Numpad::Decimal => "N_.".to_owned(),
            Numpad::Delete => "N_delete".to_owned(),
        }
    }
}

impl KBD {
    /// The label of this keyboard-backlight key.
    pub open spec fn spec_label(self) -> Seq<char> {
        match self {
            KBD::ToggleLight => "KDB_ToggleLight"@,
            KBD::BrightnessUp => "KDB_Brightness+"@,
            KBD::BrightnessDown => "KDB_Brightness-"@,
        }
    }

    /// Renders the key's label.
    pub fn to_string(&self) -> (r: String)
        ensures
            r@ == self.spec_label(),
    {
        match self {
            KBD::ToggleLight => "KDB_ToggleLight",
            KBD::BrightnessUp => "KDB_Brightness+",
            KBD::BrightnessDown => "KDB_Brightness-",
        }.to_owned()
    }
}

impl Monitor {
    /// The label of this monitor-brightness key.
    pub open spec fn spec_label(self) -> Seq<char> {
        match self {
            Monitor::RiseBrightness => "Mon_Brightness+"@,
            Monitor::LowerBrightness => "Mon_Brightness-"@,
            Monitor::BrightnessCycle => "Mon_Brightness_Cycle"@,
        }
    }

    /// Renders the key's label.
    pub fn to_string(&self) -> (r: String)
        ensures
            r@ == self.spec_label(),
    {
        match self {
            Monitor::RiseBrightness => "Mon_Brightness+",
            Monitor::LowerBrightness => "Mon_Brightness-",
            Monitor::BrightnessCycle => "Mon_Brightness_Cycle",
        }.to_owned()
    }
}

impl TouchPad {
    /// The label of this touchpad key.
    pub open spec fn spec_label(self) -> Seq<char> {
        match self {
            TouchPad::On => "TouchPad_On"@,
            TouchPad::Off => "TouchPad_Off"@,
            TouchPad::Toggle => "TouchPad_Toggle"@,
        }
    }

    /// Renders the key's label.
    pub fn to_string(&self) -> (r: String)
        ensures
            r@ == self.spec_label(),
    {
        match self {
            TouchPad::On => "TouchPad_On",
            TouchPad::Off => "TouchPad_Off",
            TouchPad::Toggle => "TouchPad_Toggle",
        }.to_owned()
    }
}

impl AudioVolume {
    /// The label of this volume key.
    pub open spec fn spec_label(self) -> Seq<char> {
        match self {
            AudioVolume::Lower => "Vol-"@,
            AudioVolume::Rise => "Vol+"@,
            AudioVolume::Mute => "VolMute"@,
        }
    }

    /// Renders the key's label.
    pub fn to_string(&self) -> (r: String)
        ensures
            r@ == self.spec_label(),
    {
        match self {
            AudioVolume::Lower => "Vol-",
            AudioVolume::Rise => "Vol+",
            AudioVolume::Mute => "VolMute",
        }.to_owned()
    }
}

impl Audio {
    /// The label of this audio key.
    pub open spec fn spec_label(self) -> Seq<char> {
        match self {
            Audio::Volume(volume) => "Audio_"@ + volume.spec_label(),
            Audio::Play => "Audio_Play"@,
            Audio::Next => "Audio_Next"@,
            Audio::Prev => "Audio_Prev"@,
            Audio::Stop => "Audio_Stop"@,
            Audio::Pause => "Audio_Pause"@,
            Audio::MuteMicrophone => "Audio_Mute_Micro"@,
            Audio::Record => "Audio_Record"@,
            Audio::Preset => "Audio_Preset"@,
            Audio::Rewind => "Audio_Rewind"@,
            Audio::Forward => "Audio_Forward"@,
            Audio::Media => "Audio_Media"@,
        }
    }

    /// Renders the key's label.
    pub fn to_string(&self) -> (r: String)
        ensures
            r@ == self.spec_label(),
    {
        match self {
            Audio::Volume(volume) => "Audio_".to_owned().concat(volume.to_string().as_str()),
            Audio::Play => "Audio_Play".to_owned(),
            Audio::Next => "Audio_Next".to_owned(),
            Audio::Prev => "Audio_Prev".to_owned(),
            Audio::Stop => "Audio_Stop".to_owned(),
            Audio::Pause => "Audio_Pause".to_owned(),
            Audio::MuteMicrophone => "Audio_Mute_Micro".to_owned(),
            Audio::Record => "Audio_Record".to_owned(),
            Audio::Preset => "Audio_Preset".to_owned(),
            Audio::Rewind => "Audio_Rewind".to_owned(),
            Audio::Forward => "Audio_Forward".to_owned(),
            Audio::Media => "Audio_Media".to_owned(),
        }
    }
}

impl Functional {
    /// The label of this functional key: the grouped keys carry their
    /// group's label under the functional prefix.
    pub open spec fn spec_label(self) -> Seq<char> {
        match self {
            Functional::Audio(audio) => "Fn_"@ + audio.spec_label(),
            Functional::KBD(kbd) => "Fn_"@ + kbd.spec_label(),
            Functional::Monitor(monitor) => "Fn_"@ + monitor.spec_label(),
            Functional::TouchPad(touchpad) => "Fn_"@ + touchpad.spec_label(),
            Functional::Back => "Fn_Back"@,
            Functional::Battery => "Fn_Battery"@,
            Functional::Bluetooth => "Fn_Bluetooth"@,
            Functional::BrightnessAuto => "Fn_BrightnessAuto"@,
            Functional::Calculator => "Fn_Calculator"@,
            Functional::Close => "Fn_Close"@,
            Functional::Copy => "Fn_Copy"@,
            Functional::Cut => "Fn_Cut"@,
            Functional::DOS => "Fn_DOS"@,
            Functional::Display => "Fn_Display"@,
            Functional::DisplayOff => "Fn_Display_Off"@,
            Functional::Documents => "Fn_Documents"@,
            Functional::Eject => "Fn_Eject"@,
            Functional::Explorer => "Fn_Explorer"@,
            Functional::Farward => "Fn_Farward"@,
            Functional::Favourite => "Fn_Favourite"@,
            Functional::Finance => "Fn_Finance"@,
            Functional::Game => "Fn_Game"@,
            Functional::Go => "Fn_Go"@,
            Functional::HomePage => "Fn_Home_Page"@,
            Functional::Kill => "Fn_Kill"@,
            Functional::Launch(_) => "Fn_Launch"@,
            Functional::LaunchA => "Fn_Launch_A"@,
            Functional::LaunchB => "Fn_Launch_B"@,
            Functional::Mail => "Fn_Mail"@,
            Functional::MailFarward => "Fn_Mail_Farward"@,
            Functional::Menu => "Fn_Menu"@,
            Functional::Messanger => "Fn_Messanger"@,
            Functional::MyComputer => "Fn_My_Computer"@,
            Functional::New => "Fn_New"@,
            Functional::NextVMode => "Fn_Next_V_Mode"@,
            Functional::Open => "Fn_Open"@,
            Functional::Paste => "Fn_Paste"@,
            Functional::Phone => "Fn_Phone"@,
            Functional::PowerOff => "Fn_Power_Off"@,
            Functional::PrevVMode => "Fn_Prev_V_Mode"@,
            Functional::Reload => "Fn_Reload"@,
            Functional::Reply => "Fn_Reply"@,
            Functional::RotateWindows => "Fn_Rotate_Windows"@,
            Functional::Save => "Fn_Save"@,
            Functional::ScreenSaver => "Fn_Screen_Saver"@,
            Functional::ScrollDown => "Fn_Scroll_Down"@,
            Functional::ScrollLock => "Fn_Scroll_Lock"@,
            Functional::ScrollUp => "Fn_Scroll_Up"@,
            Functional::Search => "Fn_Search"@,
            Functional::Send => "Fn_Send"@,
            Functional::Shop => "Fn_Shop"@,
            Functional::Sleep => "Fn_Sleep"@,
            Functional::Suspend => "Fn_Suspend"@,
            Functional::TaskPlane => "Fn_Task_Plane"@,
            Functional::Tools => "Fn_Tools"@,
            Functional::UWB => "Fn_UWB"@,
            Functional::WLAN => "Fn_WLAN"@,
            Functional::WWAN => "Fn_WWAN"@,
            Functional::WWW => "Fn_WW"@,
            Functional::WakeUp => "Fn_Wake_Up"@,
            Functional::WebCamera => "Fn_Web_Camera"@,
            Functional::Xref => "Fn_Xref"@,
        }
    }

    /// Renders the key's label.
    pub fn to_string(&self) -> (r: String)
        ensures
            r@ == self.spec_label(),
    {
        match self {
            Functional::Audio(audio) => "Fn_".to_owned().concat(audio.to_string().as_str()),
            Functional::KBD(kbd) => "Fn_".to_owned().concat(kbd.to_string().as_str()),
            Functional::Monitor(monitor) => "Fn_".to_owned().concat(monitor.to_string().as_str()),
            Functional::TouchPad(touchpad) => "Fn_".to_owned().concat(
                touchpad.to_string().as_str(),
            ),
            Functional::Back => "Fn_Back".to_owned(),
            Functional::Battery => "Fn_Battery".to_owned(),
            Functional::Bluetooth => "Fn_Bluetooth".to_owned(),
            Functional::BrightnessAuto => "Fn_BrightnessAuto".to_owned(),
            Functional::Calculator => "Fn_Calculator".to_owned(),
            Functional::Close => "Fn_Close".to_owned(),
            Functional::Copy => "Fn_Copy".to_owned(),
            Functional::Cut => "Fn_Cut".to_owned(),
            Functional::DOS => "Fn_DOS".to_owned(),
            Functional::Display => "Fn_Display".to_owned(),
            Functional::DisplayOff => "Fn_Display_Off".to_owned(),
            Functional::Documents => "Fn_Documents".to_owned(),
            Functional::Eject => "Fn_Eject".to_owned(),
            Functional::Explorer => "Fn_Explorer".to_owned(),
            Functional::Farward => "Fn_Farward".to_owned(),
            Functional::Favourite => "Fn_Favourite".to_owned(),
            Functional::Finance => "Fn_Finance".to_owned(),
            Functional::Game => "Fn_Game".to_owned(),
            Functional::Go => "Fn_Go".to_owned(),
            Functional::HomePage => "Fn_Home_Page".to_owned(),
            Functional::Kill => "Fn_Kill".to_owned(),
            Functional::Launch(_) => "Fn_Launch".to_owned(),
            Functional::LaunchA => "Fn_Launch_A".to_owned(),
            Functional::LaunchB => "Fn_Launch_B".to_owned(),
            Functional::Mail => "Fn_Mail".to_owned(),
            Functional::MailFarward => "Fn_Mail_Farward".to_owned(),
            Functional::Menu => "Fn_Menu".to_owned(),
            Functional::Messanger => "Fn_Messanger".to_owned(),
            Functional::MyComputer => "Fn_My_Computer".to_owned(),
            Functional::New => "Fn_New".to_owned(),
            Functional::NextVMode => "Fn_Next_V_Mode".to_owned(),
            Functional::Open => "Fn_Open".to_owned(),
            Functional::Paste => "Fn_Paste".to_owned(),
            Functional::Phone => "Fn_Phone".to_owned(),
            Functional::PowerOff => "Fn_Power_Off".to_owned(),
            Functional::PrevVMode => "Fn_Prev_V_Mode".to_owned(),
            Functional::Reload => "Fn_Reload".to_owned(),
            Functional::Reply => "Fn_Reply".to_owned(),
            Functional::RotateWindows => "Fn_Rotate_Windows".to_owned(),
            Functional::Save => "Fn_Save".to_owned(),
            Functional::ScreenSaver => "Fn_Screen_Saver".to_owned(),
            Functional::ScrollDown => "Fn_Scroll_Down".to_owned(),
            Functional::ScrollLock => "Fn_Scroll_Lock".to_owned(),
            Functional::ScrollUp => "Fn_Scroll_Up".to_owned(),
            Functional::Search => "Fn_Search".to_owned(),
            Functional::Send => "Fn_Send".to_owned(),
            Functional::Shop => "Fn_Shop".to_owned(),
            Functional::Sleep => "Fn_Sleep".to_owned(),
            Functional::Suspend => "Fn_Suspend".to_owned(),
            Functional::TaskPlane => "Fn_Task_Plane".to_owned(),
            Functional::Tools => "Fn_Tools".to_owned(),
            Functional::UWB => "Fn_UWB".to_owned(),
            Functional::WLAN => "Fn_WLAN".to_owned(),
            Functional::WWAN => "Fn_WWAN".to_owned(),
            Functional::WWW => "Fn_WW".to_owned(),
            Functional::WakeUp => "Fn_Wake_Up".to_owned(),
            Functional::WebCamera => "Fn_Web_Camera".to_owned(),
            Functional::Xref => "Fn_Xref".to_owned(),
        }
    }
}

/// The key a configuration token names: the letter labels, the modifier
/// labels, and the navigation and editing keys under their own names.
/// Any other token names no key.
pub open spec fn spec_key_of_label(s: Seq<char>) -> Option<KeyCode> {
    if s == "a"@ {
        Some(KeyCode::Letter(Letter::A))
    } else if s == "b"@ {
        Some(KeyCode::Letter(Letter::B))
    } else if s == "c"@ {
        Some(KeyCode::Letter(Letter::C))
    } else if s == "d"@ {
        Some(KeyCode::Letter(Letter::D))
    } else if s == "e"@ {
        Some(KeyCode::Letter(Letter::E))
    } else if s == "f"@ {
        Some(KeyCode::Letter(Letter::F))
    } else if s == "g"@ {
        Some(KeyCode::Letter(Letter::G))
    } else if s == "h"@ {
        Some(KeyCode::Letter(Letter::H))
    } else if s == "i"@ {
        Some(KeyCode::Letter(Letter::I))
    } else if s == "j"@ {
        Some(KeyCode::Letter(Letter::J))
    } else if s == "k"@ {
        Some(KeyCode::Letter(Letter::K))
    } else if s == "l"@ {
        Some(KeyCode::Letter(Letter::L))
    } else if s == "m"@ {
        Some(KeyCode::Letter(Letter::M))
    } else if s == "n"@ {
        Some(KeyCode::Letter(Letter::N))
    } else if s == "o"@ {
        Some(KeyCode::Letter(Letter::O))
    } else if s == "p"@ {
        Some(KeyCode::Letter(Letter::P))
    } else if s == "q"@ {
        Some(KeyCode::Letter(Letter::Q))
    } else if s == "r"@ {
        Some(KeyCode::Letter(Letter::R))
    } else if s == "s"@ {
        Some(KeyCode::Letter(Letter::S))
    } else if s == "t"@ {
        Some(KeyCode::Letter(Letter::T))
    } else if s == "u"@ {
        Some(KeyCode::Letter(Letter::U))
    } else if s == "v"@ {
        Some(KeyCode::Letter(Letter::V))
    } else if s == "w"@ {
        Some(KeyCode::Letter(Letter::W))
    } else if s == "x"@ {
        Some(KeyCode::Letter(Letter::X))
    } else if s == "y"@ {
        Some(KeyCode::Letter(Letter::Y))
    } else if s == "z"@ {
        Some(KeyCode::Letter(Letter::Z))
    } else if s == "L_Sh"@ {
        Some(KeyCode::Modkey(ModKey::Shift(KeyPosition::Left)))
    } else if s == "R_Sh"@ {
        Some(KeyCode::Modkey(ModKey::Shift(KeyPosition::Right)))
    } else if s == "L_C"@ {
        Some(KeyCode::Modkey(ModKey::Control(KeyPosition::Left)))
    } else if s == "R_C"@ {
        Some(KeyCode::Modkey(ModKey::Control(KeyPosition::Right)))
    } else if s == "L_A"@ {
        Some(KeyCode::Modkey(ModKey::Alt(KeyPosition::Left)))
    } else if s == "R_A"@ {
        Some(KeyCode::Modkey(ModKey::Alt(KeyPosition::Right)))
    } else if s == "L_Sup"@ {
        Some(KeyCode::Modkey(ModKey::Super(KeyPosition::Left)))
    } else if s == "R_Sup"@ {
        Some(KeyCode::Modkey(ModKey::Super(KeyPosition::Right)))
    } else if s == "L_M"@ {
        Some(KeyCode::Modkey(ModKey::Meta(KeyPosition::Left)))
    } else if s == "H"@ {
        Some(KeyCode::Modkey(ModKey::Hyper))
    } else if s == "Return"@ {
        Some(KeyCode::Return)
    } else if s == "Space"@ {
        Some(KeyCode::Space)
    } else if s == "Tab"@ {
        Some(KeyCode::Tab)
    } else if s == "Escape"@ {
        Some(KeyCode::Escape)
    } else if s == "BackSpace"@ {
        Some(KeyCode::BackSpace)
    } else if s == "CapsLock"@ {
        Some(KeyCode::CapsLock)
    } else if s == "NumLock"@ {
        Some(KeyCode::NumLock)
    } else if s == "Delete"@ {
        Some(KeyCode::Delete)
    } else if s == "Insert"@ {
        Some(KeyCode::Insert)
    } else if s == "Home"@ {
        Some(KeyCode::Home)
    } else if s == "End"@ {
        Some(KeyCode::End)
    } else if s == "Up"@ {
        Some(KeyCode::Up)
    } else if s == "Down"@ {
        Some(KeyCode::Down)
    } else if s == "Left"@ {
        Some(KeyCode::Left)
    } else if s == "Right"@ {
        Some(KeyCode::Right)
    } else if s == "PageUp"@ {
        Some(KeyCode::PageUp)
    } else if s == "PageDown"@ {
        Some(KeyCode::PageDown)
    } else if s == "Print"@ {
        Some(KeyCode::Print)
    } else if s == "Pause"@ {
        Some(KeyCode::Pause)
    } else if s == "Menu"@ {
        Some(KeyCode::Menu)
    } else if s == "Cancel"@ {
        Some(KeyCode::Cancel)
    } else if s == "Redo"@ {
        Some(KeyCode::Redo)
    } else if s == "Undo"@ {
        Some(KeyCode::Undo)
    } else if s == "Find"@ {
        Some(KeyCode::Find)
    } else if s == "Help"@ {
        Some(KeyCode::Help)
    } else {
        None
    }
}

/// Looks a configuration token up as a key name.
pub fn key_from_label(s: &str) -> (r: Option<KeyCode>)
    ensures
        r == spec_key_of_label(s@),
{
    let t = s.to_owned();
    if t == "a".to_owned() {
        Some(KeyCode::Letter(Letter::A))
    } else if t == "b".to_owned() {
        Some(KeyCode::Letter(Letter::B))
    } else if t == "c".to_owned() {
        Some(KeyCode::Letter(Letter::C))
    } else if t == "d".to_owned() {
        Some(KeyCode::Letter(Letter::D))
    } else if t == "e".to_owned() {
        Some(KeyCode::Letter(Letter::E))
    } else if t == "f".to_owned() {
        Some(KeyCode::Letter(Letter::F))
    } else if t == "g".to_owned() {
        Some(KeyCode::Letter(Letter::G))
    } else if t == "h".to_owned() {
        Some(KeyCode::Letter(Letter::H))
    } else if t == "i".to_owned() {
        Some(KeyCode::Letter(Letter::I))
    } else if t == "j".to_owned() {
        Some(KeyCode::Letter(Letter::J))
    } else if t == "k".to_owned() {
        Some(KeyCode::Letter(Letter::K))
    } else if t == "l".to_owned() {
        Some(KeyCode::Letter(Letter::L))
    } else if t == "m".to_owned() {
        Some(KeyCode::Letter(Letter::M))
    } else if t == "n".to_owned() {
        Some(KeyCode::Letter(Letter::N))
    } else if t == "o".to_owned() {
        Some(KeyCode::Letter(Letter::O))
    } else if t == "p".to_owned() {
        Some(KeyCode::Letter(Letter::P))
    } else if t == "q".to_owned() {
        Some(KeyCode::Letter(Letter::Q))
    } else if t == "r".to_owned() {
        Some(KeyCode::Letter(Letter::R))
    } else if t == "s".to_owned() {
        Some(KeyCode::Letter(Letter::S))
    } else if t == "t".to_owned() {
        Some(KeyCode::Letter(Letter::T))
    } else if t == "u".to_owned() {
        Some(KeyCode::Letter(Letter::U))
    } else if t == "v".to_owned() {
        Some(KeyCode::Letter(Letter::V))
    } else if t == "w".to_owned() {
        Some(KeyCode::Letter(Letter::W))
    } else if t == "x".to_owned() {
        Some(KeyCode::Letter(Letter::X))
    } else if t == "y".to_owned() {
        Some(KeyCode::Letter(Letter::Y))
    } else if t == "z".to_owned() {
        Some(KeyCode::Letter(Letter::Z))
    } else if t == "L_Sh".to_owned() {
        Some(KeyCode::Modkey(ModKey::Shift(KeyPosition::Left)))
    } else if t == "R_Sh".to_owned() {
        Some(KeyCode::Modkey(ModKey::Shift(KeyPosition::Right)))
    } else if t == "L_C".to_owned() {
        Some(KeyCode::Modkey(ModKey::Control(KeyPosition::Left)))
    } else if t == "R_C".to_owned() {
        Some(KeyCode::Modkey(ModKey::Control(KeyPosition::Right)))
    } else if t == "L_A".to_owned() {
        Some(KeyCode::Modkey(ModKey::Alt(KeyPosition::Left)))
    } else if t == "R_A".to_owned() {
        Some(KeyCode::Modkey(ModKey::Alt(KeyPosition::Right)))
    } else if t == "L_Sup".to_owned() {
        Some(KeyCode::Modkey(ModKey::Super(KeyPosition::Left)))
    } else if t == "R_Sup".to_owned() {
        Some(KeyCode::Modkey(ModKey::Super(KeyPosition::Right)))
    } else if t == "L_M".to_owned() {
        Some(KeyCode::Modkey(ModKey::Meta(KeyPosition::Left)))
    } else if t == "H".to_owned() {
        Some(KeyCode::Modkey(ModKey::Hyper))
    } else if t == "Return".to_owned() {
        Some(KeyCode::Return)
    } else if t == "Space".to_owned() {
        Some(KeyCode::Space)
    } else if t == "Tab".to_owned() {
        Some(KeyCode::Tab)
    } else if t == "Escape".to_owned() {
        Some(KeyCode::Escape)
    } else if t == "BackSpace".to_owned() {
        Some(KeyCode::BackSpace)
    } else if t == "CapsLock".to_owned() {
        Some(KeyCode::CapsLock)
    } else if t == "NumLock".to_owned() {
        Some(KeyCode::NumLock)
    } else if t == "Delete".to_owned() {
        Some(KeyCode::Delete)
    } else if t == "Insert".to_owned() {
        Some(KeyCode::Insert)
    } else if t == "Home".to_owned() {
        Some(KeyCode::Home)
    } else if t == "End".to_owned() {
        Some(KeyCode::End)
    } else if t == "Up".to_owned() {
        Some(KeyCode::Up)
    } else if t == "Down".to_owned() {
        Some(KeyCode::Down)
    } else if t == "Left".to_owned() {
        Some(KeyCode::Left)
    } else if t == "Right".to_owned() {
        Some(KeyCode::Right)
    } else if t == "PageUp".to_owned() {
        Some(KeyCode::PageUp)
    } else if t == "PageDown".to_owned() {
        Some(KeyCode::PageDown)
    } else if t == "Print".to_owned() {
        Some(KeyCode::Print)
    } else if t == "Pause".to_owned() {
        Some(KeyCode::Pause)
    } else if t == "Menu".to_owned() {
        Some(KeyCode::Menu)
    } else if t == "Cancel".to_owned() {
        Some(KeyCode::Cancel)
    } else if t == "Redo".to_owned() {
        Some(KeyCode::Redo)
    } else if t == "Undo".to_owned() {
        Some(KeyCode::Undo)
    } else if t == "Find".to_owned() {
        Some(KeyCode::Find)
    } else if t == "Help".to_owned() {
        Some(KeyCode::Help)
    } else {
        None
    }
}

} // verus!
