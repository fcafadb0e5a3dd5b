//! Global hotkeys: the keys, the terminal key codes that name them, and the
//! handler that tracks modifier keys and turns a bound key combination into
//! a command.
use vstd::prelude::*;

use crate::control::Action;

verus! {

/// A key of the keyboard, as the global key listener reports it.
#[derive(Clone, Copy, Debug, PartialEq, Eq, Structural)]
pub enum Key {
    Alt,
    AltGr,
    Backspace,
    CapsLock,
    ControlLeft,
    ControlRight,
    Delete,
    DownArrow,
    End,
    Escape,
    F1,
    F10,
    F11,
    F12,
    F2,
    F3,
    F4,
    F5,
    F6,
    F7,
    F8,
    F9,
    Home,
    LeftArrow,
    MetaLeft,
    MetaRight,
    PageDown,
    PageUp,
    Return,
    RightArrow,
    ShiftLeft,
    ShiftRight,
    Space,
    Tab,
    UpArrow,
    PrintScreen,
    ScrollLock,
    Pause,
    NumLock,
    BackQuote,
    Num1,
    Num2,
    Num3,
    Num4,
    Num5,
    Num6,
    Num7,
    Num8,
    Num9,
    Num0,
    Minus,
    Equal,
    KeyQ,
    KeyW,
    KeyE,
    KeyR,
    KeyT,
    KeyY,
    KeyU,
    KeyI,
    KeyO,
    KeyP,
    LeftBracket,
    RightBracket,
    KeyA,
    KeyS,
    KeyD,
    KeyF,
    KeyG,
    KeyH,
    KeyJ,
    KeyK,
    KeyL,
    SemiColon,
    Quote,
    BackSlash,
    IntlBackslash,
    KeyZ,
    KeyX,
    KeyC,
    KeyV,
    KeyB,
    KeyN,
    KeyM,
    Comma,
    Dot,
    Slash,
    Insert,
    KpReturn,
    KpMinus,
    KpPlus,
    KpMultiply,
    KpDivide,
    Kp0,
    Kp1,
    Kp2,
    Kp3,
    Kp4,
    Kp5,
    Kp6,
    Kp7,
    Kp8,
    Kp9,
    KpDelete,
    Function,
    Unknown(u32),
}

/// A key as the terminal reports it while the editor takes input.
#[derive(Clone, Copy, Debug, PartialEq, Eq, Structural)]
pub enum TermKey {
    F(u8),
    Backspace,
    CapsLock,
    Delete,
    Left,
    Right,
    Down,
    Up,
    End,
    Enter,
    Insert,
    Esc,
    Home,
    NumLock,
    PageDown,
    PageUp,
    PrintScreen,
    Pause,
    Tab,
    Char(char),
    Other,
}

/// The global key that a terminal key stands for, where there is one.
pub open spec fn key_for(code: TermKey) -> Option<Key> {
    match code {
        TermKey::F(n) => match n {
            1 => Some(Key::F1),
            2 => Some(Key::F2),
            3 => Some(Key::F3),
            4 => Some(Key::F4),
            5 => Some(Key::F5),
            6 => Some(Key::F6),
            7 => Some(Key::F7),
            8 => Some(Key::F8),
            9 => Some(Key::F9),
            10 => Some(Key::F10),
            11 => Some(Key::F11),
            12 => Some(Key::F12),
            _ => None,
        },
        TermKey::Backspace => Some(Key::Backspace),
        TermKey::CapsLock => Some(Key::CapsLock),
        TermKey::Delete => Some(Key::Delete),
        TermKey::Left => Some(Key::LeftArrow),
        TermKey::Right => Some(Key::RightArrow),
        TermKey::Down => Some(Key::DownArrow),
        TermKey::Up => Some(Key::UpArrow),
        TermKey::End => Some(Key::End),
        TermKey::Enter => Some(Key::Return),
        TermKey::Insert => Some(Key::Insert),
        TermKey::Esc => Some(Key::Escape),
        TermKey::Home => Some(Key::Home),
        TermKey::NumLock => Some(Key::NumLock),
        TermKey::PageDown => Some(Key::PageDown),
        TermKey::PageUp => Some(Key::PageUp),
        TermKey::PrintScreen => Some(Key::PrintScreen),
        TermKey::Pause => Some(Key::Pause),
        TermKey::Tab => Some(Key::Tab),
        TermKey::Char(c) => match c {
            'a' => Some(Key::KeyA),
            'b' => Some(Key::KeyB),
            'c' => Some(Key::KeyC),
            'd' => Some(Key::KeyD),
            'e' => Some(Key::KeyE),
            'f' => Some(Key::KeyF),
            'g' => Some(Key::KeyG),
            'h' => Some(Key::KeyH),
            'i' => Some(Key::KeyI),
            'j' => Some(Key::KeyJ),
            'k' => Some(Key::KeyK),
            'l' => Some(Key::KeyL),
            'm' => Some(Key::KeyM),
            'n' => Some(Key::KeyN),
            'o' => Some(Key::KeyO),
            'p' => Some(Key::KeyP),
            'q' => Some(Key::KeyQ),
            'r' => Some(Key::KeyR),
            's' => Some(Key::KeyS),
            't' => Some(Key::KeyT),
            'u' => Some(Key::KeyU),
            'v' => Some(Key::KeyV),
            'w' => Some(Key::KeyW),
            'x' => Some(Key::KeyX),
            'y' => Some(Key::KeyY),
            'z' => Some(Key::KeyZ),
            '0' => Some(Key::Num0),
            '1' => Some(Key::Num1),
            '2' => Some(Key::Num2),
            '3' => Some(Key::Num3),
            '4' => Some(Key::Num4),
            '5' => Some(Key::Num5),
            '6' => Some(Key::Num6),
            '7' => Some(Key::Num7),
            '8' => Some(Key::Num8),
            '9' => Some(Key::Num9),
            _ => None,
        },
        TermKey::Other => None,
    }
}

/// The global key that a terminal key stands for: function keys one to
/// twelve, the named editing and navigation keys, letters and digits.
pub fn map_key(code: TermKey) -> (r: Option<Key>)
    requires
        code matches TermKey::F(n) ==> 1 <= n <= 12,
    ensures
        r == key_for(code),
{
    match code {
        TermKey::F(n) => match n {
            1 => Some(Key::F1),
            2 => Some(Key::F2),
            3 => Some(Key::F3),
            4 => Some(Key::F4),
            5 => Some(Key::F5),
            6 => Some(Key::F6),
            7 => Some(Key::F7),
            8 => Some(Key::F8),
            9 => Some(Key::F9),
            10 => Some(Key::F10),
            11 => Some(Key::F11),
            12 => Some(Key::F12),
            _ => None,
        },
        TermKey::Backspace => Some(Key::Backspace),
        TermKey::CapsLock => Some(Key::CapsLock),
        TermKey::Delete => Some(Key::Delete),
        TermKey::Left => Some(Key::LeftArrow),
        TermKey::Right => Some(Key::RightArrow),
        TermKey::Down => Some(Key::DownArrow),
        TermKey::Up => Some(Key::UpArrow),
        TermKey::End => Some(Key::End),
        TermKey::Enter => Some(Key::Return),
        TermKey::Insert => Some(Key::Insert),
        TermKey::Esc => Some(Key::Escape),
        TermKey::Home => Some(Key::Home),
        TermKey::NumLock => Some(Key::NumLock),
        TermKey::PageDown => Some(Key::PageDown),
        TermKey::PageUp => Some(Key::PageUp),
        TermKey::PrintScreen => Some(Key::PrintScreen),
        TermKey::Pause => Some(Key::Pause),
        TermKey::Tab => Some(Key::Tab),
        TermKey::Char(c) => match c {
            'a' => Some(Key::KeyA),
            'b' => Some(Key::KeyB),
            'c' => Some(Key::KeyC),
            'd' => Some(Key::KeyD),
            'e' => Some(Key::KeyE),
            'f' => Some(Key::KeyF),
            'g' => Some(Key::KeyG),
            'h' => Some(Key::KeyH),
            'i' => Some(Key::KeyI),
            'j' => Some(Key::KeyJ),
            'k' => Some(Key::KeyK),
            'l' => Some(Key::KeyL),
            'm' => Some(Key::KeyM),
            'n' => Some(Key::KeyN),
            'o' => Some(Key::KeyO),
            'p' => Some(Key::KeyP),
            'q' => Some(Key::KeyQ),
            'r' => Some(Key::KeyR),
            's' => Some(Key::KeyS),
            't' => Some(Key::KeyT),
            'u' => Some(Key::KeyU),
            'v' => Some(Key::KeyV),
            'w' => Some(Key::KeyW),
            'x' => Some(Key::KeyX),
            'y' => Some(Key::KeyY),
            'z' => Some(Key::KeyZ),
            '0' => Some(Key::Num0),
            '1' => Some(Key::Num1),
            '2' => Some(Key::Num2),
            '3' => Some(Key::Num3),
            '4' => Some(Key::Num4),
            '5' => Some(Key::Num5),
            '6' => Some(Key::Num6),
            '7' => Some(Key::Num7),
            '8' => Some(Key::Num8),
            '9' => Some(Key::Num9),
            _ => None,
        },
        TermKey::Other => None,
    }
}

/// A key bound to a command, with the modifiers that must be held with it.
#[derive(Clone, Copy, Debug, PartialEq, Eq, Structural)]
pub struct Keybind {
    pub shift: bool,
    pub ctrl: bool,
    pub alt: bool,
    pub key: Key,
    pub action: Action,
}

impl Keybind {
    /// A binding of `key` with Ctrl and Alt held.
    pub fn default_keybind(key: Key, action: Action) -> (r: Keybind)
        ensures
            r == (Keybind { shift: false, ctrl: true, alt: true, key, action }),
    {
        Keybind { shift: false, ctrl: true, alt: true, key, action }
    }
}

/// Whether binding `b` is for `key` with exactly these modifiers held.
pub open spec fn binds(b: Keybind, shift: bool, ctrl: bool, alt: bool, key: Key) -> bool {
    b.shift == shift && b.ctrl == ctrl && b.alt == alt && b.key == key
}

/// The command bound to the combination: the latest binding of it wins.
pub open spec fn bound_action(bindings: Seq<Keybind>, shift: bool, ctrl: bool, alt: bool, key: Key) -> Option<Action>
    decreases bindings.len(),
{
    if bindings.len() == 0 {
        None
    } else if binds(bindings.last(), shift, ctrl, alt, key) {
        Some(bindings.last().action)
    } else {
        bound_action(bindings.drop_last(), shift, ctrl, alt, key)
    }
}

/// Tracks which modifier keys are held and finds the command bound to each
/// key pressed.
pub struct HotkeyHandler {
    shift: bool,
    ctrl: bool,
    alt: bool,
    bindings: Vec<Keybind>,
}

impl HotkeyHandler {
    pub closed spec fn modifiers(&self) -> (bool, bool, bool) {
        (self.shift, self.ctrl, self.alt)
    }

    pub closed spec fn bindings(&self) -> Seq<Keybind> {
        self.bindings@
    }

    /// A handler with no modifier held and nothing bound.
    pub fn new() -> (r: HotkeyHandler)
        ensures
            r.modifiers() == (false, false, false),
            r.bindings() == Seq::<Keybind>::empty(),
    {
        HotkeyHandler { shift: false, ctrl: false, alt: false, bindings: Vec::new() }
    }

    /// Adds `bindings`; a combination bound again takes its newest command.
    pub fn set_keybinds(&mut self, bindings: Vec<Keybind>)
        ensures
            final(self).modifiers() == old(self).modifiers(),
            final(self).bindings() == old(self).bindings() + bindings@,
    {
        let mut added = bindings;
        self.bindings.append(&mut added);
    }

    /// Takes in one key going down (`pressed`) or up. A modifier key only
    /// updates what is held; any other key, when pressed, yields the command
    /// bound to it with the modifiers held now.
    pub fn emit_event(&mut self, key: Key, pressed: bool) -> (r: Option<Action>)
        ensures
            final(self).bindings() == old(self).bindings(),
            final(self).modifiers() == (match key {
                Key::ShiftLeft | Key::ShiftRight => (pressed, old(self).modifiers().1, old(self).modifiers().2),
                Key::ControlLeft | Key::ControlRight => (old(self).modifiers().0, pressed, old(self).modifiers().2),
                Key::Alt => (old(self).modifiers().0, old(self).modifiers().1, pressed),
                _ => old(self).modifiers(),
            }),
            r == (match key {
                Key::ShiftLeft | Key::ShiftRight | Key::ControlLeft | Key::ControlRight | Key::Alt => None,
                _ => if pressed {
                    bound_action(old(self).bindings(), old(self).modifiers().0, old(self).modifiers().1, old(self).modifiers().2, key)
                } else {
                    None
                },
            }),
    {
        match key {
            Key::ShiftLeft | Key::ShiftRight => {
                self.shift = pressed;
                None
            },
            Key::ControlLeft | Key::ControlRight => {
                self.ctrl = pressed;
                None
            },
            Key::Alt => {
                self.alt = pressed;
                None
            },
            _ => {
                if pressed {
                    self.lookup(key)
                } else {
                    None
                }
            },
        }
    }

    fn lookup(&self, key: Key) -> (r: Option<Action>)
        ensures
            r == bound_action(self.bindings@, self.shift, self.ctrl, self.alt, key),
    {
        let mut i: usize = self.bindings.len();
        assert(self.bindings@.take(i as int) =~= self.bindings@);
        while i > 0
            invariant
                i <= self.bindings@.len(),
                bound_action(self.bindings@, self.shift, self.ctrl, self.alt, key) == bound_action(
                    self.bindings@.take(i as int),
                    self.shift,
                    self.ctrl,
                    self.alt,
                    key,
                ),
            decreases i,
        {
            let b = self.bindings[i - 1];
            assert(self.bindings@.take(i as int).last() == b);
            assert(self.bindings@.take(i as int).drop_last() =~= self.bindings@.take(i - 1));
            if b.shift == self.shift && b.ctrl == self.ctrl && b.alt == self.alt && b.key == key {
                return Some(b.action);
            }
            i = i - 1;
        }
        None
    }
}

} // verus!
