//! Key presses: what a terminal sends for each key, and how the bytes read
//! from it decode into commands for the editor.
//!
//! A decoder looks at the bytes read so far for one key press. It answers
//! `None` while the bytes read so far do not yet decide the key (one more
//! byte must be read), and `Some(command)` once they do. The reader reads one
//! byte at a time and stops at the first `Some`, so a key press consumes
//! exactly the bytes that decide it.

use vstd::prelude::*;

verus! {

/// Editing and navigation keys.
#[derive(Clone, Copy, Debug, PartialEq, Eq, Structural)]
pub enum ControlKey {
    Up,
    Down,
    Left,
    Right,
    Start,
    End,
    Top,
    Bottom,
    Backspace,
    Delete,
}

/// One decoded key press.
#[derive(Clone, Copy, Debug, PartialEq, Eq, Structural)]
pub enum Command {
    /// A navigation or editing key; `ctrl` tells whether Ctrl was held.
    Control { ctrl: bool, key: ControlKey },
    Tab,
    Enter,
    CtrlC,
    /// A printable ASCII character.
    Printable(u8),
    /// A byte that ends a sequence the editor does not know.
    Unsupported(u8),
}

pub open spec fn ctl(ctrl: bool, key: ControlKey) -> Command {
    Command::Control { ctrl, key }
}

/// Printable ASCII: ASCII and not a control character.
pub open spec fn is_printable(b: u8) -> bool {
    0x20 <= b <= 0x7e
}

/// The key named by the last byte of an ANSI cursor sequence (`ESC [ A` and so on).
pub open spec fn csi_arrow(b: u8) -> Option<ControlKey> {
    if b == 0x41 {
        Some(ControlKey::Up)
    } else if b == 0x42 {
        Some(ControlKey::Down)
    } else if b == 0x43 {
        Some(ControlKey::Right)
    } else if b == 0x44 {
        Some(ControlKey::Left)
    } else if b == 0x48 {
        Some(ControlKey::Start)
    } else if b == 0x46 {
        Some(ControlKey::End)
    } else {
        None
    }
}

/// The key named by the digit of an ANSI sequence that ends in `~` (`ESC [ 3 ~` and so on).
pub open spec fn csi_tilde(b: u8) -> Option<ControlKey> {
    if b == 0x33 {
        Some(ControlKey::Delete)
    } else if b == 0x35 {
        Some(ControlKey::Top)
    } else if b == 0x36 {
        Some(ControlKey::Bottom)
    } else {
        None
    }
}

/// Whether the modifier digit `m` in the `~` sequence of the key with digit
/// `b` holds Ctrl, when the editor knows that modifier:
/// `ESC [ 3 ; 5 ~` is Ctrl+Delete and `ESC [ 3 ; 2 ~` (Shift+Delete) is Delete;
/// `ESC [ 5 ; 2 ~` and `ESC [ 6 ; 2 ~` are the page keys with Ctrl.
pub open spec fn csi_tilde_modifier(b: u8, m: u8) -> Option<bool> {
    if b == 0x33 && m == 0x35 {
        Some(true)
    } else if b == 0x33 && m == 0x32 {
        Some(false)
    } else if (b == 0x35 || b == 0x36) && m == 0x32 {
        Some(true)
    } else {
        None
    }
}

/// What the bytes `s` decode to on a Unix terminal.
pub open spec fn unix_key(s: Seq<u8>) -> Option<Command> {
    if s.len() == 0 {
        None
    } else if s[0] == 3 {
        Some(Command::CtrlC)
    } else if s[0] == 0x7f {
        Some(ctl(false, ControlKey::Backspace))
    } else if s[0] == 8 {
        Some(ctl(true, ControlKey::Backspace))
    } else if s[0] == 0x0a {
        Some(Command::Enter)
    } else if s[0] == 0x09 {
        Some(Command::Tab)
    } else if s[0] == 0x1b {
        unix_escape(s)
    } else if is_printable(s[0]) {
        Some(Command::Printable(s[0]))
    } else {
        Some(Command::Unsupported(s[0]))
    }
}

/// What the bytes `s`, which start with ESC, decode to on a Unix terminal.
pub open spec fn unix_escape(s: Seq<u8>) -> Option<Command> {
    if s.len() < 2 {
        None
    } else if s[1] != 0x5b {
        Some(Command::Unsupported(s[1]))
    } else if s.len() < 3 {
        None
    } else if csi_arrow(s[2]) is Some {
        Some(ctl(false, csi_arrow(s[2])->0))
    } else if s[2] == 0x31 {
        // ESC [ 1 ; 5 <arrow>: the arrow with Ctrl
        if s.len() < 4 {
            None
        } else if s[3] != 0x3b {
            Some(Command::Unsupported(s[3]))
        } else if s.len() < 5 {
            None
        } else if s[4] != 0x35 {
            Some(Command::Unsupported(s[4]))
        } else if s.len() < 6 {
            None
        } else if csi_arrow(s[5]) is Some {
            Some(ctl(true, csi_arrow(s[5])->0))
        } else {
            Some(Command::Unsupported(s[5]))
        }
    } else if csi_tilde(s[2]) is Some {
        let key = csi_tilde(s[2])->0;
        if s.len() < 4 {
            None
        } else if s[3] == 0x7e {
            Some(ctl(false, key))
        } else if s[3] != 0x3b {
            Some(Command::Unsupported(s[3]))
        } else if s.len() < 5 {
            None
        } else if csi_tilde_modifier(s[2], s[4]) is None {
            Some(Command::Unsupported(s[4]))
        } else if s.len() < 6 {
            None
        } else if s[5] == 0x7e {
            Some(ctl(csi_tilde_modifier(s[2], s[4])->0, key))
        } else {
            Some(Command::Unsupported(s[5]))
        }
    } else {
        Some(Command::Unsupported(s[2]))
    }
}

/// The command that the second byte of a Windows extended key (after 0xE0) names.
pub open spec fn windows_extended(b: u8) -> Command {
    if b == 0x48 {
        ctl(false, ControlKey::Up)
    } else if b == 0x8d {
        ctl(true, ControlKey::Up)
    } else if b == 0x50 {
        ctl(false, ControlKey::Down)
    } else if b == 0x91 {
        ctl(true, ControlKey::Down)
    } else if b == 0x4b {
        ctl(false, ControlKey::Left)
    } else if b == 0x73 {
        ctl(true, ControlKey::Left)
    } else if b == 0x4d {
        ctl(false, ControlKey::Right)
    } else if b == 0x74 {
        ctl(true, ControlKey::Right)
    } else if b == 0x47 {
        ctl(false, ControlKey::Start)
    } else if b == 0x77 {
        ctl(true, ControlKey::Start)
    } else if b == 0x4f {
        ctl(false, ControlKey::End)
    } else if b == 0x75 {
        ctl(true, ControlKey::End)
    } else if b == 0x53 {
        ctl(false, ControlKey::Delete)
    } else if b == 0x7f {
        ctl(true, ControlKey::Delete)
    } else if b == 0x49 {
        ctl(false, ControlKey::Top)
    } else if b == 0x86 {
        ctl(true, ControlKey::Top)
    } else if b == 0x51 {
        ctl(false, ControlKey::Bottom)
    } else if b == 0x76 {
        ctl(true, ControlKey::Bottom)
    } else {
        Command::Unsupported(b)
    }
}

/// What the bytes `s` decode to on a Windows console.
pub open spec fn windows_key(s: Seq<u8>) -> Option<Command> {
    if s.len() == 0 {
        None
    } else if s[0] == 3 {
        Some(Command::CtrlC)
    } else if s[0] == 8 {
        Some(ctl(false, ControlKey::Backspace))
    } else if s[0] == 0x7f {
        Some(ctl(true, ControlKey::Backspace))
    } else if s[0] == 0x0a || s[0] == 0x0d {
        Some(Command::Enter)
    } else if s[0] == 0x09 {
        Some(Command::Tab)
    } else if s[0] == 0xe0 {
        if s.len() < 2 {
            None
        } else {
            Some(windows_extended(s[1]))
        }
    } else if is_printable(s[0]) {
        Some(Command::Printable(s[0]))
    } else {
        Some(Command::Unsupported(s[0]))
    }
}

fn arrow_of(b: u8) -> (r: Option<ControlKey>)
    ensures
        r == csi_arrow(b),
{
    match b {
        0x41 => Some(ControlKey::Up),
        0x42 => Some(ControlKey::Down),
        0x43 => Some(ControlKey::Right),
        0x44 => Some(ControlKey::Left),
        0x48 => Some(ControlKey::Start),
        0x46 => Some(ControlKey::End),
        _ => None,
    }
}

fn tilde_of(b: u8) -> (r: Option<ControlKey>)
    ensures
        r == csi_tilde(b),
{
    match b {
        0x33 => Some(ControlKey::Delete),
        0x35 => Some(ControlKey::Top),
        0x36 => Some(ControlKey::Bottom),
        _ => None,
    }
}

fn tilde_modifier(b: u8, m: u8) -> (r: Option<bool>)
    ensures
        r == csi_tilde_modifier(b, m),
{
    if b == 0x33 && m == 0x35 {
        Some(true)
    } else if b == 0x33 && m == 0x32 {
        Some(false)
    } else if (b == 0x35 || b == 0x36) && m == 0x32 {
        Some(true)
    } else {
        None
    }
}

fn decode_unix_escape(s: &[u8]) -> (r: Option<Command>)
    requires
        s@.len() >= 1,
    ensures
        r == unix_escape(s@),
{
    if s.len() < 2 {
        return None;
    }
    if s[1] != 0x5b {
        return Some(Command::Unsupported(s[1]));
    }
    if s.len() < 3 {
        return None;
    }
    let b2 = s[2];
    if let Some(key) = arrow_of(b2) {
        return Some(Command::Control { ctrl: false, key });
    }
    if b2 == 0x31 {
        if s.len() < 4 {
            return None;
        }
        if s[3] != 0x3b {
            return Some(Command::Unsupported(s[3]));
        }
        if s.len() < 5 {
            return None;
        }
        if s[4] != 0x35 {
            return Some(Command::Unsupported(s[4]));
        }
        if s.len() < 6 {
            return None;
        }
        return match arrow_of(s[5]) {
            Some(key) => Some(Command::Control { ctrl: true, key }),
            None => Some(Command::Unsupported(s[5])),
        };
    }
    match tilde_of(b2) {
        Some(key) => {
            if s.len() < 4 {
                return None;
            }
            if s[3] == 0x7e {
                return Some(Command::Control { ctrl: false, key });
            }
            if s[3] != 0x3b {
                return Some(Command::Unsupported(s[3]));
            }
            if s.len() < 5 {
                return None;
            }
            let ctrl = match tilde_modifier(b2, s[4]) {
                Some(ctrl) => ctrl,
                None => {
                    return Some(Command::Unsupported(s[4]));
                },
            };
            if s.len() < 6 {
                return None;
            }
            if s[5] == 0x7e {
                Some(Command::Control { ctrl, key })
            } else {
                Some(Command::Unsupported(s[5]))
            }
        },
        None => Some(Command::Unsupported(b2)),
    }
}

/// Decodes the bytes read so far for one key press on a Unix terminal:
/// `None` while another byte must be read, else the key.
pub fn decode_unix(bytes: &[u8]) -> (r: Option<Command>)
    ensures
        r == unix_key(bytes@),
{
    if bytes.len() == 0 {
        return None;
    }
    let b0 = bytes[0];
    if b0 == 3 {
        Some(Command::CtrlC)
    } else if b0 == 0x7f {
        Some(Command::Control { ctrl: false, key: ControlKey::Backspace })
    } else if b0 == 8 {
        Some(Command::Control { ctrl: true, key: ControlKey::Backspace })
    } else if b0 == 0x0a {
        Some(Command::Enter)
    } else if b0 == 0x09 {
        Some(Command::Tab)
    } else if b0 == 0x1b {
        decode_unix_escape(bytes)
    } else if 0x20 <= b0 && b0 <= 0x7e {
        Some(Command::Printable(b0))
    } else {
        Some(Command::Unsupported(b0))
    }
}

fn extended_of(b: u8) -> (r: Command)
    ensures
        r == windows_extended(b),
{
    match b {
        0x48 => Command::Control { ctrl: false, key: ControlKey::Up },
        0x8d => Command::Control { ctrl: true, key: ControlKey::Up },
        0x50 => Command::Control { ctrl: false, key: ControlKey::Down },
        0x91 => Command::Control { ctrl: true, key: ControlKey::Down },
        0x4b => Command::Control { ctrl: false, key: ControlKey::Left },
        0x73 => Command::Control { ctrl: true, key: ControlKey::Left },
        0x4d => Command::Control { ctrl: false, key: ControlKey::Right },
        0x74 => Command::Control { ctrl: true, key: ControlKey::Right },
        0x47 => Command::Control { ctrl: false, key: ControlKey::Start },
        0x77 => Command::Control { ctrl: true, key: ControlKey::Start },
        0x4f => Command::Control { ctrl: false, key: ControlKey::End },
        0x75 => Command::Control { ctrl: true, key: ControlKey::End },
        0x53 => Command::Control { ctrl: false, key: ControlKey::Delete },
        0x7f => Command::Control { ctrl: true, key: ControlKey::Delete },
        0x49 => Command::Control { ctrl: false, key: ControlKey::Top },
        0x86 => Command::Control { ctrl: true, key: ControlKey::Top },
        0x51 => Command::Control { ctrl: false, key: ControlKey::Bottom },
        0x76 => Command::Control { ctrl: true, key: ControlKey::Bottom },
        c => Command::Unsupported(c),
    }
}

/// Decodes the bytes read so far for one key press on a Windows console:
/// `None` while another byte must be read, else the key.
pub fn decode_windows(bytes: &[u8]) -> (r: Option<Command>)
    ensures
        r == windows_key(bytes@),
{
    if bytes.len() == 0 {
        return None;
    }
    let b0 = bytes[0];
    if b0 == 3 {
        Some(Command::CtrlC)
    } else if b0 == 8 {
        Some(Command::Control { ctrl: false, key: ControlKey::Backspace })
    } else if b0 == 0x7f {
        Some(Command::Control { ctrl: true, key: ControlKey::Backspace })
    } else if b0 == 0x0a || b0 == 0x0d {
        Some(Command::Enter)
    } else if b0 == 0x09 {
        Some(Command::Tab)
    } else if b0 == 0xe0 {
        if bytes.len() < 2 {
            None
        } else {
            Some(extended_of(bytes[1]))
        }
    } else if 0x20 <= b0 && b0 <= 0x7e {
        Some(Command::Printable(b0))
    } else {
        Some(Command::Unsupported(b0))
    }
}

/// A Unix key press is decided by at most six bytes: the reader never asks for a seventh.
pub proof fn lemma_unix_key_bounded(s: Seq<u8>)
    requires
        s.len() >= 6,
    ensures
        unix_key(s) is Some,
{
}

/// Once bytes decide a Unix key, more bytes after them do not change the key.
pub proof fn lemma_unix_key_prefix_stable(s: Seq<u8>, t: Seq<u8>)
    requires
        unix_key(s) is Some,
    ensures
        unix_key(s + t) == unix_key(s),
{
    assert forall|i: int| 0 <= i < s.len() implies (s + t)[i] == s[i] by {}
}

/// A Windows key press is decided by at most two bytes.
pub proof fn lemma_windows_key_bounded(s: Seq<u8>)
    requires
        s.len() >= 2,
    ensures
        windows_key(s) is Some,
{
}

/// Once bytes decide a Windows key, more bytes after them do not change the key.
pub proof fn lemma_windows_key_prefix_stable(s: Seq<u8>, t: Seq<u8>)
    requires
        windows_key(s) is Some,
    ensures
        windows_key(s + t) == windows_key(s),
{
    assert forall|i: int| 0 <= i < s.len() implies (s + t)[i] == s[i] by {}
}

/// A Unix terminal's printable ASCII byte, on its own, is that character typed.
pub proof fn lemma_unix_printable_bytes(b: u8)
    requires
        0x20 <= b <= 0x7e,
    ensures
        unix_key(seq![b]) == Some(Command::Printable(b)),
{
}

/// A Windows console's printable ASCII byte, on its own, is that character typed.
pub proof fn lemma_windows_printable_bytes(b: u8)
    requires
        0x20 <= b <= 0x7e,
    ensures
        windows_key(seq![b]) == Some(Command::Printable(b)),
{
}

/// On a Unix terminal, a byte outside printable ASCII that is not one of
/// Ctrl+C, Backspace (0x7f, 0x08), newline, Tab or ESC is an unknown key;
/// each of those has its own meaning, and ESC waits for more bytes.
pub proof fn lemma_unix_other_bytes(b: u8)
    ensures
        !(0x20 <= b <= 0x7e) && b != 3 && b != 0x7f && b != 8 && b != 0x0a && b != 0x09 && b
            != 0x1b ==> unix_key(seq![b]) == Some(Command::Unsupported(b)),
        unix_key(seq![3u8]) == Some(Command::CtrlC),
        unix_key(seq![0x7fu8]) == Some(Command::Control { ctrl: false, key: ControlKey::Backspace }),
        unix_key(seq![8u8]) == Some(Command::Control { ctrl: true, key: ControlKey::Backspace }),
        unix_key(seq![0x0au8]) == Some(Command::Enter),
        unix_key(seq![0x09u8]) == Some(Command::Tab),
        unix_key(seq![0x1bu8]) is None,
{
}

/// On a Windows console, a byte outside printable ASCII that is not one of
/// Ctrl+C, Backspace (0x08, 0x7f), newline, carriage return, Tab or the
/// extended-key prefix 0xE0 is an unknown key.
pub proof fn lemma_windows_other_bytes(b: u8)
    ensures
        !(0x20 <= b <= 0x7e) && b != 3 && b != 0x7f && b != 8 && b != 0x0a && b != 0x0d && b
            != 0x09 && b != 0xe0 ==> windows_key(seq![b]) == Some(Command::Unsupported(b)),
        windows_key(seq![3u8]) == Some(Command::CtrlC),
        windows_key(seq![8u8]) == Some(Command::Control { ctrl: false, key: ControlKey::Backspace }),
        windows_key(seq![0x7fu8]) == Some(Command::Control { ctrl: true, key: ControlKey::Backspace }),
        windows_key(seq![0x0au8]) == Some(Command::Enter),
        windows_key(seq![0x0du8]) == Some(Command::Enter),
        windows_key(seq![0x09u8]) == Some(Command::Tab),
        windows_key(seq![0xe0u8]) is None,
{
}

/// The ANSI sequences of the navigation keys: `ESC [ X` for the plain key and
/// `ESC [ 1 ; 5 X` with Ctrl, X being A (Up), B (Down), C (Right), D (Left),
/// H (Home) or F (End).
pub proof fn lemma_unix_arrow_sequences()
    ensures
        unix_key(seq![0x1bu8, 0x5b, 0x41]) == Some(Command::Control { ctrl: false, key: ControlKey::Up }),
        unix_key(seq![0x1bu8, 0x5b, 0x42]) == Some(Command::Control { ctrl: false, key: ControlKey::Down }),
        unix_key(seq![0x1bu8, 0x5b, 0x43]) == Some(Command::Control { ctrl: false, key: ControlKey::Right }),
        unix_key(seq![0x1bu8, 0x5b, 0x44]) == Some(Command::Control { ctrl: false, key: ControlKey::Left }),
        unix_key(seq![0x1bu8, 0x5b, 0x48]) == Some(Command::Control { ctrl: false, key: ControlKey::Start }),
        unix_key(seq![0x1bu8, 0x5b, 0x46]) == Some(Command::Control { ctrl: false, key: ControlKey::End }),
        unix_key(seq![0x1bu8, 0x5b, 0x31, 0x3b, 0x35, 0x41]) == Some(Command::Control { ctrl: true, key: ControlKey::Up }),
        unix_key(seq![0x1bu8, 0x5b, 0x31, 0x3b, 0x35, 0x42]) == Some(Command::Control { ctrl: true, key: ControlKey::Down }),
        unix_key(seq![0x1bu8, 0x5b, 0x31, 0x3b, 0x35, 0x43]) == Some(Command::Control { ctrl: true, key: ControlKey::Right }),
        unix_key(seq![0x1bu8, 0x5b, 0x31, 0x3b, 0x35, 0x44]) == Some(Command::Control { ctrl: true, key: ControlKey::Left }),
        unix_key(seq![0x1bu8, 0x5b, 0x31, 0x3b, 0x35, 0x48]) == Some(Command::Control { ctrl: true, key: ControlKey::Start }),
        unix_key(seq![0x1bu8, 0x5b, 0x31, 0x3b, 0x35, 0x46]) == Some(Command::Control { ctrl: true, key: ControlKey::End }),
        unix_key(seq![0x1bu8, 0x5b, 0x33, 0x7e]) == Some(Command::Control { ctrl: false, key: ControlKey::Delete }),
        unix_key(seq![0x1bu8, 0x5b, 0x33, 0x3b, 0x35, 0x7e]) == Some(Command::Control { ctrl: true, key: ControlKey::Delete }),
        unix_key(seq![0x1bu8, 0x5b, 0x33, 0x3b, 0x32, 0x7e]) == Some(Command::Control { ctrl: false, key: ControlKey::Delete }),
{
}

} // verus!
