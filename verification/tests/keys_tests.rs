use konsole::{decode_unix, decode_windows, Command, ControlKey};

fn ctl(ctrl: bool, key: ControlKey) -> Option<Command> {
    Some(Command::Control { ctrl, key })
}

#[test]
fn unix_single_bytes() {
    assert_eq!(decode_unix(&[]), None);
    assert_eq!(decode_unix(&[3]), Some(Command::CtrlC));
    assert_eq!(decode_unix(&[0x7f]), ctl(false, ControlKey::Backspace));
    assert_eq!(decode_unix(&[8]), ctl(true, ControlKey::Backspace));
    assert_eq!(decode_unix(b"\n"), Some(Command::Enter));
    assert_eq!(decode_unix(b"\r"), Some(Command::Unsupported(b'\r')));
    assert_eq!(decode_unix(b"\t"), Some(Command::Tab));
    assert_eq!(decode_unix(b"a"), Some(Command::Printable(b'a')));
    assert_eq!(decode_unix(b" "), Some(Command::Printable(b' ')));
    assert_eq!(decode_unix(b"~"), Some(Command::Printable(b'~')));
    assert_eq!(decode_unix(&[0x01]), Some(Command::Unsupported(0x01)));
    assert_eq!(decode_unix(&[0xc3]), Some(Command::Unsupported(0xc3)));
}

#[test]
fn unix_arrows_and_home_end() {
    assert_eq!(decode_unix(&[0x1b]), None);
    assert_eq!(decode_unix(b"\x1b["), None);
    assert_eq!(decode_unix(b"\x1b[A"), ctl(false, ControlKey::Up));
    assert_eq!(decode_unix(b"\x1b[B"), ctl(false, ControlKey::Down));
    assert_eq!(decode_unix(b"\x1b[C"), ctl(false, ControlKey::Right));
    assert_eq!(decode_unix(b"\x1b[D"), ctl(false, ControlKey::Left));
    assert_eq!(decode_unix(b"\x1b[H"), ctl(false, ControlKey::Start));
    assert_eq!(decode_unix(b"\x1b[F"), ctl(false, ControlKey::End));
    assert_eq!(decode_unix(b"\x1bO"), Some(Command::Unsupported(b'O')));
    assert_eq!(decode_unix(b"\x1b[Z"), Some(Command::Unsupported(b'Z')));
}

#[test]
fn unix_ctrl_arrows() {
    assert_eq!(decode_unix(b"\x1b[1"), None);
    assert_eq!(decode_unix(b"\x1b[1;"), None);
    assert_eq!(decode_unix(b"\x1b[1;5"), None);
    assert_eq!(decode_unix(b"\x1b[1;5A"), ctl(true, ControlKey::Up));
    assert_eq!(decode_unix(b"\x1b[1;5B"), ctl(true, ControlKey::Down));
    assert_eq!(decode_unix(b"\x1b[1;5C"), ctl(true, ControlKey::Right));
    assert_eq!(decode_unix(b"\x1b[1;5D"), ctl(true, ControlKey::Left));
    assert_eq!(decode_unix(b"\x1b[1;5H"), ctl(true, ControlKey::Start));
    assert_eq!(decode_unix(b"\x1b[1;5F"), ctl(true, ControlKey::End));
    assert_eq!(decode_unix(b"\x1b[1;5X"), Some(Command::Unsupported(b'X')));
    assert_eq!(decode_unix(b"\x1b[1;2"), Some(Command::Unsupported(b'2')));
    assert_eq!(decode_unix(b"\x1b[1x"), Some(Command::Unsupported(b'x')));
}

#[test]
fn unix_tilde_keys() {
    assert_eq!(decode_unix(b"\x1b[3"), None);
    assert_eq!(decode_unix(b"\x1b[3~"), ctl(false, ControlKey::Delete));
    assert_eq!(decode_unix(b"\x1b[3;5~"), ctl(true, ControlKey::Delete));
    assert_eq!(decode_unix(b"\x1b[3;2"), None);
    assert_eq!(decode_unix(b"\x1b[3;2~"), ctl(false, ControlKey::Delete));
    assert_eq!(decode_unix(b"\x1b[3;2x"), Some(Command::Unsupported(b'x')));
    assert_eq!(decode_unix(b"\x1b[3;3"), Some(Command::Unsupported(b'3')));
    assert_eq!(decode_unix(b"\x1b[5~"), ctl(false, ControlKey::Top));
    assert_eq!(decode_unix(b"\x1b[5;2~"), ctl(true, ControlKey::Top));
    assert_eq!(decode_unix(b"\x1b[5;5"), Some(Command::Unsupported(b'5')));
    assert_eq!(decode_unix(b"\x1b[6~"), ctl(false, ControlKey::Bottom));
    assert_eq!(decode_unix(b"\x1b[6;2~"), ctl(true, ControlKey::Bottom));
    assert_eq!(decode_unix(b"\x1b[6;2x"), Some(Command::Unsupported(b'x')));
    assert_eq!(decode_unix(b"\x1b[6x"), Some(Command::Unsupported(b'x')));
}

#[test]
fn unix_decoding_is_stable_under_more_bytes() {
    let seqs: [&[u8]; 4] = [b"a", b"\x1b[A", b"\x1b[1;5C", b"\x1bq"];
    for s in seqs {
        let first = decode_unix(s);
        assert!(first.is_some());
        let mut longer = s.to_vec();
        longer.extend_from_slice(b"zzzzzz");
        assert_eq!(decode_unix(&longer), first);
    }
    let more: [&[u8]; 2] = [b"\x1b[1;5Q", b"\x1b[9;9;9"];
    for s in more {
        assert!(decode_unix(s).is_some());
    }
}

#[test]
fn windows_keys() {
    assert_eq!(decode_windows(&[]), None);
    assert_eq!(decode_windows(&[3]), Some(Command::CtrlC));
    assert_eq!(decode_windows(&[8]), ctl(false, ControlKey::Backspace));
    assert_eq!(decode_windows(&[0x7f]), ctl(true, ControlKey::Backspace));
    assert_eq!(decode_windows(b"\n"), Some(Command::Enter));
    assert_eq!(decode_windows(b"\r"), Some(Command::Enter));
    assert_eq!(decode_windows(b"\t"), Some(Command::Tab));
    assert_eq!(decode_windows(b"z"), Some(Command::Printable(b'z')));
    assert_eq!(decode_windows(&[0x1b]), Some(Command::Unsupported(0x1b)));
    assert_eq!(decode_windows(&[0xe0]), None);
    let table: [(u8, Option<Command>); 18] = [
        (b'H', ctl(false, ControlKey::Up)),
        (0x8d, ctl(true, ControlKey::Up)),
        (b'P', ctl(false, ControlKey::Down)),
        (0x91, ctl(true, ControlKey::Down)),
        (b'K', ctl(false, ControlKey::Left)),
        (b's', ctl(true, ControlKey::Left)),
        (b'M', ctl(false, ControlKey::Right)),
        (b't', ctl(true, ControlKey::Right)),
        (b'G', ctl(false, ControlKey::Start)),
        (b'w', ctl(true, ControlKey::Start)),
        (b'O', ctl(false, ControlKey::End)),
        (b'u', ctl(true, ControlKey::End)),
        (b'S', ctl(false, ControlKey::Delete)),
        (0x7f, ctl(true, ControlKey::Delete)),
        (b'I', ctl(false, ControlKey::Top)),
        (0x86, ctl(true, ControlKey::Top)),
        (b'Q', ctl(false, ControlKey::Bottom)),
        (b'v', ctl(true, ControlKey::Bottom)),
    ];
    for (b, expected) in table {
        assert_eq!(decode_windows(&[0xe0, b]), expected);
    }
    assert_eq!(decode_windows(&[0xe0, b'x']), Some(Command::Unsupported(b'x')));
}
