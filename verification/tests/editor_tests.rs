use konsole::{
    clear_history, clear_input, get_history_limit, get_prompt, is_active, is_history_enabled,
    queued_inputs, set_history_enabled, set_history_limit, set_prompt, Action, Activation,
    Command, ControlKey, Konsole, TabResult,
};

fn key(ctrl: bool, key: ControlKey) -> Command {
    Command::Control { ctrl, key }
}

fn type_str(k: &mut Konsole, s: &str) {
    for b in s.bytes() {
        assert!(matches!(k.handle_command(Command::Printable(b)), Action::Continue));
    }
}

fn line(k: &Konsole) -> String {
    // the second half of the refresh text, after the last '\r', is prompt + line up to the cursor;
    // the middle part is prompt + whole line
    let text = k.refresh_text(0);
    let parts: Vec<&str> = text.split('\r').collect();
    let prompt = get_prompt(k);
    parts[2][prompt.len()..].to_string()
}

fn cursor(k: &Konsole) -> usize {
    let text = k.refresh_text(0);
    let parts: Vec<&str> = text.split('\r').collect();
    let prompt = get_prompt(k);
    parts[3].len() - prompt.len()
}

fn submit_str(k: &mut Konsole, s: &str) {
    type_str(k, s);
    k.handle_command(Command::Enter);
}

#[test]
fn new_console_defaults() {
    let k = Konsole::new();
    assert!(!is_active(&k));
    assert!(!is_history_enabled(&k));
    assert_eq!(get_history_limit(&k), 256);
    assert_eq!(get_prompt(&k), "");
    assert_eq!(line(&k), "");
    assert_eq!(k.tab_repeat(), 0);
}

#[test]
fn typing_inserts_at_cursor() {
    let mut k = Konsole::new();
    type_str(&mut k, "helo");
    assert_eq!(cursor(&k), 4);
    k.handle_command(key(false, ControlKey::Left));
    type_str(&mut k, "l");
    assert_eq!(line(&k), "hello");
    assert_eq!(cursor(&k), 4);
}

#[test]
fn cursor_moves_stop_at_the_ends() {
    let mut k = Konsole::new();
    type_str(&mut k, "abc");
    k.handle_command(key(false, ControlKey::Right));
    assert_eq!(cursor(&k), 3);
    k.handle_command(key(false, ControlKey::Start));
    assert_eq!(cursor(&k), 0);
    k.handle_command(key(false, ControlKey::Left));
    assert_eq!(cursor(&k), 0);
    k.handle_command(key(false, ControlKey::End));
    assert_eq!(cursor(&k), 3);
    k.move_cursor(-2);
    assert_eq!(cursor(&k), 1);
    k.move_cursor(isize::MAX);
    assert_eq!(cursor(&k), 3);
    k.move_cursor(isize::MIN);
    assert_eq!(cursor(&k), 0);
}

#[test]
fn backspace_and_delete() {
    let mut k = Konsole::new();
    type_str(&mut k, "abcd");
    k.handle_command(key(false, ControlKey::Backspace));
    assert_eq!(line(&k), "abc");
    k.handle_command(key(false, ControlKey::Start));
    k.handle_command(key(false, ControlKey::Backspace));
    assert_eq!(line(&k), "abc");
    k.handle_command(key(false, ControlKey::Delete));
    assert_eq!(line(&k), "bc");
    assert_eq!(cursor(&k), 0);
    k.handle_command(key(false, ControlKey::End));
    k.handle_command(key(false, ControlKey::Delete));
    assert_eq!(line(&k), "bc");
}

#[test]
fn delete_amounts() {
    let mut k = Konsole::new();
    type_str(&mut k, "abcdef");
    k.move_cursor(-3);
    k.delete(-2);
    assert_eq!(line(&k), "adef");
    assert_eq!(cursor(&k), 1);
    k.delete(10);
    assert_eq!(line(&k), "a");
    k.delete(-10);
    assert_eq!(line(&k), "");
    assert_eq!(cursor(&k), 0);
}

#[test]
fn ctrl_home_and_end_erase_to_the_ends() {
    let mut k = Konsole::new();
    type_str(&mut k, "hello world");
    k.move_cursor(-5);
    k.handle_command(key(true, ControlKey::End));
    assert_eq!(line(&k), "hello ");
    assert_eq!(cursor(&k), 6);
    k.move_cursor(-2);
    k.handle_command(key(true, ControlKey::Start));
    assert_eq!(line(&k), "o ");
    assert_eq!(cursor(&k), 0);
}

#[test]
fn word_boundaries() {
    let mut k = Konsole::new();
    type_str(&mut k, "one two  three");
    assert_eq!(k.to_boundary_left(), 5);
    k.move_cursor(-5);
    // cursor before "three", after two spaces
    assert_eq!(k.to_boundary_left(), 2);
    assert_eq!(k.to_boundary_right(), 5);
    k.move_cursor(-2);
    assert_eq!(k.to_boundary_left(), 3);
    assert_eq!(k.to_boundary_right(), 2);
    k.move_cursor(isize::MIN);
    assert_eq!(k.to_boundary_left(), 0);
    k.move_cursor(isize::MAX);
    assert_eq!(k.to_boundary_right(), 0);
}

#[test]
fn ctrl_word_editing() {
    let mut k = Konsole::new();
    type_str(&mut k, "one two three");
    k.handle_command(key(true, ControlKey::Backspace));
    assert_eq!(line(&k), "one two ");
    k.handle_command(key(true, ControlKey::Backspace));
    assert_eq!(line(&k), "one two");
    k.handle_command(key(true, ControlKey::Left));
    assert_eq!(cursor(&k), 4);
    k.handle_command(key(true, ControlKey::Delete));
    assert_eq!(line(&k), "one ");
    k.handle_command(key(true, ControlKey::Left));
    assert_eq!(cursor(&k), 3);
    k.handle_command(key(true, ControlKey::Left));
    assert_eq!(cursor(&k), 0);
    k.handle_command(key(true, ControlKey::Right));
    assert_eq!(cursor(&k), 3);
    k.handle_command(key(true, ControlKey::Right));
    assert_eq!(cursor(&k), 4);
}

#[test]
fn submit_queues_lines() {
    let mut k = Konsole::new();
    submit_str(&mut k, "first");
    submit_str(&mut k, "");
    submit_str(&mut k, "second");
    assert_eq!(line(&k), "");
    assert_eq!(cursor(&k), 0);
    assert_eq!(queued_inputs(&mut k), vec!["first".to_string(), String::new(), "second".to_string()]);
    assert!(queued_inputs(&mut k).is_empty());
}

#[test]
fn history_off_recalls_nothing() {
    let mut k = Konsole::new();
    submit_str(&mut k, "abc");
    k.handle_command(key(false, ControlKey::Up));
    assert_eq!(line(&k), "");
}

#[test]
fn history_recall_round_trip() {
    let mut k = Konsole::new();
    set_history_enabled(&mut k, true);
    submit_str(&mut k, "one");
    submit_str(&mut k, "two");
    type_str(&mut k, "dra");
    k.handle_command(key(false, ControlKey::Up));
    assert_eq!(line(&k), "two");
    assert_eq!(cursor(&k), 3);
    k.handle_command(key(false, ControlKey::Up));
    assert_eq!(line(&k), "one");
    k.handle_command(key(false, ControlKey::Up));
    assert_eq!(line(&k), "one");
    k.handle_command(key(false, ControlKey::Down));
    assert_eq!(line(&k), "two");
    k.handle_command(key(false, ControlKey::Down));
    assert_eq!(line(&k), "dra");
    assert_eq!(cursor(&k), 3);
    k.handle_command(key(false, ControlKey::Down));
    assert_eq!(line(&k), "dra");
}

#[test]
fn history_skips_empty_and_repeated_lines() {
    let mut k = Konsole::new();
    set_history_enabled(&mut k, true);
    submit_str(&mut k, "a");
    submit_str(&mut k, "a");
    submit_str(&mut k, "");
    submit_str(&mut k, "b");
    k.handle_command(key(false, ControlKey::Up));
    assert_eq!(line(&k), "b");
    k.handle_command(key(false, ControlKey::Up));
    assert_eq!(line(&k), "a");
    k.handle_command(key(false, ControlKey::Up));
    assert_eq!(line(&k), "a");
    k.handle_command(key(false, ControlKey::Down));
    assert_eq!(line(&k), "b");
}

#[test]
fn history_limit_drops_oldest() {
    let mut k = Konsole::new();
    set_history_enabled(&mut k, true);
    set_history_limit(&mut k, 2);
    for s in ["l1", "l2", "l3", "l4", "l5"] {
        submit_str(&mut k, s);
    }
    // the history holds limit + 1 entries: l5, l4, l3; recall reaches `limit` of them
    k.history_up();
    assert_eq!(line(&k), "l5");
    k.history_up();
    assert_eq!(line(&k), "l4");
    k.history_up();
    assert_eq!(line(&k), "l4");
}

#[test]
fn typing_leaves_recall() {
    let mut k = Konsole::new();
    set_history_enabled(&mut k, true);
    submit_str(&mut k, "one");
    submit_str(&mut k, "two");
    k.history_up();
    k.history_up();
    type_str(&mut k, "!");
    assert_eq!(line(&k), "one!");
    k.history_down();
    assert_eq!(line(&k), "one!");
    k.history_up();
    assert_eq!(line(&k), "two");
}

#[test]
fn clear_history_forgets() {
    let mut k = Konsole::new();
    set_history_enabled(&mut k, true);
    submit_str(&mut k, "one");
    clear_history(&mut k);
    k.history_up();
    assert_eq!(line(&k), "");
}

#[test]
fn clear_input_empties_line() {
    let mut k = Konsole::new();
    type_str(&mut k, "abc");
    clear_input(&mut k);
    assert_eq!(line(&k), "");
    assert_eq!(cursor(&k), 0);
}

#[test]
fn prompt_and_redraw() {
    let mut k = Konsole::new();
    assert!(!set_prompt(&mut k, "> ".to_string()));
    assert_eq!(get_prompt(&k), "> ");
    type_str(&mut k, "abc");
    k.move_cursor(-1);
    assert_eq!(k.refresh_text(4), "\r    \r> abc\r> ab");
    k.activate();
    assert!(set_prompt(&mut k, "$ ".to_string()));
}

#[test]
fn tab_runs_and_completion() {
    let mut k = Konsole::new();
    type_str(&mut k, "ru st");
    k.move_cursor(-3);
    match k.handle_command(Command::Tab) {
        Action::Complete(q) => {
            assert_eq!(q.input, "ru st");
            assert_eq!(q.cursor_position, 2);
            assert_eq!(q.tab_repeat, 0);
            assert_eq!(q.cursor_before, 2);
        }
        _ => panic!("expected a completion request"),
    }
    assert!(k.apply_completion(TabResult { output: "rust st".to_string(), cursor_movement: 2 }));
    assert_eq!(line(&k), "rust st");
    assert_eq!(cursor(&k), 4);
    match k.handle_command(Command::Tab) {
        Action::Complete(q) => {
            assert_eq!(q.cursor_position, 4);
            assert_eq!(q.tab_repeat, 1);
            assert_eq!(q.cursor_before, 2);
        }
        _ => panic!("expected a completion request"),
    }
    assert_eq!(k.tab_repeat(), 2);
    k.handle_command(key(false, ControlKey::Left));
    assert_eq!(k.tab_repeat(), 0);
    assert!(k.apply_completion(TabResult { output: "x".to_string(), cursor_movement: 100 }));
    assert_eq!(cursor(&k), 1);
    assert!(k.apply_completion(TabResult { output: "xyz".to_string(), cursor_movement: -100 }));
    assert_eq!(cursor(&k), 0);
}

#[test]
fn ctrl_c_quits_and_unsupported_is_ignored() {
    let mut k = Konsole::new();
    type_str(&mut k, "ab");
    assert!(matches!(k.handle_command(Command::CtrlC), Action::Quit));
    assert!(matches!(k.handle_command(Command::Unsupported(0x01)), Action::Continue));
    assert_eq!(line(&k), "ab");
}

#[test]
fn activation_lifecycle() {
    let mut k = Konsole::new();
    assert_eq!(k.activate(), Activation::Start { init_terminal: true });
    assert!(is_active(&k));
    assert!(k.is_running());
    assert_eq!(k.activate(), Activation::AlreadyActive);
    assert!(k.deactivate());
    assert!(!k.is_running());
    assert!(is_active(&k));
    assert!(!k.deactivate());
    k.mark_stopped();
    assert!(!is_active(&k));
    assert!(!k.deactivate());
    assert_eq!(k.activate(), Activation::Start { init_terminal: false });
}

#[test]
fn backspace_undoes_typing() {
    let mut k = Konsole::new();
    type_str(&mut k, "abcd");
    k.move_cursor(-2);
    type_str(&mut k, "x");
    assert_eq!(line(&k), "abxcd");
    k.handle_command(key(false, ControlKey::Backspace));
    assert_eq!(line(&k), "abcd");
    assert_eq!(cursor(&k), 2);
}

#[test]
fn move_round_trip() {
    let mut k = Konsole::new();
    type_str(&mut k, "abcdef");
    k.move_cursor(-4);
    assert_eq!(cursor(&k), 2);
    k.move_cursor(-2);
    k.move_cursor(2);
    assert_eq!(cursor(&k), 2);
}

#[test]
fn completion_positions_are_byte_offsets() {
    let mut k = Konsole::new();
    type_str(&mut k, "a");
    k.add_char(0xe9); // 'é', two bytes in UTF-8
    type_str(&mut k, "b");
    k.move_cursor(-1);
    assert_eq!(line(&k), "aéb");
    match k.handle_command(Command::Tab) {
        Action::Complete(q) => {
            assert_eq!(q.input, "aéb");
            assert_eq!(q.cursor_position, 3);
            assert_eq!(q.cursor_before, 3);
            let (left, right) = q.input.split_at(q.cursor_before);
            assert_eq!((left, right), ("aé", "b"));
        }
        _ => panic!("expected a completion request"),
    }
    // from byte 3, back two bytes: byte 1 is inside the first 'é' of "éé"
    assert!(!k.apply_completion(TabResult { output: "éé".to_string(), cursor_movement: -2 }));
    assert_eq!(line(&k), "aéb");
    assert_eq!(cursor(&k), "aé".len());
    // from byte 3, one byte on: byte 4, after the second 'é' of "éé"
    assert!(k.apply_completion(TabResult { output: "ééz".to_string(), cursor_movement: 1 }));
    assert_eq!(line(&k), "ééz");
    assert_eq!(k.refresh_text(0), "\r\rééz\réé");
}

#[test]
fn recall_three_up_three_down() {
    let mut k = Konsole::new();
    set_history_enabled(&mut k, true);
    for s in ["a1", "a2", "a3", "a4"] {
        submit_str(&mut k, s);
    }
    type_str(&mut k, "draft");
    k.move_cursor(-2);
    for _ in 0..3 {
        k.history_up();
    }
    assert_eq!(line(&k), "a2");
    for _ in 0..3 {
        k.history_down();
    }
    assert_eq!(line(&k), "draft");
    assert_eq!(cursor(&k), 5);
}

#[test]
fn ctrl_delete_counts_the_word_in_bytes() {
    let mut k = Konsole::new();
    k.add_char(0xe9);
    k.add_char(0xe9);
    type_str(&mut k, " x");
    assert_eq!(line(&k), "éé x");
    k.move_cursor(isize::MIN);
    assert_eq!(k.to_boundary_right(), 2);
    // the word "éé" takes four bytes, so four characters go
    k.handle_command(key(true, ControlKey::Delete));
    assert_eq!(line(&k), "");
    assert_eq!(cursor(&k), 0);
}
