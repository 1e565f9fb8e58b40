//! The editor's state as mathematical values, and what each operation makes of it.

use vstd::prelude::*;
use vstd::utf8::{decode_utf8, encode_utf8, is_ascii_chars, is_char_boundary};
use crate::keys::{Command, ControlKey};

verus! {

/// The editor's state: flags, the line being edited with its cursor, the
/// recall position in the history, and the lines waiting to be collected.
pub struct KonsoleView {
    pub initialized: bool,
    pub active: bool,
    pub running: bool,
    /// Submitted lines not yet collected, oldest first.
    pub queued_inputs: Seq<Seq<char>>,
    /// The line being edited.
    pub input: Seq<char>,
    /// What was being typed before the history was recalled, while it is.
    pub temp_input: Option<Seq<char>>,
    pub prompt: Seq<char>,
    /// Position in `input` at which typing inserts.
    pub cursor: nat,
    /// Remembered lines, most recent first.
    pub history: Seq<Seq<char>>,
    pub history_enabled: bool,
    pub history_limit: nat,
    /// Which history entry is recalled.
    pub history_index: nat,
    /// How many Tab presses came in a row before the current one.
    pub tab_repeat: nat,
    /// The cursor's byte offset in the line when the current run of Tab presses began.
    pub cursor_before_tab: nat,
}

/// The state of a fresh editor.
pub open spec fn initial_view() -> KonsoleView {
    KonsoleView {
        initialized: false,
        active: false,
        running: false,
        queued_inputs: Seq::empty(),
        input: Seq::empty(),
        temp_input: None,
        prompt: Seq::empty(),
        cursor: 0,
        history: Seq::empty(),
        history_enabled: false,
        history_limit: 256,
        history_index: 0,
        tab_repeat: 0,
        cursor_before_tab: 0,
    }
}

/// No entry of the history is empty, and no entry repeats the one before it.
pub open spec fn history_ok(h: Seq<Seq<char>>) -> bool {
    &&& forall|i: int| 0 <= i < h.len() ==> #[trigger] h[i].len() > 0
    &&& forall|i: int| 0 <= i < h.len() - 1 ==> #[trigger] h[i] != h[i + 1]
}

/// What every reachable state satisfies.
pub open spec fn view_ok(v: KonsoleView) -> bool {
    &&& v.cursor <= v.input.len()
    &&& (v.history_index == 0 || v.history_index < v.history.len())
    &&& history_ok(v.history)
}

pub open spec fn clamp(x: int, lo: int, hi: int) -> int {
    if x < lo {
        lo
    } else if x > hi {
        hi
    } else {
        x
    }
}

/// The cursor moved by `offset`, held within the line.
pub open spec fn moved(v: KonsoleView, offset: int) -> KonsoleView {
    KonsoleView { cursor: clamp(v.cursor + offset, 0, v.input.len() as int) as nat, ..v }
}

/// Leaves history recall: the line being edited is the one typed now.
pub open spec fn recall_dropped(v: KonsoleView) -> KonsoleView {
    KonsoleView { history_index: 0, temp_input: None, ..v }
}

/// The character `c` typed at the cursor.
pub open spec fn typed(v: KonsoleView, c: char) -> KonsoleView {
    let w = recall_dropped(v);
    KonsoleView { input: w.input.insert(w.cursor as int, c), cursor: w.cursor + 1, ..w }
}

/// Up to `k` characters before the cursor erased (as many as there are).
pub open spec fn erased_before(v: KonsoleView, k: nat) -> KonsoleView {
    let w = recall_dropped(v);
    let n = if k < w.cursor { k } else { w.cursor };
    KonsoleView {
        input: w.input.subrange(0, w.cursor - n) + w.input.subrange(w.cursor as int, w.input.len() as int),
        cursor: (w.cursor - n) as nat,
        ..w
    }
}

/// Up to `k` characters after the cursor erased (as many as there are).
pub open spec fn erased_after(v: KonsoleView, k: nat) -> KonsoleView {
    let w = recall_dropped(v);
    let rest = w.input.len() - w.cursor;
    let n: int = if k < rest { k as int } else { rest };
    KonsoleView {
        input: w.input.subrange(0, w.cursor as int) + w.input.subrange(w.cursor + n, w.input.len() as int),
        ..w
    }
}

/// The magnitude of a negative `isize` as `saturating_neg` gives it.
pub open spec fn saturating_neg(a: int) -> int {
    if a == isize::MIN {
        isize::MAX as int
    } else {
        -a
    }
}

/// `amount` characters erased: before the cursor when negative, after it otherwise.
pub open spec fn erased(v: KonsoleView, amount: int) -> KonsoleView {
    if amount < 0 {
        erased_before(v, saturating_neg(amount) as nat)
    } else {
        erased_after(v, amount as nat)
    }
}

pub open spec fn is_space(c: char) -> bool {
    c == ' '
}

/// How many characters before position `cur` of `s`, going left, are
/// spaces if `sp` holds, non-spaces otherwise, up to the first that is not.
pub open spec fn run_left(s: Seq<char>, cur: int, sp: bool) -> nat
    decreases cur,
{
    if cur <= 0 || cur > s.len() {
        0
    } else if is_space(s[cur - 1]) == sp {
        1 + run_left(s, cur - 1, sp)
    } else {
        0
    }
}

/// How many characters from position `cur` of `s`, going right, are
/// spaces if `sp` holds, non-spaces otherwise, up to the first that is not.
pub open spec fn run_right(s: Seq<char>, cur: int, sp: bool) -> nat
    decreases s.len() - cur,
{
    if cur < 0 || cur >= s.len() {
        0
    } else if is_space(s[cur]) == sp {
        1 + run_right(s, cur + 1, sp)
    } else {
        0
    }
}

/// The distance from `cur` to the start of the word (or run of spaces) that ends there.
pub open spec fn word_left(s: Seq<char>, cur: int) -> nat {
    if cur <= 0 || cur > s.len() {
        0
    } else {
        run_left(s, cur, is_space(s[cur - 1]))
    }
}

/// The distance from `cur` to the end of the word (or run of spaces) that starts there.
pub open spec fn word_right(s: Seq<char>, cur: int) -> nat {
    if cur < 0 || cur >= s.len() {
        0
    } else {
        run_right(s, cur, is_space(s[cur]))
    }
}

/// How many bytes the UTF-8 encoding of the word (or run of spaces) that
/// starts at `cur` takes, as `len()` of its string gives it. Ctrl+Delete
/// erases this many characters: the word itself when it is ASCII.
pub open spec fn word_right_bytes(s: Seq<char>, cur: int) -> nat {
    (encode_utf8(s.subrange(cur, cur + word_right(s, cur))).len() as usize) as nat
}

/// Up: recall the next older history entry.
pub open spec fn recalled_older(v: KonsoleView) -> KonsoleView {
    if !v.history_enabled || v.history_index >= v.history_limit || v.history_index >= v.history.len() {
        v
    } else {
        let temp = if v.temp_input is None {
            Some(v.input)
        } else {
            v.temp_input
        };
        let index = if v.temp_input is Some && v.history_index + 1 < v.history_limit
            && v.history_index + 1 < v.history.len() {
            v.history_index + 1
        } else {
            v.history_index
        };
        KonsoleView {
            temp_input: temp,
            history_index: index,
            input: v.history[index as int],
            cursor: v.history[index as int].len(),
            ..v
        }
    }
}

/// Down: recall the next newer history entry, or what was typed before recall began.
pub open spec fn recalled_newer(v: KonsoleView) -> KonsoleView {
    if !v.history_enabled || v.history.len() == 0 {
        v
    } else if v.history_index == 0 {
        let line = match v.temp_input {
            Some(t) => t,
            None => v.input,
        };
        KonsoleView { input: line, temp_input: None, cursor: line.len(), ..v }
    } else {
        let index = (v.history_index - 1) as nat;
        KonsoleView {
            history_index: index,
            input: v.history[index as int],
            cursor: v.history[index as int].len(),
            ..v
        }
    }
}

/// Whether submitting the line being edited records it in the history.
pub open spec fn records(v: KonsoleView) -> bool {
    &&& v.history_enabled
    &&& v.input.len() > 0
    &&& (v.history.len() == 0 || v.history[0] != v.input)
}

/// Enter: the line is queued for collection, recorded in the history when
/// `records` says so (dropping the oldest entry when the history is over its
/// limit), and the editor starts a new empty line.
pub open spec fn submitted(v: KonsoleView) -> KonsoleView {
    let line = v.input;
    let history = if records(v) {
        if v.history.len() > v.history_limit {
            seq![line] + v.history.drop_last()
        } else {
            seq![line] + v.history
        }
    } else {
        v.history
    };
    KonsoleView {
        queued_inputs: v.queued_inputs.push(line),
        input: Seq::empty(),
        cursor: 0,
        temp_input: None,
        history,
        history_index: if records(v) { 0 } else { v.history_index },
        ..v
    }
}

/// The byte offset, in the UTF-8 encoding of `s`, of character position `k`,
/// as `len()` of the string of the first `k` characters gives it.
pub open spec fn byte_offset(s: Seq<char>, k: int) -> nat {
    (encode_utf8(s.take(k)).len() as usize) as nat
}

/// Tab: one more press in the current run of Tab presses.
pub open spec fn tabbed(v: KonsoleView) -> KonsoleView {
    KonsoleView {
        cursor_before_tab: if v.tab_repeat == 0 {
            byte_offset(v.input, v.cursor as int)
        } else {
            v.cursor_before_tab
        },
        tab_repeat: v.tab_repeat + 1,
        ..v
    }
}

/// The byte offset in `output` at which a completion puts the cursor: the
/// cursor's byte offset moved by `movement` bytes, held within `output`.
pub open spec fn completion_target(v: KonsoleView, output: Seq<char>, movement: int) -> int {
    clamp(
        byte_offset(v.input, v.cursor as int) + movement,
        0,
        (encode_utf8(output).len() as usize) as int,
    )
}

/// Whether that offset falls between two characters of `output`, rather than inside one.
pub open spec fn completion_fits(v: KonsoleView, output: Seq<char>, movement: int) -> bool {
    is_char_boundary(encode_utf8(output), completion_target(v, output, movement))
}

/// The line replaced by a completion, the cursor put at the character that
/// starts at the completion's target byte offset.
pub open spec fn completed(v: KonsoleView, output: Seq<char>, movement: int) -> KonsoleView {
    KonsoleView {
        input: output,
        cursor: decode_utf8(
            encode_utf8(output).subrange(0, completion_target(v, output, movement)),
        ).len(),
        ..v
    }
}

/// Starting the console: an active console stays as it is.
pub open spec fn activated(v: KonsoleView) -> KonsoleView {
    if v.active {
        v
    } else {
        KonsoleView { initialized: true, active: true, running: true, ..v }
    }
}

/// Asking the key loop to stop: only an active, running console is asked.
pub open spec fn stop_requested(v: KonsoleView) -> KonsoleView {
    if v.active && v.running {
        KonsoleView { running: false, ..v }
    } else {
        v
    }
}

/// The key loop has ended.
pub open spec fn stopped(v: KonsoleView) -> KonsoleView {
    KonsoleView { active: false, ..v }
}

/// Whether the editor's key handling covers `cmd`: the page keys it does not.
pub open spec fn handled(cmd: Command) -> bool {
    !(cmd matches Command::Control { key: ControlKey::Top, .. })
    && !(cmd matches Command::Control { key: ControlKey::Bottom, .. })
}

/// The state after the key press `cmd`.
pub open spec fn after_command(v: KonsoleView, cmd: Command) -> KonsoleView {
    let v0 = if cmd is Tab {
        v
    } else {
        KonsoleView { tab_repeat: 0, ..v }
    };
    match cmd {
        Command::Control { ctrl, key } => match key {
            ControlKey::Start => if ctrl {
                erased(v0, isize::MIN as int)
            } else {
                moved(v0, isize::MIN as int)
            },
            ControlKey::End => if ctrl {
                erased(v0, isize::MAX as int)
            } else {
                moved(v0, isize::MAX as int)
            },
            ControlKey::Backspace => erased_before(
                v0,
                if ctrl { word_left(v0.input, v0.cursor as int) } else { 1 },
            ),
            ControlKey::Delete => erased_after(
                v0,
                if ctrl { word_right_bytes(v0.input, v0.cursor as int) } else { 1 },
            ),
            ControlKey::Left => moved(
                v0,
                if ctrl { -word_left(v0.input, v0.cursor as int) } else { -1 },
            ),
            ControlKey::Right => moved(
                v0,
                if ctrl { word_right(v0.input, v0.cursor as int) as int } else { 1 },
            ),
            ControlKey::Up => recalled_older(v0),
            ControlKey::Down => recalled_newer(v0),
            _ => v0,
        },
        Command::Tab => tabbed(v0),
        Command::Enter => submitted(v0),
        Command::Printable(c) => typed(v0, c as char),
        _ => v0,
    }
}

/// `n` presses of Up.
pub open spec fn up_times(v: KonsoleView, n: nat) -> KonsoleView
    decreases n,
{
    if n == 0 {
        v
    } else {
        recalled_older(up_times(v, (n - 1) as nat))
    }
}

/// `n` presses of Down.
pub open spec fn down_times(v: KonsoleView, n: nat) -> KonsoleView
    decreases n,
{
    if n == 0 {
        v
    } else {
        recalled_newer(down_times(v, (n - 1) as nat))
    }
}

/// The waiting lines collected: none is left waiting.
pub open spec fn collected(v: KonsoleView) -> KonsoleView {
    KonsoleView { queued_inputs: Seq::empty(), ..v }
}

pub open spec fn prompt_set(v: KonsoleView, prompt: Seq<char>) -> KonsoleView {
    KonsoleView { prompt, ..v }
}

pub open spec fn history_limit_set(v: KonsoleView, limit: nat) -> KonsoleView {
    KonsoleView { history_limit: limit, ..v }
}

pub open spec fn history_enabled_set(v: KonsoleView, enabled: bool) -> KonsoleView {
    KonsoleView { history_enabled: enabled, ..v }
}

/// The line emptied, the cursor at its start.
pub open spec fn input_cleared(v: KonsoleView) -> KonsoleView {
    KonsoleView { input: Seq::empty(), cursor: 0, ..v }
}

/// Every history entry forgotten.
pub open spec fn history_cleared(v: KonsoleView) -> KonsoleView {
    KonsoleView { history: Seq::empty(), history_index: 0, ..v }
}

/// A completion's answer put in place, when it lands between two characters.
pub open spec fn completion_applied(v: KonsoleView, output: Seq<char>, movement: int) -> KonsoleView {
    if completion_fits(v, output, movement) {
        completed(v, output, movement)
    } else {
        v
    }
}

/// Stopping the console as a program does it: the stop is asked for, and
/// the call returns once the key loop has ended.
pub open spec fn deactivated(v: KonsoleView) -> KonsoleView {
    if v.active && v.running {
        stopped(stop_requested(v))
    } else {
        v
    }
}

/// One operation on the console, as a program calls it.
pub enum Op {
    /// A key press.
    Key(Command),
    /// A completion handler's answer: output line, cursor movement in bytes.
    Complete(Seq<char>, int),
    /// Collecting the waiting lines.
    Collect,
    SetPrompt(Seq<char>),
    SetHistoryLimit(nat),
    SetHistoryEnabled(bool),
    ClearInput,
    ClearHistory,
    Start,
    Stop,
}

pub open spec fn op_step(v: KonsoleView, op: Op) -> KonsoleView {
    match op {
        Op::Key(cmd) => after_command(v, cmd),
        Op::Complete(output, movement) => completion_applied(v, output, movement),
        Op::Collect => collected(v),
        Op::SetPrompt(p) => prompt_set(v, p),
        Op::SetHistoryLimit(n) => history_limit_set(v, n),
        Op::SetHistoryEnabled(b) => history_enabled_set(v, b),
        Op::ClearInput => input_cleared(v),
        Op::ClearHistory => history_cleared(v),
        Op::Start => activated(v),
        Op::Stop => deactivated(v),
    }
}

/// The state after the operations `ops`, in order.
pub open spec fn run_ops(v: KonsoleView, ops: Seq<Op>) -> KonsoleView
    decreases ops.len(),
{
    if ops.len() == 0 {
        v
    } else {
        op_step(run_ops(v, ops.drop_last()), ops.last())
    }
}

/// The lines submitted by the Enter presses among `ops`, in order.
pub open spec fn entered_lines(v: KonsoleView, ops: Seq<Op>) -> Seq<Seq<char>>
    decreases ops.len(),
{
    if ops.len() == 0 {
        Seq::empty()
    } else if ops.last() == Op::Key(Command::Enter) {
        entered_lines(v, ops.drop_last()).push(run_ops(v, ops.drop_last()).input)
    } else {
        entered_lines(v, ops.drop_last())
    }
}

/// Whether the last start or stop among `ops` is a start (`started` when there is none).
pub open spec fn last_started(started: bool, ops: Seq<Op>) -> bool
    decreases ops.len(),
{
    if ops.len() == 0 {
        started
    } else if ops.last() is Start {
        true
    } else if ops.last() is Stop {
        false
    } else {
        last_started(started, ops.drop_last())
    }
}

/// All text the editor holds (the line, the text put aside during recall,
/// the history) is ASCII.
pub open spec fn text_ascii(v: KonsoleView) -> bool {
    &&& is_ascii_chars(v.input)
    &&& (v.temp_input matches Some(t) ==> is_ascii_chars(t))
    &&& forall|i: int| 0 <= i < v.history.len() ==> is_ascii_chars(#[trigger] v.history[i])
}

} // verus!
