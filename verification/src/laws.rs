//! What holds of the editor across operations.

use vstd::prelude::*;
use vstd::utf8::{
    encode_utf8, is_ascii_chars, is_ascii_chars_encode_utf8, encode_utf8_valid_utf8,
    encode_utf8_decode_utf8, is_char_boundary_iff_not_is_continuation_byte,
    is_char_boundary_start_end_of_seq, decode_utf8, decode_utf8_split, valid_utf8_split,
    decode_utf8_encode_utf8,
};
use crate::keys::{Command, ControlKey, unix_key, windows_key, is_printable};
use crate::model::{
    KonsoleView, view_ok, moved, recall_dropped, typed, erased_before, erased_after, erased,
    word_left,
    word_right, run_left, run_right, is_space, recalled_older, recalled_newer, records, submitted,
    handled, after_command, history_ok, byte_offset, run_ops, entered_lines, up_times,
    down_times, Op, op_step, last_started, initial_view, stop_requested, deactivated, stopped,
    word_right_bytes, text_ascii,
    completion_fits, completion_target, completed, clamp, collected, prompt_set,
    history_limit_set, history_enabled_set, input_cleared, history_cleared, completion_applied,
};

verus! {

/// Every key press the editor handles keeps its invariant: the cursor within
/// the line, the recalled entry within the history, the history free of
/// empty entries and of an entry repeated twice in a row.
pub proof fn lemma_command_keeps_invariant(v: KonsoleView, cmd: Command)
    requires
        view_ok(v),
        handled(cmd),
    ensures
        view_ok(after_command(v, cmd)),
{
    if cmd is Enter && records(v) {
        lemma_submit_keeps_history_ok(KonsoleView { tab_repeat: 0, ..v });
    }
}

/// Submitting keeps the history free of empty entries and of repeats in a row.
pub proof fn lemma_submit_keeps_history_ok(v: KonsoleView)
    requires
        view_ok(v),
    ensures
        history_ok(submitted(v).history),
{
    if records(v) {
        let kept = if v.history.len() > v.history_limit {
            v.history.drop_last()
        } else {
            v.history
        };
        let h = seq![v.input] + kept;
        assert(h == submitted(v).history);
        assert forall|i: int| 0 <= i < h.len() - 1 implies #[trigger] h[i] != h[i + 1] by {
            if i > 0 {
                assert(h[i] == kept[i - 1] && h[i + 1] == kept[i]);
                assert(kept[i - 1] == v.history[i - 1] && kept[i] == v.history[i]);
            }
        }
        assert forall|i: int| 0 <= i < h.len() implies #[trigger] h[i].len() > 0 by {
            if i > 0 {
                assert(h[i] == v.history[i - 1]);
            }
        }
    }
}

/// Recalling the newest history entry and stepping back down gives back the
/// line that was being typed, with the cursor at its end.
pub proof fn lemma_recall_round_trip(v: KonsoleView)
    requires
        view_ok(v),
        v.history_enabled,
        v.history.len() > 0,
        v.history_limit > 0,
        v.temp_input is None,
        v.history_index == 0,
    ensures
        recalled_newer(recalled_older(v)) == (KonsoleView { cursor: v.input.len(), ..v }),
{
}

/// Backspace right after typing a character undoes it (and leaves history recall).
pub proof fn lemma_backspace_undoes_typing(v: KonsoleView, c: u8)
    requires
        view_ok(v),
        0x20 <= c <= 0x7e,
    ensures
        after_command(
            after_command(v, Command::Printable(c)),
            Command::Control { ctrl: false, key: ControlKey::Backspace },
        ) == recall_dropped(KonsoleView { tab_repeat: 0, ..v }),
{
    let v0 = KonsoleView { tab_repeat: 0, ..v };
    let t = typed(v0, c as char);
    let e = erased_before(t, 1);
    assert(e.input =~= v.input);
}

/// Home moves the cursor to the start of the line, End to its end.
pub proof fn lemma_home_and_end(v: KonsoleView)
    requires
        view_ok(v),
        v.input.len() <= isize::MAX,
    ensures
        after_command(v, Command::Control { ctrl: false, key: ControlKey::Start }).cursor == 0,
        after_command(v, Command::Control { ctrl: false, key: ControlKey::End }).cursor
            == v.input.len(),
{
}

/// Ctrl+Home erases all that precedes the cursor, Ctrl+End all that follows it.
pub proof fn lemma_ctrl_home_and_end(v: KonsoleView)
    requires
        view_ok(v),
        v.input.len() <= isize::MAX,
    ensures
        after_command(v, Command::Control { ctrl: true, key: ControlKey::Start }).input
            == v.input.subrange(v.cursor as int, v.input.len() as int),
        after_command(v, Command::Control { ctrl: true, key: ControlKey::Start }).cursor == 0,
        after_command(v, Command::Control { ctrl: true, key: ControlKey::End }).input
            == v.input.subrange(0, v.cursor as int),
        after_command(v, Command::Control { ctrl: true, key: ControlKey::End }).cursor
            == v.cursor,
{
    assert(v.input.subrange(0, 0) + v.input.subrange(v.cursor as int, v.input.len() as int)
        =~= v.input.subrange(v.cursor as int, v.input.len() as int));
    assert(v.input.subrange(0, v.cursor as int) + v.input.subrange(
        v.input.len() as int,
        v.input.len() as int,
    ) =~= v.input.subrange(0, v.cursor as int));
}

/// Erasing by a signed amount is erasing that many characters before the
/// cursor (negative) or after it (positive): what Backspace and Delete do.
pub proof fn lemma_erase_by_amount(v: KonsoleView, k: int)
    requires
        view_ok(v),
        0 < k <= isize::MAX,
    ensures
        erased(v, -k) == erased_before(v, k as nat),
        erased(v, k) == erased_after(v, k as nat),
{
}

/// Moving left by `k` and back right by `k` returns the cursor where it was,
/// when there are `k` characters before it.
pub proof fn lemma_move_round_trip(v: KonsoleView, k: nat)
    requires
        view_ok(v),
        k <= v.cursor,
    ensures
        moved(moved(v, -k), k as int) == v,
{
}

/// Any key other than Tab ends a run of Tab presses; Tab extends it, and the
/// cursor position it began at is kept for the whole run.
pub proof fn lemma_tab_runs(v: KonsoleView, cmd: Command)
    requires
        view_ok(v),
        handled(cmd),
    ensures
        !(cmd is Tab) ==> after_command(v, cmd).tab_repeat == 0,
        cmd is Tab ==> after_command(v, cmd).tab_repeat == v.tab_repeat + 1,
        cmd is Tab && v.tab_repeat > 0 ==> after_command(v, cmd).cursor_before_tab
            == v.cursor_before_tab,
        cmd is Tab && v.tab_repeat == 0 ==> after_command(v, cmd).cursor_before_tab
            == byte_offset(v.input, v.cursor as int),
{
}

/// Submitting queues the line, empties the editor, records a nonempty line
/// that differs from the newest entry when the history is on, and lets the
/// history grow past its limit by at most one entry.
pub proof fn lemma_submit(v: KonsoleView)
    requires
        view_ok(v),
    ensures
        submitted(v).queued_inputs == v.queued_inputs.push(v.input),
        submitted(v).input.len() == 0,
        submitted(v).cursor == 0,
        records(v) ==> submitted(v).history[0] == v.input,
        !records(v) ==> submitted(v).history == v.history,
        submitted(v).history.len() <= if v.history.len() > v.history_limit + 1 {
            v.history.len()
        } else {
            v.history_limit + 1
        },
{
}

/// The characters that `word_left` spans all agree with the one just before
/// the cursor on being a space, and the character before them does not.
pub proof fn lemma_word_left_is_run(s: Seq<char>, cur: int)
    requires
        0 < cur <= s.len(),
    ensures
        1 <= word_left(s, cur) <= cur,
        forall|j: int| cur - word_left(s, cur) <= j < cur ==> is_space(#[trigger] s[j]) == is_space(s[cur - 1]),
        word_left(s, cur) < cur ==> is_space(s[cur - word_left(s, cur) - 1]) != is_space(s[cur - 1]),
{
    lemma_run_left(s, cur, is_space(s[cur - 1]));
}

proof fn lemma_run_left(s: Seq<char>, cur: int, sp: bool)
    requires
        0 <= cur <= s.len(),
    ensures
        run_left(s, cur, sp) <= cur,
        forall|j: int| cur - run_left(s, cur, sp) <= j < cur ==> is_space(#[trigger] s[j]) == sp,
        run_left(s, cur, sp) < cur ==> is_space(s[cur - run_left(s, cur, sp) - 1]) != sp,
    decreases cur,
{
    if cur > 0 && is_space(s[cur - 1]) == sp {
        lemma_run_left(s, cur - 1, sp);
    }
}

/// The characters that `word_right` spans all agree with the one at the
/// cursor on being a space, and the character after them does not.
pub proof fn lemma_word_right_is_run(s: Seq<char>, cur: int)
    requires
        0 <= cur < s.len(),
    ensures
        1 <= word_right(s, cur) <= s.len() - cur,
        forall|j: int| cur <= j < cur + word_right(s, cur) ==> is_space(#[trigger] s[j]) == is_space(s[cur]),
        cur + word_right(s, cur) < s.len() ==> is_space(s[cur + word_right(s, cur)]) != is_space(s[cur]),
{
    lemma_run_right(s, cur, is_space(s[cur]));
}

proof fn lemma_run_right(s: Seq<char>, cur: int, sp: bool)
    requires
        0 <= cur <= s.len(),
    ensures
        run_right(s, cur, sp) <= s.len() - cur,
        forall|j: int| cur <= j < cur + run_right(s, cur, sp) ==> is_space(#[trigger] s[j]) == sp,
        cur + run_right(s, cur, sp) < s.len() ==> is_space(s[cur + run_right(s, cur, sp)]) != sp,
    decreases s.len() - cur,
{
    if cur < s.len() && is_space(s[cur]) == sp {
        lemma_run_right(s, cur + 1, sp);
    }
}

/// Key presses leave the console's started and running flags alone.
pub proof fn lemma_commands_keep_flags(v: KonsoleView, cmd: Command)
    ensures
        after_command(v, cmd).active == v.active,
        after_command(v, cmd).running == v.running,
        after_command(v, cmd).initialized == v.initialized,
{
}

/// Between two collections, the queue gathers what it held, then each line
/// submitted with Enter, in order: none lost, reordered or repeated, empty
/// lines included, whatever other operations come between.
pub proof fn lemma_queue_holds_entered_lines(v: KonsoleView, ops: Seq<Op>)
    requires
        forall|i: int| 0 <= i < ops.len() ==> !(#[trigger] ops[i] is Collect),
    ensures
        run_ops(v, ops).queued_inputs == v.queued_inputs + entered_lines(v, ops),
    decreases ops.len(),
{
    if ops.len() > 0 {
        let prefix = ops.drop_last();
        assert forall|i: int| 0 <= i < prefix.len() implies !(#[trigger] prefix[i] is Collect) by {
            assert(prefix[i] == ops[i]);
        }
        lemma_queue_holds_entered_lines(v, prefix);
        let before = run_ops(v, prefix);
        assert(!(ops[ops.len() - 1] is Collect));
        lemma_op_keeps_queue_unless_enter(before, ops.last());
        if ops.last() == Op::Key(Command::Enter) {
            assert(v.queued_inputs + entered_lines(v, prefix).push(before.input)
                =~= (v.queued_inputs + entered_lines(v, prefix)).push(before.input));
        }
    }
}

proof fn lemma_op_keeps_queue_unless_enter(v: KonsoleView, op: Op)
    requires
        !(op is Collect),
    ensures
        op == Op::Key(Command::Enter) ==> op_step(v, op).queued_inputs == v.queued_inputs.push(v.input),
        op != Op::Key(Command::Enter) ==> op_step(v, op).queued_inputs == v.queued_inputs,
{
}

/// A collection returns exactly the lines submitted with Enter since the
/// previous collection (or since the console was made), in order, and
/// leaves none waiting: a collection right after it returns nothing.
pub proof fn lemma_collect_returns_entered(v: KonsoleView, ops: Seq<Op>)
    requires
        v.queued_inputs.len() == 0,
        forall|i: int| 0 <= i < ops.len() ==> !(#[trigger] ops[i] is Collect),
    ensures
        run_ops(v, ops).queued_inputs == entered_lines(v, ops),
        op_step(run_ops(v, ops), Op::Collect).queued_inputs.len() == 0,
{
    lemma_queue_holds_entered_lines(v, ops);
    assert(v.queued_inputs + entered_lines(v, ops) =~= entered_lines(v, ops));
}

/// Whatever the operations, the console is active (and its key loop
/// running) exactly when the last start or stop among them was a start.
pub proof fn lemma_active_after_ops(v: KonsoleView, ops: Seq<Op>)
    requires
        v.active == v.running,
    ensures
        run_ops(v, ops).active == run_ops(v, ops).running,
        run_ops(v, ops).active == last_started(v.active, ops),
    decreases ops.len(),
{
    if ops.len() > 0 {
        lemma_active_after_ops(v, ops.drop_last());
    }
}

/// A new console is active exactly when the last start or stop was a start;
/// before any start it is not.
pub proof fn lemma_active_from_new(ops: Seq<Op>)
    ensures
        run_ops(initial_view(), ops).active == last_started(false, ops),
{
    lemma_active_after_ops(initial_view(), ops);
}

/// While a stop waits for the key loop to end, the console still counts as
/// active; once the loop has ended, it does not.
pub proof fn lemma_active_while_stopping(v: KonsoleView)
    requires
        v.active,
        v.running,
    ensures
        stop_requested(v).active,
        !stop_requested(v).running,
        deactivated(v) == stopped(stop_requested(v)),
        !deactivated(v).active,
{
}

proof fn lemma_up_times(v: KonsoleView, n: nat)
    requires
        view_ok(v),
        v.history_enabled,
        v.temp_input is None,
        v.history_index == 0,
        1 <= n <= v.history.len(),
        n <= v.history_limit,
    ensures
        up_times(v, n) == (KonsoleView {
            temp_input: Some(v.input),
            history_index: (n - 1) as nat,
            input: v.history[n - 1],
            cursor: v.history[n - 1].len(),
            ..v
        }),
    decreases n,
{
    if n > 1 {
        lemma_up_times(v, (n - 1) as nat);
    } else {
        assert(up_times(v, 0) == v);
    }
}

proof fn lemma_down_times(w: KonsoleView, m: nat)
    requires
        w.history_enabled,
        w.history.len() > 0,
        w.temp_input is Some,
        m <= w.history_index < w.history.len(),
    ensures
        down_times(w, m) == (KonsoleView {
            history_index: (w.history_index - m) as nat,
            input: if m == 0 { w.input } else { w.history[w.history_index - m] },
            cursor: if m == 0 { w.cursor } else { w.history[w.history_index - m].len() },
            ..w
        }),
    decreases m,
{
    if m > 0 {
        lemma_down_times(w, (m - 1) as nat);
    } else {
        assert(down_times(w, 0) == w);
    }
}

/// Going up `n` entries in the history and back down `n` gives back the
/// line being typed, with the cursor at its end and the history unchanged.
pub proof fn lemma_recall_round_trip_n(v: KonsoleView, n: nat)
    requires
        view_ok(v),
        v.history_enabled,
        v.temp_input is None,
        v.history_index == 0,
        1 <= n <= v.history.len(),
        n <= v.history_limit,
    ensures
        down_times(up_times(v, n), n) == (KonsoleView { cursor: v.input.len(), ..v }),
{
    lemma_up_times(v, n);
    let w = up_times(v, n);
    lemma_down_times(w, (n - 1) as nat);
    assert(down_times(w, n) == recalled_newer(down_times(w, (n - 1) as nat)));
}

/// Keys decode to printable characters only within printable ASCII.
pub proof fn lemma_decoded_printable_is_ascii(s: Seq<u8>, c: u8)
    ensures
        unix_key(s) == Some(Command::Printable(c)) ==> is_printable(c),
        windows_key(s) == Some(Command::Printable(c)) ==> is_printable(c),
{
}

/// With ASCII text in the editor, every key press that types ASCII (as
/// decoded keys do) keeps all of the editor's text ASCII.
pub proof fn lemma_ascii_kept(v: KonsoleView, cmd: Command)
    requires
        view_ok(v),
        text_ascii(v),
        cmd matches Command::Printable(c) ==> c < 0x80,
    ensures
        text_ascii(after_command(v, cmd)),
{
    let w = after_command(v, cmd);
    let v0 = if cmd is Tab { v } else { KonsoleView { tab_repeat: 0, ..v } };
    if cmd is Enter {
        assert forall|i: int| 0 <= i < w.history.len() implies is_ascii_chars(#[trigger] w.history[i]) by {
            if records(v0) && i > 0 {
                assert(w.history[i] == v.history[i - 1]);
            }
        }
    }
    assert(is_ascii_chars(w.input));
}

/// An ASCII completion of ASCII text always lands between two characters,
/// the cursor at the byte offset moved to, and keeps the text ASCII; on
/// ASCII text, byte offsets are character positions.
pub proof fn lemma_ascii_completion(v: KonsoleView, output: Seq<char>, movement: int)
    requires
        view_ok(v),
        text_ascii(v),
        is_ascii_chars(output),
        output.len() <= usize::MAX,
        v.input.len() <= usize::MAX,
    ensures
        byte_offset(v.input, v.cursor as int) == v.cursor,
        completion_fits(v, output, movement),
        completed(v, output, movement).cursor == clamp(v.cursor + movement, 0, output.len() as int),
        text_ascii(completed(v, output, movement)),
{
    lemma_ascii_byte_offset(v.input, v.cursor as int);
    is_ascii_chars_encode_utf8(output);
    let bytes = encode_utf8(output);
    let t = completion_target(v, output, movement);
    assert(0 <= t <= output.len());
    encode_utf8_valid_utf8(output);
    if t < bytes.len() {
        is_char_boundary_iff_not_is_continuation_byte(bytes, t);
        assert(output[t] as u8 == bytes[t]);
        assert(bytes[t] < 0x80);
    } else {
        is_char_boundary_start_end_of_seq(bytes);
    }
    lemma_ascii_take(output, t);
    assert(bytes.subrange(0, t) =~= encode_utf8(output.take(t)));
    encode_utf8_decode_utf8(output.take(t));
}

/// On ASCII text, the byte offset of a character position is the position.
pub proof fn lemma_ascii_byte_offset(s: Seq<char>, k: int)
    requires
        is_ascii_chars(s),
        0 <= k <= s.len(),
        s.len() <= usize::MAX,
    ensures
        byte_offset(s, k) == k,
{
    lemma_ascii_take(s, k);
}

proof fn lemma_ascii_take(s: Seq<char>, k: int)
    requires
        is_ascii_chars(s),
        0 <= k <= s.len(),
    ensures
        is_ascii_chars(s.take(k)),
        encode_utf8(s.take(k)).len() == k,
        encode_utf8(s.take(k)) =~= encode_utf8(s).subrange(0, k),
{
    assert(is_ascii_chars(s.take(k)));
    is_ascii_chars_encode_utf8(s.take(k));
    is_ascii_chars_encode_utf8(s);
    assert forall|i: int| 0 <= i < k implies encode_utf8(s.take(k))[i] == encode_utf8(s)[i] by {
        assert(s.take(k)[i] == s[i]);
    }
}

/// Every key that a terminal's bytes decode to keeps ASCII text ASCII.
pub proof fn lemma_ascii_kept_by_decoded_keys(v: KonsoleView, s: Seq<u8>)
    requires
        view_ok(v),
        text_ascii(v),
    ensures
        unix_key(s) is Some ==> text_ascii(after_command(v, unix_key(s)->0)),
        windows_key(s) is Some ==> text_ascii(after_command(v, windows_key(s)->0)),
{
    if unix_key(s) is Some {
        let cmd = unix_key(s)->0;
        if cmd is Printable {
            lemma_decoded_printable_is_ascii(s, cmd->Printable_0);
        }
        lemma_ascii_kept(v, cmd);
    }
    if windows_key(s) is Some {
        let cmd = windows_key(s)->0;
        if cmd is Printable {
            lemma_decoded_printable_is_ascii(s, cmd->Printable_0);
        }
        lemma_ascii_kept(v, cmd);
    }
}

/// On ASCII text, Ctrl+Delete erases exactly the word (or run of spaces)
/// that starts at the cursor.
pub proof fn lemma_ascii_word_bytes(s: Seq<char>, cur: int)
    requires
        is_ascii_chars(s),
        0 <= cur <= s.len(),
        s.len() <= usize::MAX,
    ensures
        word_right_bytes(s, cur) == word_right(s, cur),
{
    if cur < s.len() {
        lemma_word_right_is_run(s, cur);
    }
    let word = s.subrange(cur, cur + word_right(s, cur));
    assert(is_ascii_chars(word));
    is_ascii_chars_encode_utf8(word);
}

/// Right and Left without Ctrl move the cursor one character, unless it is
/// already at that end of the line; the line stays as it is.
pub proof fn lemma_plain_arrows(v: KonsoleView)
    requires
        view_ok(v),
    ensures
        ({
            let w = after_command(v, Command::Control { ctrl: false, key: ControlKey::Right });
            &&& w.input == v.input
            &&& w.cursor == if v.cursor < v.input.len() { v.cursor + 1int } else { v.cursor as int }
        }),
        ({
            let w = after_command(v, Command::Control { ctrl: false, key: ControlKey::Left });
            &&& w.input == v.input
            &&& w.cursor == if v.cursor > 0 { v.cursor - 1 } else { 0 }
        }),
{
}

/// Backspace without Ctrl erases the character before the cursor and moves
/// the cursor onto its place; Delete without Ctrl erases the character at
/// the cursor; at the end they have no character to erase. Either leaves
/// history recall.
pub proof fn lemma_plain_erase(v: KonsoleView)
    requires
        view_ok(v),
    ensures
        ({
            let w = after_command(v, Command::Control { ctrl: false, key: ControlKey::Backspace });
            &&& v.cursor > 0 ==> w.input == v.input.subrange(0, v.cursor - 1) + v.input.subrange(
                v.cursor as int,
                v.input.len() as int,
            ) && w.cursor == v.cursor - 1
            &&& v.cursor == 0 ==> w.input == v.input && w.cursor == 0
            &&& w.history_index == 0 && w.temp_input is None
        }),
        ({
            let w = after_command(v, Command::Control { ctrl: false, key: ControlKey::Delete });
            &&& v.cursor < v.input.len() ==> w.input == v.input.subrange(0, v.cursor as int)
                + v.input.subrange(v.cursor + 1int, v.input.len() as int)
            &&& v.cursor == v.input.len() ==> w.input == v.input
            &&& w.cursor == v.cursor
            &&& w.history_index == 0 && w.temp_input is None
        }),
{
    let w = after_command(v, Command::Control { ctrl: false, key: ControlKey::Backspace });
    if v.cursor == 0 {
        assert(w.input =~= v.input);
    }
    let d = after_command(v, Command::Control { ctrl: false, key: ControlKey::Delete });
    if v.cursor == v.input.len() {
        assert(d.input =~= v.input);
    }
}

/// Typing a printable character inserts it at the cursor and moves the
/// cursor past it, leaving history recall.
pub proof fn lemma_typing(v: KonsoleView, c: u8)
    requires
        view_ok(v),
    ensures
        ({
            let w = after_command(v, Command::Printable(c));
            &&& w.input.len() == v.input.len() + 1
            &&& w.input[v.cursor as int] == c as char
            &&& w.input.subrange(0, v.cursor as int) == v.input.subrange(0, v.cursor as int)
            &&& w.input.subrange(v.cursor + 1int, w.input.len() as int) == v.input.subrange(
                v.cursor as int,
                v.input.len() as int,
            )
            &&& w.cursor == v.cursor + 1
            &&& w.history_index == 0 && w.temp_input is None
        }),
{
    let w = after_command(v, Command::Printable(c));
    assert(w.input.subrange(0, v.cursor as int) =~= v.input.subrange(0, v.cursor as int));
    assert(w.input.subrange(v.cursor + 1int, w.input.len() as int) =~= v.input.subrange(
        v.cursor as int,
        v.input.len() as int,
    ));
}

/// Ctrl+Left moves the cursor to the start of the word (or run of spaces)
/// that ends at it, Ctrl+Right to the end of the one that starts at it, and
/// Ctrl+Backspace erases the former; the characters passed all agree with
/// the neighbouring one on being a space, and the next one does not.
pub proof fn lemma_ctrl_word_keys(v: KonsoleView)
    requires
        view_ok(v),
    ensures
        ({
            let w = after_command(v, Command::Control { ctrl: true, key: ControlKey::Left });
            let b = after_command(v, Command::Control { ctrl: true, key: ControlKey::Backspace });
            let k = v.cursor - w.cursor;
            &&& w.input == v.input
            &&& 0 <= w.cursor <= v.cursor
            &&& v.cursor > 0 ==> w.cursor < v.cursor
            &&& forall|j: int| w.cursor <= j < v.cursor ==> is_space(#[trigger] v.input[j]) == is_space(
                v.input[v.cursor - 1],
            )
            &&& w.cursor > 0 ==> is_space(v.input[w.cursor - 1]) != is_space(v.input[v.cursor - 1])
            &&& b.input == v.input.subrange(0, w.cursor as int) + v.input.subrange(
                v.cursor as int,
                v.input.len() as int,
            )
            &&& b.cursor == w.cursor
        }),
        ({
            let w = after_command(v, Command::Control { ctrl: true, key: ControlKey::Right });
            &&& w.input == v.input
            &&& v.cursor <= w.cursor <= v.input.len()
            &&& v.cursor < v.input.len() ==> v.cursor < w.cursor
            &&& forall|j: int| v.cursor <= j < w.cursor ==> is_space(#[trigger] v.input[j]) == is_space(
                v.input[v.cursor as int],
            )
            &&& w.cursor < v.input.len() ==> is_space(v.input[w.cursor as int]) != is_space(
                v.input[v.cursor as int],
            )
        }),
{
    if v.cursor > 0 {
        lemma_word_left_is_run(v.input, v.cursor as int);
    }
    if v.cursor < v.input.len() {
        lemma_word_right_is_run(v.input, v.cursor as int);
    }
}

/// On ASCII text, Ctrl+Delete erases the word (or run of spaces) that starts
/// at the cursor, up to where Ctrl+Right would move, and keeps the cursor.
pub proof fn lemma_ctrl_delete_ascii(v: KonsoleView)
    requires
        view_ok(v),
        is_ascii_chars(v.input),
        v.input.len() <= usize::MAX,
    ensures
        ({
            let r = after_command(v, Command::Control { ctrl: true, key: ControlKey::Right });
            let d = after_command(v, Command::Control { ctrl: true, key: ControlKey::Delete });
            &&& d.input == v.input.subrange(0, v.cursor as int) + v.input.subrange(
                r.cursor as int,
                v.input.len() as int,
            )
            &&& d.cursor == v.cursor
        }),
{
    lemma_ascii_word_bytes(v.input, v.cursor as int);
    if v.cursor < v.input.len() {
        lemma_word_right_is_run(v.input, v.cursor as int);
    }
}

/// Keys that neither edit nor navigate leave the line and the cursor alone.
pub proof fn lemma_inert_keys(v: KonsoleView, b: u8)
    ensures
        after_command(v, Command::Unsupported(b)).input == v.input,
        after_command(v, Command::Unsupported(b)).cursor == v.cursor,
        after_command(v, Command::CtrlC).input == v.input,
        after_command(v, Command::CtrlC).cursor == v.cursor,
        after_command(v, Command::Tab).input == v.input,
        after_command(v, Command::Tab).cursor == v.cursor,
{
}

/// Enter with the history on and a nonempty line that differs from the
/// newest entry records the line as the newest entry and makes it the
/// recall position, so that Up then recalls the line just submitted.
pub proof fn lemma_submit_records_newest(v: KonsoleView)
    requires
        view_ok(v),
        v.history_enabled,
        v.input.len() > 0,
        v.history.len() == 0 || v.history[0] != v.input,
        v.history_limit > 0,
    ensures
        ({
            let w = after_command(v, Command::Enter);
            let up = after_command(w, Command::Control { ctrl: false, key: ControlKey::Up });
            &&& w.history[0] == v.input
            &&& w.history_index == 0
            &&& w.temp_input is None
            &&& w.input.len() == 0
            &&& up.input == v.input
            &&& up.cursor == v.input.len()
        }),
{
}

/// Enter with the history off, or with an empty line, or with the line the
/// newest entry already holds, leaves the history as it is.
pub proof fn lemma_submit_skips(v: KonsoleView)
    requires
        view_ok(v),
        !v.history_enabled || v.input.len() == 0 || (v.history.len() > 0 && v.history[0] == v.input),
    ensures
        after_command(v, Command::Enter).history == v.history,
        after_command(v, Command::Enter).queued_inputs == v.queued_inputs.push(v.input),
{
}

/// A first Up recalls the newest history entry and puts the typed line
/// aside; a Down from there gives the typed line back.
pub proof fn lemma_up_then_down_basic(v: KonsoleView)
    requires
        view_ok(v),
        v.history_enabled,
        v.history.len() > 0,
        v.history_limit > 0,
        v.temp_input is None,
        v.history_index == 0,
    ensures
        ({
            let u = after_command(v, Command::Control { ctrl: false, key: ControlKey::Up });
            let d = after_command(u, Command::Control { ctrl: false, key: ControlKey::Down });
            &&& u.input == v.history[0]
            &&& u.cursor == v.history[0].len()
            &&& u.temp_input == Some(v.input)
            &&& d.input == v.input
            &&& d.cursor == v.input.len()
            &&& d.temp_input is None
        }),
{
}

/// Moving the cursor by `offset` puts it `offset` characters further (back
/// when negative), stopping at the start or the end of the line; the line
/// stays as it is.
pub proof fn lemma_move_by(v: KonsoleView, offset: int)
    requires
        view_ok(v),
    ensures
        moved(v, offset).input == v.input,
        v.cursor + offset < 0 ==> moved(v, offset).cursor == 0,
        v.cursor + offset > v.input.len() ==> moved(v, offset).cursor == v.input.len(),
        0 <= v.cursor + offset <= v.input.len() ==> moved(v, offset).cursor == v.cursor + offset,
{
}

/// Deleting `amount` characters: when negative, the `-amount` characters
/// before the cursor go (all of them, when there are fewer) and the cursor
/// moves back over them; otherwise the `amount` characters after it go.
pub proof fn lemma_delete_by(v: KonsoleView, amount: int)
    requires
        view_ok(v),
        isize::MIN < amount <= isize::MAX,
    ensures
        ({
            let w = erased(v, amount);
            let n: int = if amount < 0 {
                if -amount < v.cursor { -amount } else { v.cursor as int }
            } else {
                if amount < v.input.len() - v.cursor { amount } else { v.input.len() - v.cursor }
            };
            &&& amount < 0 ==> w.input == v.input.subrange(0, v.cursor - n) + v.input.subrange(
                v.cursor as int,
                v.input.len() as int,
            ) && w.cursor == v.cursor - n
            &&& amount >= 0 ==> w.input == v.input.subrange(0, v.cursor as int) + v.input.subrange(
                v.cursor + n,
                v.input.len() as int,
            ) && w.cursor == v.cursor
            &&& w.input.len() == v.input.len() - n
        }),
{
}

/// One Up, once recall has begun, moves to the next older entry while there
/// is one within the limit; one Down moves to the next newer entry. Each
/// shows the entry with the cursor at its end.
pub proof fn lemma_recall_steps(v: KonsoleView)
    requires
        view_ok(v),
        v.history_enabled,
        v.temp_input is Some,
    ensures
        v.history_index + 1 < v.history.len() && v.history_index + 1 < v.history_limit ==> ({
            let u = after_command(v, Command::Control { ctrl: false, key: ControlKey::Up });
            &&& u.history_index == v.history_index + 1
            &&& u.input == v.history[v.history_index + 1int]
            &&& u.cursor == v.history[v.history_index + 1int].len()
            &&& u.temp_input == v.temp_input
        }),
        v.history_index > 0 ==> ({
            let d = after_command(v, Command::Control { ctrl: false, key: ControlKey::Down });
            &&& d.history_index == v.history_index - 1
            &&& d.input == v.history[v.history_index - 1]
            &&& d.cursor == v.history[v.history_index - 1].len()
            &&& d.temp_input == v.temp_input
        }),
{
}

/// With the history off, Up and Down change nothing (but end a run of Tab presses).
pub proof fn lemma_recall_off(v: KonsoleView)
    requires
        view_ok(v),
        !v.history_enabled,
    ensures
        after_command(v, Command::Control { ctrl: false, key: ControlKey::Up }) == (KonsoleView {
            tab_repeat: 0,
            ..v
        }),
        after_command(v, Command::Control { ctrl: false, key: ControlKey::Down }) == (KonsoleView {
            tab_repeat: 0,
            ..v
        }),
{
}

/// Recording a line puts it first; when the history already held more than
/// its limit, the oldest entry goes, and only that one.
pub proof fn lemma_submit_drops_oldest(v: KonsoleView)
    requires
        view_ok(v),
        v.history_enabled,
        v.input.len() > 0,
        v.history.len() == 0 || v.history[0] != v.input,
    ensures
        v.history.len() > v.history_limit ==> after_command(v, Command::Enter).history == seq![
            v.input,
        ] + v.history.subrange(0, v.history.len() - 1),
        v.history.len() <= v.history_limit ==> after_command(v, Command::Enter).history == seq![
            v.input,
        ] + v.history,
{
    if v.history.len() > v.history_limit {
        assert(v.history.drop_last() =~= v.history.subrange(0, v.history.len() - 1));
    }
}

/// What the setters and clearing functions change, and that they change nothing else.
pub proof fn lemma_settings(v: KonsoleView, p: Seq<char>, n: nat, b: bool)
    ensures
        collected(v).queued_inputs.len() == 0,
        collected(v) == (KonsoleView { queued_inputs: collected(v).queued_inputs, ..v }),
        prompt_set(v, p).prompt == p,
        prompt_set(v, p) == (KonsoleView { prompt: p, ..v }),
        history_limit_set(v, n).history_limit == n,
        history_limit_set(v, n) == (KonsoleView { history_limit: n, ..v }),
        history_enabled_set(v, b).history_enabled == b,
        history_enabled_set(v, b) == (KonsoleView { history_enabled: b, ..v }),
        input_cleared(v).input.len() == 0,
        input_cleared(v).cursor == 0,
        input_cleared(v) == (KonsoleView {
            input: input_cleared(v).input,
            cursor: 0,
            ..v
        }),
        history_cleared(v).history.len() == 0,
        history_cleared(v).history_index == 0,
        history_cleared(v) == (KonsoleView {
            history: history_cleared(v).history,
            history_index: 0,
            ..v
        }),
{
}

/// A completion that lands replaces the line with its output and puts the
/// cursor at the character whose byte offset in the output is the cursor's
/// old byte offset moved by the completion's movement, held within the
/// output; one that would land inside a character changes nothing.
pub proof fn lemma_completion_lands(v: KonsoleView, output: Seq<char>, movement: int)
    requires
        view_ok(v),
    ensures
        completion_fits(v, output, movement) ==> ({
            let w = completion_applied(v, output, movement);
            &&& w.input == output
            &&& w.cursor <= output.len()
            &&& byte_offset(output, w.cursor as int) == clamp(
                byte_offset(v.input, v.cursor as int) + movement,
                0,
                (encode_utf8(output).len() as usize) as int,
            )
            &&& w == (KonsoleView { input: output, cursor: w.cursor, ..v })
        }),
        !completion_fits(v, output, movement) ==> completion_applied(v, output, movement) == v,
{
    if completion_fits(v, output, movement) {
        let bytes = encode_utf8(output);
        let t = completion_target(v, output, movement);
        encode_utf8_valid_utf8(output);
        encode_utf8_decode_utf8(output);
        valid_utf8_split(bytes, t);
        decode_utf8_split(bytes, t);
        let left = decode_utf8(bytes.subrange(0, t));
        decode_utf8_encode_utf8(bytes.subrange(0, t));
        assert(output =~= left + decode_utf8(bytes.subrange(t, bytes.len() as int)));
        assert(output.take(left.len() as int) =~= left);
    }
}

} // verus!
