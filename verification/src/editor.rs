//! The editor: the line being edited, its cursor, the history of submitted
//! lines and the queue of lines waiting to be collected.

use vstd::prelude::*;
use std::collections::VecDeque;
use crate::keys::{Command, ControlKey};
use crate::model::{
    KonsoleView, initial_view, clamp, view_ok, moved, recall_dropped, typed, erased_before, erased_after,
    erased, word_left, word_right, word_right_bytes, run_left, run_right, recalled_older, recalled_newer,
    records, submitted, collected, prompt_set, history_limit_set, history_enabled_set,
    input_cleared, history_cleared, activated, stop_requested, stopped, completed, completion_fits, byte_offset, handled, after_command,
};
use vstd::utf8::{
    encode_utf8, decode_utf8_split, encode_utf8_decode_utf8, encode_utf8_valid_utf8,
};
use crate::text::{chars_of, string_from_chars, push_char};
use crate::render::{blank_row, blank_row_text, push_chars};

verus! {

/// What a completion handler is asked on a Tab press.
pub struct TabQuery {
    /// The line being edited.
    pub input: String,
    /// The cursor's byte offset in it.
    pub cursor_position: usize,
    /// How many Tab presses came in a row before this one.
    pub tab_repeat: usize,
    /// The cursor's byte offset when this run of Tab presses began.
    pub cursor_before: usize,
}

/// A completion handler's answer: the new line, and by how many bytes to move the cursor.
pub struct TabResult {
    pub output: String,
    pub cursor_movement: isize,
}

/// What the key loop does after a key press has been handled.
pub enum Action {
    /// Read the next key.
    Continue,
    /// Stop reading keys and shut the console down (Ctrl+C).
    Quit,
    /// Ask the completion handler, then hand its answer to `apply_completion`.
    Complete(TabQuery),
}

/// What starting the console takes.
#[derive(Clone, Copy, Debug, PartialEq, Eq, Structural)]
pub enum Activation {
    /// It runs already: nothing to do.
    AlreadyActive,
    /// Start the key loop; prepare the terminal first when `init_terminal` holds.
    Start { init_terminal: bool },
}

/// The state of one interactive console. Positions in the line (the
/// cursor, the distances to word boundaries) count characters.
pub struct Konsole {
    initialized: bool,
    active: bool,
    running: bool,
    queued_inputs: Vec<String>,
    input: Vec<char>,
    temp_input: Option<Vec<char>>,
    prompt: String,
    cursor: usize,
    history: VecDeque<String>,
    history_enabled: bool,
    history_limit: usize,
    history_index: usize,
    tab_repeat: usize,
    cursor_before_tab: usize,
}

/// The characters of each string of `v`.
pub open spec fn views_of(v: Seq<String>) -> Seq<Seq<char>> {
    v.map_values(|s: String| s@)
}

impl View for Konsole {
    type V = KonsoleView;

    closed spec fn view(&self) -> KonsoleView {
        KonsoleView {
            initialized: self.initialized,
            active: self.active,
            running: self.running,
            queued_inputs: views_of(self.queued_inputs@),
            input: self.input@,
            temp_input: match self.temp_input {
                Some(t) => Some(t@),
                None => None,
            },
            prompt: self.prompt@,
            cursor: self.cursor as nat,
            history: views_of(self.history@),
            history_enabled: self.history_enabled,
            history_limit: self.history_limit as nat,
            history_index: self.history_index as nat,
            tab_repeat: self.tab_repeat as nat,
            cursor_before_tab: self.cursor_before_tab as nat,
        }
    }
}

impl Konsole {
    /// The state's invariant: the cursor lies within the line, the recalled
    /// history entry exists, and the history holds no empty entry and no
    /// entry twice in a row.
    pub open spec fn wf(&self) -> bool {
        view_ok(self@)
    }

    /// A fresh console: inactive, empty, history off with a limit of 256.
    pub fn new() -> (k: Konsole)
        ensures
            k@ == initial_view(),
            k.wf(),
    {
        let k = Konsole {
            initialized: false,
            active: false,
            running: false,
            queued_inputs: Vec::new(),
            input: Vec::new(),
            temp_input: None,
            prompt: String::new(),
            cursor: 0,
            history: VecDeque::new(),
            history_enabled: false,
            history_limit: 256,
            history_index: 0,
            tab_repeat: 0,
            cursor_before_tab: 0,
        };
        assert(views_of(k.queued_inputs@) =~= Seq::empty());
        assert(views_of(k.history@) =~= Seq::empty());
        k
    }

    /// Moves the cursor by `offset` characters, stopping at either end of the line.
    pub fn move_cursor(&mut self, offset: isize)
        requires
            old(self).wf(),
        ensures
            final(self)@ == moved(old(self)@, offset as int),
            final(self).wf(),
    {
        self.cursor = clamp_move(self.cursor, offset, self.input.len());
    }

    /// Leaves history recall: what is being edited is now the line typed.
    pub fn ensure_take_history(&mut self)
        requires
            old(self).wf(),
        ensures
            final(self)@ == recall_dropped(old(self)@),
            final(self).wf(),
    {
        self.history_index = 0;
        self.temp_input = None;
    }

    /// Types the byte `c` at the cursor, as a character, and moves the cursor past it.
    pub fn add_char(&mut self, c: u8)
        requires
            old(self).wf(),
        ensures
            final(self)@ == typed(old(self)@, c as char),
            final(self).wf(),
    {
        self.ensure_take_history();
        self.input.insert(self.cursor, c as char);
        let len = self.input.len();
        assert(self.cursor < len);
        self.cursor = self.cursor + 1;
    }

    /// Erases `k` characters before the cursor, or as many as there are.
    fn delete_before(&mut self, k: usize)
        requires
            old(self).wf(),
        ensures
            final(self)@ == erased_before(old(self)@, k as nat),
            final(self).wf(),
    {
        self.ensure_take_history();
        let n = if k < self.cursor { k } else { self.cursor };
        let start = self.cursor - n;
        self.input = cut(&self.input, start, self.cursor);
        self.cursor = start;
    }

    /// Erases `k` characters after the cursor, or as many as there are.
    fn delete_after(&mut self, k: usize)
        requires
            old(self).wf(),
        ensures
            final(self)@ == erased_after(old(self)@, k as nat),
            final(self).wf(),
    {
        self.ensure_take_history();
        let rest = self.input.len() - self.cursor;
        let n = if k < rest { k } else { rest };
        self.input = cut(&self.input, self.cursor, self.cursor + n);
    }

    /// Erases `|amount|` characters: before the cursor when `amount` is
    /// negative, after it otherwise; as many as there are, when fewer.
    pub fn delete(&mut self, amount: isize)
        requires
            old(self).wf(),
        ensures
            final(self)@ == erased(old(self)@, amount as int),
            final(self).wf(),
    {
        if amount < 0 {
            let k: usize = if amount == isize::MIN { isize::MAX as usize } else { (-amount) as usize };
            self.delete_before(k);
        } else {
            self.delete_after(amount as usize);
        }
    }

    /// Up: recalls the next older history entry into the line, keeping what
    /// was typed on the first step back; the cursor goes to the end.
    pub fn history_up(&mut self)
        requires
            old(self).wf(),
        ensures
            final(self)@ == recalled_older(old(self)@),
            final(self).wf(),
    {
        if !self.history_enabled {
            return;
        }
        if self.history_index >= self.history_limit || self.history_index >= self.history.len() {
            return;
        }
        if self.temp_input.is_none() {
            self.temp_input = Some(copy_chars(&self.input));
        } else if self.history_index < self.history_limit - 1 && self.history_index
            < self.history.len() - 1 {
            self.history_index = self.history_index + 1;
        }
        self.input = chars_of(self.history[self.history_index].as_str());
        self.cursor = self.input.len();
    }

    /// Down: recalls the next newer history entry, or, from the newest, what
    /// was typed before recall began; the cursor goes to the end.
    pub fn history_down(&mut self)
        requires
            old(self).wf(),
        ensures
            final(self)@ == recalled_newer(old(self)@),
            final(self).wf(),
    {
        if !self.history_enabled {
            return;
        }
        if self.history.len() == 0 {
            return;
        }
        if self.history_index == 0 {
            match self.temp_input.take() {
                Some(t) => {
                    self.input = t;
                },
                None => {},
            }
        } else {
            self.history_index = self.history_index - 1;
            self.input = chars_of(self.history[self.history_index].as_str());
        }
        self.cursor = self.input.len();
    }

    /// Enter: queues the line for collection, records it in the history
    /// (see `records`), and starts a new empty line.
    pub fn submit(&mut self)
        requires
            old(self).wf(),
        ensures
            final(self)@ == submitted(old(self)@),
            final(self).wf(),
    {
        let ghost old_view = self@;
        let line = string_from_chars(self.input.as_slice());
        let nonempty = self.input.len() > 0;
        self.input = Vec::new();
        self.cursor = 0;
        self.temp_input = None;
        let record = self.history_enabled && nonempty && (self.history.len() == 0 || !(
        self.history[0] == line));
        assert(record == records(old_view));
        if record {
            let ghost before = self.history@;
            if self.history.len() > self.history_limit {
                self.history.pop_back();
                assert(views_of(self.history@) =~= views_of(before).drop_last());
            }
            let ghost mid = self.history@;
            self.history.push_front(line.clone());
            assert(views_of(self.history@) =~= seq![line@] + views_of(mid));
            self.history_index = 0;
        }
        let ghost q = self.queued_inputs@;
        self.queued_inputs.push(line);
        assert(views_of(self.queued_inputs@) =~= views_of(q).push(old_view.input));
        assert(self@ =~= submitted(old_view));
    }

    /// The text that redraws the input row of a terminal `width` columns
    /// wide: the row blanked, then prompt and line, then prompt and the line
    /// up to the cursor, which leaves the terminal's cursor at the editor's.
    pub fn refresh_text(&self, width: usize) -> (text: String)
        requires
            self.wf(),
        ensures
            text@ == refresh_view(self@, width as nat),
    {
        let mut text = blank_row(width);
        push_char(&mut text, '\r');
        text.append(self.prompt.as_str());
        push_chars(&mut text, self.input.as_slice());
        push_char(&mut text, '\r');
        text.append(self.prompt.as_str());
        push_chars(&mut text, slice_prefix(&self.input, self.cursor));
        assert(self.input@.subrange(0, self.cursor as int) =~= self.input@.take(self.cursor as int));
        assert(text@ =~= refresh_view(self@, width as nat));
        text
    }

    /// How many Tab presses came in a row before the next key.
    pub fn tab_repeat(&self) -> (n: usize)
        ensures
            n == self@.tab_repeat,
    {
        self.tab_repeat
    }

    /// Handles one key press. The page keys are not handled.
    pub fn handle_command(&mut self, cmd: Command) -> (action: Action)
        requires
            old(self).wf(),
            handled(cmd),
            cmd is Tab ==> old(self)@.tab_repeat < usize::MAX,
        ensures
            final(self)@ == after_command(old(self)@, cmd),
            final(self).wf(),
            match action {
                Action::Complete(q) => {
                    &&& cmd is Tab
                    &&& q.input@ == old(self)@.input
                    &&& q.cursor_position == byte_offset(old(self)@.input, old(self)@.cursor as int)
                    &&& q.tab_repeat == old(self)@.tab_repeat
                    &&& q.cursor_before == final(self)@.cursor_before_tab
                },
                Action::Quit => cmd is CtrlC,
                Action::Continue => !(cmd is Tab) && !(cmd is CtrlC),
            },
    {
        match cmd {
            Command::Tab => {},
            _ => {
                self.tab_repeat = 0;
            },
        }
        match cmd {
            Command::Control { ctrl, key } => {
                match key {
                    ControlKey::Start => {
                        if ctrl {
                            self.delete(isize::MIN);
                        } else {
                            self.move_cursor(isize::MIN);
                        }
                    },
                    ControlKey::End => {
                        if ctrl {
                            self.delete(isize::MAX);
                        } else {
                            self.move_cursor(isize::MAX);
                        }
                    },
                    ControlKey::Backspace => {
                        let k = if ctrl { self.to_boundary_left() } else { 1 };
                        self.delete_before(k);
                    },
                    ControlKey::Delete => {
                        let k = if ctrl { self.word_bytes_right() } else { 1 };
                        self.delete_after(k);
                    },
                    ControlKey::Left => {
                        let k = if ctrl { self.to_boundary_left() } else { 1 };
                        self.cursor = if k >= self.cursor { 0 } else { self.cursor - k };
                    },
                    ControlKey::Right => {
                        let k = if ctrl { self.to_boundary_right() } else { 1 };
                        self.cursor = clamp_move_right(self.cursor, k, self.input.len());
                    },
                    ControlKey::Up => self.history_up(),
                    ControlKey::Down => self.history_down(),
                    _ => {},
                }
                Action::Continue
            },
            Command::Tab => {
                let byte_cursor = self.byte_cursor();
                if self.tab_repeat == 0 {
                    self.cursor_before_tab = byte_cursor;
                }
                let query = TabQuery {
                    input: string_from_chars(self.input.as_slice()),
                    cursor_position: byte_cursor,
                    tab_repeat: self.tab_repeat,
                    cursor_before: self.cursor_before_tab,
                };
                self.tab_repeat = self.tab_repeat + 1;
                Action::Complete(query)
            },
            Command::Enter => {
                self.submit();
                Action::Continue
            },
            Command::CtrlC => Action::Quit,
            Command::Printable(c) => {
                self.add_char(c);
                Action::Continue
            },
            Command::Unsupported(_) => Action::Continue,
        }
    }

    /// How many bytes the UTF-8 encoding of the word (or run of spaces) that
    /// starts at the cursor takes.
    fn word_bytes_right(&self) -> (b: usize)
        requires
            self.wf(),
        ensures
            b == word_right_bytes(self@.input, self@.cursor as int),
    {
        let k = self.to_boundary_right();
        let len = self.input.len();
        assert(self.cursor + k <= len);
        let word = string_from_chars(vstd::slice::slice_subrange(
            self.input.as_slice(),
            self.cursor,
            self.cursor + k,
        ));
        word.as_str().len()
    }

    /// The cursor's byte offset in the UTF-8 encoding of the line.
    fn byte_cursor(&self) -> (b: usize)
        requires
            self.wf(),
        ensures
            b == byte_offset(self@.input, self@.cursor as int),
    {
        let prefix = string_from_chars(slice_prefix(&self.input, self.cursor));
        assert(self.input@.subrange(0, self.cursor as int) =~= self.input@.take(self.cursor as int));
        prefix.as_str().len()
    }

    /// Puts a completion handler's answer in place: its output replaces the
    /// line, and the cursor moves by its movement in bytes, held within the
    /// new line. Answers whether the cursor landed between two characters;
    /// when it would land inside one, nothing changes.
    pub fn apply_completion(&mut self, result: TabResult) -> (landed: bool)
        requires
            old(self).wf(),
        ensures
            landed == completion_fits(old(self)@, result.output@, result.cursor_movement as int),
            landed ==> final(self)@ == completed(
                old(self)@,
                result.output@,
                result.cursor_movement as int,
            ),
            !landed ==> final(self)@ == old(self)@,
            final(self).wf(),
    {
        let byte_cursor = self.byte_cursor();
        let out = result.output.as_str();
        let target = clamp_move(byte_cursor, result.cursor_movement, out.len());
        if !out.is_char_boundary(target) {
            return false;
        }
        let (left, _right) = out.split_at(target);
        let left_chars = chars_of(left);
        proof {
            let bytes = encode_utf8(result.output@);
            encode_utf8_valid_utf8(result.output@);
            encode_utf8_decode_utf8(result.output@);
            encode_utf8_decode_utf8(left@);
            decode_utf8_split(bytes, target as int);
            assert(bytes.subrange(0, target as int) == encode_utf8(left@));
        }
        self.input = chars_of(out);
        self.cursor = left_chars.len();
        true
    }

    /// Marks the console as starting, and says what starting it takes.
    pub fn activate(&mut self) -> (a: Activation)
        requires
            old(self).wf(),
        ensures
            final(self).wf(),
            final(self)@ == activated(old(self)@),
            old(self)@.active ==> a == Activation::AlreadyActive,
            !old(self)@.active ==> a == (Activation::Start { init_terminal: !old(self)@.initialized }),
    {
        if self.active {
            return Activation::AlreadyActive;
        }
        let init_terminal = !self.initialized;
        self.initialized = true;
        self.active = true;
        self.running = true;
        Activation::Start { init_terminal }
    }

    /// Signals the key loop to stop. Answers whether it was running, so that
    /// the caller waits for it; a console that is stopped or stopping is left as it is.
    pub fn deactivate(&mut self) -> (stopping: bool)
        requires
            old(self).wf(),
        ensures
            final(self).wf(),
            stopping == (old(self)@.active && old(self)@.running),
            final(self)@ == stop_requested(old(self)@),
    {
        if !self.active || !self.running {
            return false;
        }
        self.running = false;
        true
    }

    /// Records that the key loop has ended.
    pub fn mark_stopped(&mut self)
        requires
            old(self).wf(),
        ensures
            final(self).wf(),
            final(self)@ == stopped(old(self)@),
    {
        self.active = false;
    }

    /// Whether the key loop should go on.
    pub fn is_running(&self) -> (r: bool)
        ensures
            r == self@.running,
    {
        self.running
    }

    /// How far left of the cursor the word, or the run of spaces, that ends at the cursor begins.
    pub fn to_boundary_left(&self) -> (k: usize)
        requires
            self.wf(),
        ensures
            k == word_left(self@.input, self@.cursor as int),
    {
        let mut c = self.cursor;
        if c == 0 {
            return 0;
        }
        let started_space = self.input[c - 1] == ' ';
        while c > 0 && (self.input[c - 1] == ' ') == started_space
            invariant
                c <= self.cursor <= self.input@.len(),
                run_left(self.input@, self.cursor as int, started_space)
                    == (self.cursor - c) + run_left(self.input@, c as int, started_space),
            decreases c,
        {
            c = c - 1;
        }
        self.cursor - c
    }

    /// How far right of the cursor the word, or the run of spaces, that starts at the cursor ends.
    pub fn to_boundary_right(&self) -> (k: usize)
        requires
            self.wf(),
        ensures
            k == word_right(self@.input, self@.cursor as int),
            k <= self@.input.len() - self@.cursor,
    {
        let mut c = self.cursor;
        let len = self.input.len();
        if c == len {
            return 0;
        }
        let started_space = self.input[c] == ' ';
        while c < len && (self.input[c] == ' ') == started_space
            invariant
                self.cursor <= c <= len,
                len == self.input@.len(),
                run_right(self.input@, self.cursor as int, started_space)
                    == (c - self.cursor) + run_right(self.input@, c as int, started_space),
            decreases len - c,
        {
            c = c + 1;
        }
        c - self.cursor
    }
}

/// Whether the console is active.
pub fn is_active(konsole: &Konsole) -> (r: bool)
    ensures
        r == konsole@.active,
{
    konsole.active
}

/// Takes the submitted lines that wait to be collected, oldest first, and
/// leaves none waiting.
pub fn queued_inputs(konsole: &mut Konsole) -> (lines: Vec<String>)
    requires
        old(konsole).wf(),
    ensures
        views_of(lines@) == old(konsole)@.queued_inputs,
        final(konsole)@ == collected(old(konsole)@),
        final(konsole).wf(),
{
    let mut lines: Vec<String> = Vec::new();
    std::mem::swap(&mut lines, &mut konsole.queued_inputs);
    assert(views_of(konsole.queued_inputs@) =~= Seq::empty());
    lines
}

/// The prompt shown before the line.
pub fn get_prompt(konsole: &Konsole) -> (prompt: String)
    ensures
        prompt@ == konsole@.prompt,
{
    konsole.prompt.clone()
}

/// Sets the prompt. Answers whether the input row must be redrawn: it must
/// when the console is active.
pub fn set_prompt(konsole: &mut Konsole, prompt: String) -> (redraw: bool)
    requires
        old(konsole).wf(),
    ensures
        final(konsole)@ == prompt_set(old(konsole)@, prompt@),
        final(konsole).wf(),
        redraw == old(konsole)@.active,
{
    konsole.prompt = prompt;
    konsole.active
}

/// The history limit: once the history holds more entries than this,
/// recording a line drops the oldest one (see `submitted`).
pub fn get_history_limit(konsole: &Konsole) -> (limit: usize)
    ensures
        limit == konsole@.history_limit,
{
    konsole.history_limit
}

/// Sets the history limit.
pub fn set_history_limit(konsole: &mut Konsole, limit: usize)
    requires
        old(konsole).wf(),
    ensures
        final(konsole)@ == history_limit_set(old(konsole)@, limit as nat),
        final(konsole).wf(),
{
    konsole.history_limit = limit;
}

/// Whether submitted lines are recorded and can be recalled.
pub fn is_history_enabled(konsole: &Konsole) -> (enabled: bool)
    ensures
        enabled == konsole@.history_enabled,
{
    konsole.history_enabled
}

/// Turns recording and recall of submitted lines on or off.
pub fn set_history_enabled(konsole: &mut Konsole, enabled: bool)
    requires
        old(konsole).wf(),
    ensures
        final(konsole)@ == history_enabled_set(old(konsole)@, enabled),
        final(konsole).wf(),
{
    konsole.history_enabled = enabled;
}

/// Empties the line being edited and puts the cursor at its start.
pub fn clear_input(konsole: &mut Konsole)
    requires
        old(konsole).wf(),
    ensures
        final(konsole)@ == input_cleared(old(konsole)@),
        final(konsole).wf(),
{
    konsole.input = Vec::new();
    konsole.cursor = 0;
}

/// Forgets every history entry.
pub fn clear_history(konsole: &mut Konsole)
    requires
        old(konsole).wf(),
    ensures
        final(konsole)@ == history_cleared(old(konsole)@),
        final(konsole).wf(),
{
    konsole.history.clear();
    konsole.history_index = 0;
    assert(views_of(konsole.history@) =~= Seq::empty());
}

/// The first `n` characters of `v`.
fn slice_prefix(v: &Vec<char>, n: usize) -> (r: &[char])
    requires
        n <= v@.len(),
    ensures
        r@ == v@.subrange(0, n as int),
{
    vstd::slice::slice_subrange(v.as_slice(), 0, n)
}

/// What redraws the input row: see `Konsole::refresh_text`.
pub open spec fn refresh_view(v: KonsoleView, width: nat) -> Seq<char> {
    blank_row_text(width) + seq!['\r'] + v.prompt + v.input + seq!['\r'] + v.prompt + v.input.take(
        v.cursor as int,
    )
}

/// Redrawing writes: a carriage return and `width` spaces (blanking the
/// row), a carriage return, the prompt and the whole line, then a carriage
/// return, the prompt and the line up to the cursor.
pub proof fn lemma_refresh_shape(v: KonsoleView, width: nat)
    requires
        v.cursor <= v.input.len(),
    ensures
        refresh_view(v, width) == seq!['\r'] + Seq::new(width, |i: int| ' ') + seq!['\r'] + v.prompt
            + v.input + seq!['\r'] + v.prompt + v.input.subrange(0, v.cursor as int),
{
    assert(blank_row_text(width) =~= seq!['\r'] + Seq::new(width, |i: int| ' '));
    assert(v.input.take(v.cursor as int) =~= v.input.subrange(0, v.cursor as int));
}

/// `cursor + offset`, held within `0..=len`.
fn clamp_move(cursor: usize, offset: isize, len: usize) -> (r: usize)
    ensures
        r == clamp(cursor + offset, 0, len as int),
{
    if offset >= 0 {
        let forward = offset as usize;
        if cursor >= len || forward >= len - cursor {
            len
        } else {
            cursor + forward
        }
    } else {
        let back: usize = ((-(offset + 1)) as usize) + 1;
        if back >= cursor {
            0
        } else if cursor - back > len {
            len
        } else {
            cursor - back
        }
    }
}

/// `cursor + k`, held at `len`.
fn clamp_move_right(cursor: usize, k: usize, len: usize) -> (r: usize)
    requires
        cursor <= len,
    ensures
        r == clamp(cursor + k, 0, len as int),
{
    if k >= len - cursor {
        len
    } else {
        cursor + k
    }
}

/// A copy of `v`.
fn copy_chars(v: &Vec<char>) -> (r: Vec<char>)
    ensures
        r@ == v@,
{
    let mut r: Vec<char> = Vec::new();
    let mut i: usize = 0;
    while i < v.len()
        invariant
            i <= v@.len(),
            r@ == v@.subrange(0, i as int),
        decreases v@.len() - i,
    {
        r.push(v[i]);
        i = i + 1;
        assert(r@ =~= v@.subrange(0, i as int));
    }
    assert(r@ =~= v@);
    r
}

/// `v` without the characters from `from` up to `to`.
fn cut(v: &Vec<char>, from: usize, to: usize) -> (r: Vec<char>)
    requires
        from <= to <= v@.len(),
    ensures
        r@ == v@.subrange(0, from as int) + v@.subrange(to as int, v@.len() as int),
{
    let mut r: Vec<char> = Vec::new();
    let mut i: usize = 0;
    while i < from
        invariant
            i <= from <= to <= v@.len(),
            r@ == v@.subrange(0, i as int),
        decreases from - i,
    {
        r.push(v[i]);
        i = i + 1;
        assert(r@ =~= v@.subrange(0, i as int));
    }
    let mut j: usize = to;
    while j < v.len()
        invariant
            from <= to <= j <= v@.len(),
            r@ == v@.subrange(0, from as int) + v@.subrange(to as int, j as int),
        decreases v@.len() - j,
    {
        r.push(v[j]);
        j = j + 1;
        assert(r@ =~= v@.subrange(0, from as int) + v@.subrange(to as int, j as int));
    }
    r
}

} // verus!
