//! The text written to the terminal: blanking the input row, a line printed
//! above the input row, and the input row itself.

use vstd::prelude::*;
use crate::text::push_char;

verus! {

/// `n` spaces.
pub open spec fn spaces(n: nat) -> Seq<char> {
    Seq::new(n, |i: int| ' ')
}

/// A carriage return, then `width` spaces: blanks the row the cursor is on.
pub open spec fn blank_row_text(width: nat) -> Seq<char> {
    seq!['\r'] + spaces(width)
}

/// `line` padded with spaces to at least `width` characters.
pub open spec fn padded(line: Seq<char>, width: nat) -> Seq<char> {
    if line.len() >= width {
        line
    } else {
        line + spaces((width - line.len()) as nat)
    }
}

pub open spec fn ends_with_newline(line: Seq<char>) -> bool {
    line.len() > 0 && line.last() == '\n'
}

/// The text that prints `line` over the input row of a terminal `width`
/// columns wide: the row blanked, then the line padded to the width, then a
/// newline unless the line ends with one.
pub open spec fn printout_view(line: Seq<char>, width: nat) -> Seq<char> {
    blank_row_text(width) + seq!['\r'] + padded(line, width) + if ends_with_newline(line) {
        Seq::<char>::empty()
    } else {
        seq!['\n']
    }
}

/// Appends `n` spaces to `s`.
pub(crate) fn push_spaces(s: &mut String, n: usize)
    ensures
        final(s)@ == old(s)@ + spaces(n as nat),
{
    let ghost start = s@;
    let mut i: usize = 0;
    while i < n
        invariant
            i <= n,
            s@ == start + spaces(i as nat),
        decreases n - i,
    {
        push_char(s, ' ');
        i = i + 1;
        assert(s@ =~= start + spaces(i as nat));
    }
}

/// Appends the characters of `t` to `s`.
pub(crate) fn push_chars(s: &mut String, t: &[char])
    ensures
        final(s)@ == old(s)@ + t@,
{
    let ghost start = s@;
    let mut i: usize = 0;
    while i < t.len()
        invariant
            i <= t@.len(),
            s@ == start + t@.subrange(0, i as int),
        decreases t@.len() - i,
    {
        push_char(s, t[i]);
        i = i + 1;
        assert(s@ =~= start + t@.subrange(0, i as int));
    }
    assert(t@.subrange(0, t@.len() as int) =~= t@);
}

/// The text that blanks the input row of a terminal `width` columns wide.
pub fn blank_row(width: usize) -> (text: String)
    ensures
        text@ == blank_row_text(width as nat),
{
    let mut text = String::new();
    push_char(&mut text, '\r');
    push_spaces(&mut text, width);
    assert(text@ =~= blank_row_text(width as nat));
    text
}

/// The text that prints `line` above the input row of a terminal `width`
/// columns wide (the input row is redrawn after it).
pub fn printout_text(line: &str, width: usize) -> (text: String)
    ensures
        text@ == printout_view(line@, width as nat),
{
    let chars = crate::text::chars_of(line);
    let mut text = blank_row(width);
    push_char(&mut text, '\r');
    push_chars(&mut text, chars.as_slice());
    if chars.len() < width {
        push_spaces(&mut text, width - chars.len());
    }
    let ends = chars.len() > 0 && chars[chars.len() - 1] == '\n';
    if !ends {
        push_char(&mut text, '\n');
    }
    assert(text@ =~= printout_view(line@, width as nat));
    text
}

/// Printing a line above the input row writes: a carriage return and
/// `width` spaces (blanking the row), a carriage return, the line, spaces up
/// to `width` characters, and a newline exactly when the line's last
/// character is not one (an empty line included), whatever newlines it
/// holds before its end.
pub proof fn lemma_printout_shape(line: Seq<char>, width: nat)
    ensures
        ({
            let pad: nat = if width > line.len() { (width - line.len()) as nat } else { 0 };
            let body = seq!['\r'] + Seq::new(width, |i: int| ' ') + seq!['\r'] + line + Seq::new(
                pad,
                |i: int| ' ',
            );
            &&& (line.len() == 0 || line.last() != '\n') ==> printout_view(line, width) == body
                + seq!['\n']
            &&& (line.len() > 0 && line.last() == '\n') ==> printout_view(line, width) == body
        }),
{
    let pad: nat = if width > line.len() { (width - line.len()) as nat } else { 0 };
    assert(padded(line, width) =~= line + Seq::new(pad, |i: int| ' '));
    assert(blank_row_text(width) =~= seq!['\r'] + Seq::new(width, |i: int| ' '));
}

/// Blanking the row writes a carriage return and then exactly `width` spaces.
pub proof fn lemma_blank_row_shape(width: nat)
    ensures
        blank_row_text(width).len() == width + 1,
        blank_row_text(width)[0] == '\r',
        forall|i: int| 1 <= i <= width ==> #[trigger] blank_row_text(width)[i] == ' ',
{
}

} // verus!
