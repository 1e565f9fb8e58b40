# konsole

A console line editor for programs that print from several threads while
the user types: the input row stays at the bottom, lines printed by the
program appear above it.

- `src/` is the verified library: decoding of key presses (`keys`), the
  editor state and its operations (`editor`, modelled in `model`), the text
  that redraws the terminal (`render`), and proofs of what holds across
  operations (`laws`).
- `app/` is the terminal front end: the global console behind a lock, the
  thread that reads keys, raw-mode terminal input, and the `print!` /
  `println!` macros that print above the input row.
