//! The on-screen keyboard overlay: key layouts for the letter and number
//! modes, selection navigation (direction keys and taps), text editing at a
//! byte cursor, and bind-phrase validation.
//!
//! The buffer is edited at UTF-8 byte positions, so contracts speak of its
//! bytes, `encode_utf8(buffer@)`.

use vstd::prelude::*;
use vstd::utf8::{encode_utf8, is_char_boundary};

use crate::ui::text::{decimal, push_decimal, push_text};

verus! {

/// The field a keyboard overlay edits.
#[derive(Debug, Clone, Copy, PartialEq, Eq, Structural)]
pub enum KeyboardField {
    BindPhrase,
    /// The source of an AUX output channel (5..=16).
    AuxSource { channel: u8 },
}

pub const KEYBOARD_ROWS: usize = 4;

pub const KEYBOARD_MAX_COLS: usize = 12;

/// The key layout in use.
#[derive(Debug, Clone, Copy, PartialEq, Eq, Structural)]
pub enum KeyboardMode {
    Lower,
    Upper,
    Numbers,
}

/// What a key does when activated.
#[derive(Debug, Clone, Copy, PartialEq, Eq, Structural)]
pub enum KeyboardAction {
    Insert(char),
    Backspace,
    Space,
    Shift,
    Mode(KeyboardMode),
    CursorLeft,
    CursorRight,
    Cancel,
    Submit,
}

/// One key: its label, its action, and its width in half key units.
#[derive(Debug, Clone, Copy, PartialEq, Eq)]
pub struct KeyboardKey {
    pub label: &'static str,
    pub action: KeyboardAction,
    pub span_half_units: u8,
}

/// One row of keys and its indent in half key units.
#[derive(Debug, Clone, PartialEq, Eq)]
pub struct KeyboardRow {
    pub offset_half_units: u8,
    pub keys: Vec<KeyboardKey>,
}

/// What direction keys currently point at: the back button, the OK button,
/// or a key.
#[derive(Debug, Clone, Copy, PartialEq, Eq, Structural)]
pub enum KeyboardFocus {
    Back,
    Confirm,
    Key { row: usize, col: usize },
}

/// The outcome of activating a key.
#[derive(Debug, Clone, PartialEq, Eq)]
pub enum KeyboardResult {
    /// Editing goes on.
    Pending,
    /// The user left without saving.
    Cancelled,
    /// The user submitted this value for this field.
    Submitted { field: KeyboardField, value: String },
}

/// The state of an open keyboard overlay.
#[derive(Debug, Clone, PartialEq, Eq)]
pub struct KeyboardOverlay {
    pub field: KeyboardField,
    pub label: String,
    pub buffer: String,
    pub cursor: usize,
    pub mode: KeyboardMode,
    pub selected_row: usize,
    pub selected_col: usize,
    pub focus: KeyboardFocus,
    pub invalid: bool,
    pub max_len: usize,
}

// ---------------------------------------------------------------------------
// Layout
// ---------------------------------------------------------------------------

/// Characters whose key shows the character itself; any other character's
/// key shows `?`.
pub open spec fn labelled_char(ch: char) -> bool {
    ||| ('a' as u32 <= ch as u32 && ch as u32 <= 'z' as u32)
    ||| ('A' as u32 <= ch as u32 && ch as u32 <= 'Z' as u32)
    ||| ('0' as u32 <= ch as u32 && ch as u32 <= '9' as u32)
    ||| (ch == '-' || ch == '_' || ch == '.' || ch == ',' || ch == '/' || ch == ':' || ch == ';' || ch == '@' || ch == '#' || ch == '+' || ch == '&' || ch == '*' || ch == '=' || ch == '%' || ch == '!' || ch == '?' || ch == '<' || ch == '>' || ch == '\\' || ch == '$' || ch == '(' || ch == ')' || ch == '{' || ch == '}' || ch == '[' || ch == ']' || ch == '"' || ch == '\'')
}

/// The label of the key that inserts `ch`.
pub open spec fn char_label(ch: char) -> Seq<char> {
    if labelled_char(ch) {
        seq![ch]
    } else {
        seq!['?']
    }
}

/// A key described by label, action and span.
pub open spec fn key_matches(key: KeyboardKey, label: Seq<char>, action: KeyboardAction, span: u8) -> bool {
    &&& key.label@ =~= label
    &&& key.action == action
    &&& key.span_half_units == span
}

/// The character keys of row `r` (0..=2); in letter modes row 2 holds only
/// the letters between the shift and delete keys.
pub open spec fn row_chars(mode: KeyboardMode, r: int) -> Seq<char> {
    match mode {
        KeyboardMode::Lower => if r == 0 {
            seq!['q', 'w', 'e', 'r', 't', 'y', 'u', 'i', 'o', 'p']
        } else if r == 1 {
            seq!['a', 's', 'd', 'f', 'g', 'h', 'j', 'k', 'l']
        } else {
            seq!['z', 'x', 'c', 'v', 'b', 'n', 'm']
        },
        KeyboardMode::Upper => if r == 0 {
            seq!['Q', 'W', 'E', 'R', 'T', 'Y', 'U', 'I', 'O', 'P']
        } else if r == 1 {
            seq!['A', 'S', 'D', 'F', 'G', 'H', 'J', 'K', 'L']
        } else {
            seq!['Z', 'X', 'C', 'V', 'B', 'N', 'M']
        },
        KeyboardMode::Numbers => if r == 0 {
            seq!['1', '2', '3', '4', '5', '6', '7', '8', '9', '0']
        } else if r == 1 {
            seq!['+', '&', '/', '*', '=', '%', '!', '?', '#', '<', '>']
        } else {
            seq!['\\', '@', '$', '(', ')', '{', '}', '[', ']', ';', '"', '\'']
        },
    }
}

/// Whether the mode shows letters (lower or upper case).
pub open spec fn is_letter_mode(mode: KeyboardMode) -> bool {
    mode != KeyboardMode::Numbers
}

/// The number of keys in row `r`: letters 10/9/9/5, numbers 10/11/12/5.
pub open spec fn row_len(mode: KeyboardMode, r: int) -> int {
    if r == 3 {
        5
    } else if is_letter_mode(mode) && r == 2 {
        9
    } else {
        row_chars(mode, r).len() as int
    }
}

/// The indent of row `r`: letters 0/1/0/2, numbers 0/0/0/2.
pub open spec fn row_offset(mode: KeyboardMode, r: int) -> u8 {
    if r == 3 {
        2
    } else if is_letter_mode(mode) && r == 1 {
        1
    } else {
        0
    }
}

/// The label of key `c` of row `r`: character keys show their character;
/// the letter modes frame row 2 with `ABC` and `del`; the bottom row is the
/// mode key (`123` or `abc`), `<`, `space`, `>`, and `done`.
pub open spec fn layout_label(mode: KeyboardMode, r: int, c: int) -> Seq<char> {
    if r == 3 {
        if c == 0 {
            if is_letter_mode(mode) {
                seq!['1', '2', '3']
            } else {
                seq!['a', 'b', 'c']
            }
        } else if c == 1 {
            seq!['<']
        } else if c == 2 {
            seq!['s', 'p', 'a', 'c', 'e']
        } else if c == 3 {
            seq!['>']
        } else {
            seq!['d', 'o', 'n', 'e']
        }
    } else if is_letter_mode(mode) && r == 2 {
        if c == 0 {
            seq!['A', 'B', 'C']
        } else if c == 8 {
            seq!['d', 'e', 'l']
        } else {
            char_label(row_chars(mode, 2)[c - 1])
        }
    } else {
        char_label(row_chars(mode, r)[c])
    }
}

/// The action of key `c` of row `r`: character keys insert their
/// character; `ABC` shifts, `del` deletes; the bottom row switches mode,
/// moves the cursor left, inserts a space, moves the cursor right, submits.
pub open spec fn layout_action(mode: KeyboardMode, r: int, c: int) -> KeyboardAction {
    if r == 3 {
        if c == 0 {
            if is_letter_mode(mode) {
                KeyboardAction::Mode(KeyboardMode::Numbers)
            } else {
                KeyboardAction::Mode(KeyboardMode::Lower)
            }
        } else if c == 1 {
            KeyboardAction::CursorLeft
        } else if c == 2 {
            KeyboardAction::Space
        } else if c == 3 {
            KeyboardAction::CursorRight
        } else {
            KeyboardAction::Submit
        }
    } else if is_letter_mode(mode) && r == 2 {
        if c == 0 {
            KeyboardAction::Shift
        } else if c == 8 {
            KeyboardAction::Backspace
        } else {
            KeyboardAction::Insert(row_chars(mode, 2)[c - 1])
        }
    } else {
        KeyboardAction::Insert(row_chars(mode, r)[c])
    }
}

/// The width of key `c` of row `r` in half units: 2 for character keys and
/// the cursor keys, 3 for the shift, delete and mode keys, 6 for space, 4
/// for done.
pub open spec fn layout_span(mode: KeyboardMode, r: int, c: int) -> u8 {
    if r == 3 {
        if c == 0 {
            3
        } else if c == 2 {
            6
        } else if c == 4 {
            4
        } else {
            2
        }
    } else if is_letter_mode(mode) && r == 2 && (c == 0 || c == 8) {
        3
    } else {
        2
    }
}

/// `key` is key `c` of row `r` of the layout of `mode`.
pub open spec fn layout_key(key: KeyboardKey, mode: KeyboardMode, r: int, c: int) -> bool {
    key_matches(key, layout_label(mode, r, c), layout_action(mode, r, c), layout_span(mode, r, c))
}

/// The key that inserts `ch`.
pub open spec fn char_key_matches(key: KeyboardKey, ch: char) -> bool {
    key_matches(key, char_label(ch), KeyboardAction::Insert(ch), 2)
}

/// `keys` is row `r` of the layout of `mode`.
pub open spec fn row_keys_match(keys: Seq<KeyboardKey>, mode: KeyboardMode, r: int) -> bool {
    &&& keys.len() == row_len(mode, r)
    &&& forall|c: int| 0 <= c < keys.len() ==> layout_key(#[trigger] keys[c], mode, r, c)
}

/// `rows` is the layout of `mode`: four rows with their indents and keys.
pub open spec fn layout_matches(rows: Seq<KeyboardRow>, mode: KeyboardMode) -> bool {
    &&& rows.len() == KEYBOARD_ROWS
    &&& forall|r: int|
        0 <= r < KEYBOARD_ROWS ==> (#[trigger] rows[r]).offset_half_units == row_offset(mode, r)
            && row_keys_match(rows[r].keys@, mode, r)
}

fn key(label: &'static str, action: KeyboardAction) -> (res: KeyboardKey)
    ensures
        res.label == label,
        res.action == action,
        res.span_half_units == 2,
{
    wide_key(label, action, 2)
}

fn wide_key(label: &'static str, action: KeyboardAction, span_half_units: u8) -> (res: KeyboardKey)
    ensures
        res.label == label,
        res.action == action,
        res.span_half_units == span_half_units,
{
    KeyboardKey { label, action, span_half_units }
}

/// The key that inserts `ch`, labelled with `ch` itself (or `?` for
/// characters the keyboard has no label for).
fn char_key(ch: char) -> (res: KeyboardKey)
    ensures
        char_key_matches(res, ch),
{
    let label = match ch {
        'a' => { proof { reveal_strlit("a"); } "a" },
        'b' => { proof { reveal_strlit("b"); } "b" },
        'c' => { proof { reveal_strlit("c"); } "c" },
        'd' => { proof { reveal_strlit("d"); } "d" },
        'e' => { proof { reveal_strlit("e"); } "e" },
        'f' => { proof { reveal_strlit("f"); } "f" },
        'g' => { proof { reveal_strlit("g"); } "g" },
        'h' => { proof { reveal_strlit("h"); } "h" },
        'i' => { proof { reveal_strlit("i"); } "i" },
        'j' => { proof { reveal_strlit("j"); } "j" },
        'k' => { proof { reveal_strlit("k"); } "k" },
        'l' => { proof { reveal_strlit("l"); } "l" },
        'm' => { proof { reveal_strlit("m"); } "m" },
        'n' => { proof { reveal_strlit("n"); } "n" },
        'o' => { proof { reveal_strlit("o"); } "o" },
        'p' => { proof { reveal_strlit("p"); } "p" },
        'q' => { proof { reveal_strlit("q"); } "q" },
        'r' => { proof { reveal_strlit("r"); } "r" },
        's' => { proof { reveal_strlit("s"); } "s" },
        't' => { proof { reveal_strlit("t"); } "t" },
        'u' => { proof { reveal_strlit("u"); } "u" },
        'v' => { proof { reveal_strlit("v"); } "v" },
        'w' => { proof { reveal_strlit("w"); } "w" },
        'x' => { proof { reveal_strlit("x"); } "x" },
        'y' => { proof { reveal_strlit("y"); } "y" },
        'z' => { proof { reveal_strlit("z"); } "z" },
        'A' => { proof { reveal_strlit("A"); } "A" },
        'B' => { proof { reveal_strlit("B"); } "B" },
        'C' => { proof { reveal_strlit("C"); } "C" },
        'D' => { proof { reveal_strlit("D"); } "D" },
        'E' => { proof { reveal_strlit("E"); } "E" },
        'F' => { proof { reveal_strlit("F"); } "F" },
        'G' => { proof { reveal_strlit("G"); } "G" },
        'H' => { proof { reveal_strlit("H"); } "H" },
        'I' => { proof { reveal_strlit("I"); } "I" },
        'J' => { proof { reveal_strlit("J"); } "J" },
        'K' => { proof { reveal_strlit("K"); } "K" },
        'L' => { proof { reveal_strlit("L"); } "L" },
        'M' => { proof { reveal_strlit("M"); } "M" },
        'N' => { proof { reveal_strlit("N"); } "N" },
        'O' => { proof { reveal_strlit("O"); } "O" },
        'P' => { proof { reveal_strlit("P"); } "P" },
        'Q' => { proof { reveal_strlit("Q"); } "Q" },
        'R' => { proof { reveal_strlit("R"); } "R" },
        'S' => { proof { reveal_strlit("S"); } "S" },
        'T' => { proof { reveal_strlit("T"); } "T" },
        'U' => { proof { reveal_strlit("U"); } "U" },
        'V' => { proof { reveal_strlit("V"); } "V" },
        'W' => { proof { reveal_strlit("W"); } "W" },
        'X' => { proof { reveal_strlit("X"); } "X" },
        'Y' => { proof { reveal_strlit("Y"); } "Y" },
        'Z' => { proof { reveal_strlit("Z"); } "Z" },
        '0' => { proof { reveal_strlit("0"); } "0" },
        '1' => { proof { reveal_strlit("1"); } "1" },
        '2' => { proof { reveal_strlit("2"); } "2" },
        '3' => { proof { reveal_strlit("3"); } "3" },
        '4' => { proof { reveal_strlit("4"); } "4" },
        '5' => { proof { reveal_strlit("5"); } "5" },
        '6' => { proof { reveal_strlit("6"); } "6" },
        '7' => { proof { reveal_strlit("7"); } "7" },
        '8' => { proof { reveal_strlit("8"); } "8" },
        '9' => { proof { reveal_strlit("9"); } "9" },
        '-' => { proof { reveal_strlit("-"); } "-" },
        '_' => { proof { reveal_strlit("_"); } "_" },
        '.' => { proof { reveal_strlit("."); } "." },
        ',' => { proof { reveal_strlit(","); } "," },
        '/' => { proof { reveal_strlit("/"); } "/" },
        ':' => { proof { reveal_strlit(":"); } ":" },
        ';' => { proof { reveal_strlit(";"); } ";" },
        '@' => { proof { reveal_strlit("@"); } "@" },
        '#' => { proof { reveal_strlit("#"); } "#" },
        '+' => { proof { reveal_strlit("+"); } "+" },
        '&' => { proof { reveal_strlit("&"); } "&" },
        '*' => { proof { reveal_strlit("*"); } "*" },
        '=' => { proof { reveal_strlit("="); } "=" },
        '%' => { proof { reveal_strlit("%"); } "%" },
        '!' => { proof { reveal_strlit("!"); } "!" },
        '?' => { proof { reveal_strlit("?"); } "?" },
        '<' => { proof { reveal_strlit("<"); } "<" },
        '>' => { proof { reveal_strlit(">"); } ">" },
        '\\' => { proof { reveal_strlit("\\"); } "\\" },
        '$' => { proof { reveal_strlit("$"); } "$" },
        '(' => { proof { reveal_strlit("("); } "(" },
        ')' => { proof { reveal_strlit(")"); } ")" },
        '{' => { proof { reveal_strlit("{"); } "{" },
        '}' => { proof { reveal_strlit("}"); } "}" },
        '[' => { proof { reveal_strlit("["); } "[" },
        ']' => { proof { reveal_strlit("]"); } "]" },
        '"' => { proof { reveal_strlit("\""); } "\"" },
        '\'' => { proof { reveal_strlit("'"); } "'" },
        _ => {
            proof {
                reveal_strlit("?");
            }
            "?"
        },
    };
    key(label, KeyboardAction::Insert(ch))
}

/// One character key per character, in order.
fn char_keys(chars: &[char]) -> (res: Vec<KeyboardKey>)
    ensures
        res@.len() == chars@.len(),
        forall|i: int| 0 <= i < chars@.len() ==> char_key_matches(#[trigger] res@[i], chars@[i]),
{
    let mut res: Vec<KeyboardKey> = Vec::new();
    let mut i: usize = 0;
    while i < chars.len()
        invariant
            i <= chars@.len(),
            res@.len() == i,
            forall|j: int| 0 <= j < i ==> char_key_matches(#[trigger] res@[j], chars@[j]),
        decreases chars.len() - i,
    {
        res.push(char_key(chars[i]));
        i = i + 1;
    }
    res
}

fn copy_keys(keys: &Vec<KeyboardKey>) -> (res: Vec<KeyboardKey>)
    ensures
        res@ == keys@,
{
    let mut res: Vec<KeyboardKey> = Vec::new();
    let mut i: usize = 0;
    while i < keys.len()
        invariant
            i <= keys@.len(),
            res@ == keys@.take(i as int),
        decreases keys.len() - i,
    {
        res.push(keys[i]);
        assert(res@ =~= keys@.take(i + 1));
        i = i + 1;
    }
    assert(keys@.take(keys@.len() as int) =~= keys@);
    res
}

fn row(offset_half_units: u8, keys: Vec<KeyboardKey>) -> (res: KeyboardRow)
    ensures
        res.offset_half_units == offset_half_units,
        res.keys@ == keys@,
{
    KeyboardRow { offset_half_units, keys }
}

/// The bottom row: mode key, cursor keys around the space bar, and done.
fn bottom_row(mode_label: &'static str, target: KeyboardMode) -> (res: KeyboardRow)
    ensures
        res.offset_half_units == 2,
        res.keys@.len() == 5,
        key_matches(res.keys@[0], mode_label@, KeyboardAction::Mode(target), 3),
        key_matches(res.keys@[1], seq!['<'], KeyboardAction::CursorLeft, 2),
        key_matches(res.keys@[2], seq!['s', 'p', 'a', 'c', 'e'], KeyboardAction::Space, 6),
        key_matches(res.keys@[3], seq!['>'], KeyboardAction::CursorRight, 2),
        key_matches(res.keys@[4], seq!['d', 'o', 'n', 'e'], KeyboardAction::Submit, 4),
{
    proof {
        reveal_strlit("<");
        reveal_strlit("space");
        reveal_strlit(">");
        reveal_strlit("done");
    }
    let mut keys: Vec<KeyboardKey> = Vec::new();
    keys.push(wide_key(mode_label, KeyboardAction::Mode(target), 3));
    keys.push(key("<", KeyboardAction::CursorLeft));
    keys.push(wide_key("space", KeyboardAction::Space, 6));
    keys.push(key(">", KeyboardAction::CursorRight));
    keys.push(wide_key("done", KeyboardAction::Submit, 4));
    row(2, keys)
}

/// The layout of a mode: letter rows for `Lower` and `Upper`, digits and
/// symbols for `Numbers`.
fn rows_for_mode(mode: KeyboardMode) -> (res: Vec<KeyboardRow>)
    ensures
        layout_matches(res@, mode),
{
    match mode {
        KeyboardMode::Lower => letter_rows(false),
        KeyboardMode::Upper => letter_rows(true),
        KeyboardMode::Numbers => {
            let digits = ['1', '2', '3', '4', '5', '6', '7', '8', '9', '0'];
            let symbols1 = ['+', '&', '/', '*', '=', '%', '!', '?', '#', '<', '>'];
            let symbols2 = ['\\', '@', '$', '(', ')', '{', '}', '[', ']', ';', '"', '\''];
            assert(digits@ =~= row_chars(mode, 0));
            assert(symbols1@ =~= row_chars(mode, 1));
            assert(symbols2@ =~= row_chars(mode, 2));
            let mut rows: Vec<KeyboardRow> = Vec::new();
            rows.push(row(0, char_keys(&digits)));
            rows.push(row(0, char_keys(&symbols1)));
            rows.push(row(0, char_keys(&symbols2)));
            proof {
                reveal_strlit("abc");
            }
            rows.push(bottom_row("abc", KeyboardMode::Lower));
            rows
        },
    }
}

/// The letter layout in lower or upper case.
fn letter_rows(upper: bool) -> (res: Vec<KeyboardRow>)
    ensures
        layout_matches(
            res@,
            if upper {
                KeyboardMode::Upper
            } else {
                KeyboardMode::Lower
            },
        ),
{
    let ghost mode = if upper {
        KeyboardMode::Upper
    } else {
        KeyboardMode::Lower
    };
    let row1 = if upper {
        ['Q', 'W', 'E', 'R', 'T', 'Y', 'U', 'I', 'O', 'P']
    } else {
        ['q', 'w', 'e', 'r', 't', 'y', 'u', 'i', 'o', 'p']
    };
    let row2 = if upper {
        ['A', 'S', 'D', 'F', 'G', 'H', 'J', 'K', 'L']
    } else {
        ['a', 's', 'd', 'f', 'g', 'h', 'j', 'k', 'l']
    };
    let row3 = if upper {
        ['Z', 'X', 'C', 'V', 'B', 'N', 'M']
    } else {
        ['z', 'x', 'c', 'v', 'b', 'n', 'm']
    };
    assert(row1@ =~= row_chars(mode, 0));
    assert(row2@ =~= row_chars(mode, 1));
    assert(row3@ =~= row_chars(mode, 2));
    let mut rows: Vec<KeyboardRow> = Vec::new();
    rows.push(row(0, char_keys(&row1)));
    rows.push(row(1, char_keys(&row2)));
    proof {
        reveal_strlit("ABC");
        reveal_strlit("del");
        reveal_strlit("123");
    }
    let mut third: Vec<KeyboardKey> = Vec::new();
    third.push(wide_key("ABC", KeyboardAction::Shift, 3));
    let letters = char_keys(&row3);
    let mut i: usize = 0;
    while i < letters.len()
        invariant
            i <= letters@.len(),
            letters@.len() == 7,
            third@.len() == i + 1,
            key_matches(third@[0], seq!['A', 'B', 'C'], KeyboardAction::Shift, 3),
            forall|j: int| 0 <= j < 7 ==> char_key_matches(#[trigger] letters@[j], row_chars(mode, 2)[j]),
            forall|j: int| 1 <= j <= i ==> #[trigger] third@[j] == letters@[j - 1],
        decreases letters.len() - i,
    {
        third.push(letters[i]);
        i = i + 1;
    }
    third.push(wide_key("del", KeyboardAction::Backspace, 3));
    assert forall|c: int| 0 <= c < third@.len() implies layout_key(#[trigger] third@[c], mode, 2, c) by {
        if 1 <= c <= 7 {
            assert(third@[c] == letters@[c - 1]);
        }
    }
    rows.push(row(0, third));
    rows.push(bottom_row("123", KeyboardMode::Numbers));
    rows
}

// ---------------------------------------------------------------------------
// Text buffer primitives (std::string::String)
// ---------------------------------------------------------------------------

/// The number of bytes of the UTF-8 encoding of `ch`: 1 below U+0080, 2
/// below U+0800, 3 below U+10000, 4 above.
fn char_len_utf8(ch: char) -> (res: usize)
    ensures
        res == encode_utf8(seq![ch]).len(),
{
    proof {
        lemma_ascii_leading_byte(ch);
        vstd::utf8::char_is_scalar(ch);
    }
    let v = ch as u32;
    if v < 0x80 {
        1
    } else if v < 0x800 {
        2
    } else if v < 0x10000 {
        3
    } else {
        4
    }
}

/// `String::insert`: puts the UTF-8 bytes of `ch` at byte position `idx`,
/// which must be a character boundary (the call panics otherwise).
#[verifier::external_body]
fn string_insert(s: &mut String, idx: usize, ch: char)
    requires
        is_char_boundary(encode_utf8(old(s)@), idx as int),
    ensures
        encode_utf8(final(s)@) == encode_utf8(old(s)@).take(idx as int) + encode_utf8(seq![ch])
            + encode_utf8(old(s)@).skip(idx as int),
{
    s.insert(idx, ch)
}

/// `String::remove`: removes the character whose encoding starts at byte
/// position `idx` (which must be a character boundary inside the string,
/// the call panics otherwise) and returns it.
#[verifier::external_body]
fn string_remove(s: &mut String, idx: usize) -> (res: char)
    requires
        idx < encode_utf8(old(s)@).len(),
        is_char_boundary(encode_utf8(old(s)@), idx as int),
    ensures
        idx + encode_utf8(seq![res]).len() <= encode_utf8(old(s)@).len(),
        encode_utf8(old(s)@).subrange(idx as int, idx + encode_utf8(seq![res]).len())
            == encode_utf8(seq![res]),
        encode_utf8(final(s)@) == encode_utf8(old(s)@).take(idx as int) + encode_utf8(
            old(s)@,
        ).skip(idx + encode_utf8(seq![res]).len()),
{
    s.remove(idx)
}

// ---------------------------------------------------------------------------
// Overlay
// ---------------------------------------------------------------------------

/// `a` bounded above by `b`.
pub open spec fn min_int(a: int, b: int) -> int {
    if a <= b {
        a
    } else {
        b
    }
}

/// `a - b`, stopping at 0.
pub open spec fn sat_sub(a: int, b: int) -> int {
    if a >= b {
        a - b
    } else {
        0
    }
}

/// `a + b`, stopping at `usize::MAX`.
pub open spec fn sat_add(a: int, b: int) -> int {
    min_int(a + b, usize::MAX as int)
}

impl KeyboardOverlay {
    /// The UTF-8 bytes of the buffer.
    pub open spec fn buffer_bytes(&self) -> Seq<u8> {
        encode_utf8(self.buffer@)
    }

    /// The selection names an existing key of the current layout.
    pub open spec fn selection_valid(&self) -> bool {
        &&& self.selected_row < KEYBOARD_ROWS
        &&& self.selected_col < row_len(self.mode, self.selected_row as int)
    }

    /// The focus is on the selected key, or on the back or OK button.
    pub open spec fn focus_consistent(&self) -> bool {
        match self.focus {
            KeyboardFocus::Key { row, col } => row == self.selected_row && col == self.selected_col,
            _ => true,
        }
    }

    /// The selection is `focus_key(row, col)` in `mode`: the row clamped to
    /// the last row, the column clamped to the last key of that row, and the
    /// focus on that key.
    pub open spec fn focused_at(&self, mode: KeyboardMode, row: int, col: int) -> bool {
        let r = min_int(row, KEYBOARD_ROWS - 1);
        let c = min_int(col, row_len(mode, r) - 1);
        &&& self.selected_row == r
        &&& self.selected_col == c
        &&& self.focus == KeyboardFocus::Key { row: r as usize, col: c as usize }
    }

    /// Everything but selection and focus is unchanged.
    pub open spec fn same_except_selection(&self, other: KeyboardOverlay) -> bool {
        &&& other.field == self.field
        &&& other.label@ == self.label@
        &&& other.buffer@ == self.buffer@
        &&& other.cursor == self.cursor
        &&& other.mode == self.mode
        &&& other.invalid == self.invalid
        &&& other.max_len == self.max_len
    }

    /// Field, label and length limit are unchanged.
    pub open spec fn same_frame(&self, other: KeyboardOverlay) -> bool {
        &&& other.field == self.field
        &&& other.label@ == self.label@
        &&& other.max_len == self.max_len
    }

    /// Mode, selection and focus are unchanged.
    pub open spec fn same_navigation(&self, other: KeyboardOverlay) -> bool {
        &&& other.mode == self.mode
        &&& other.selected_row == self.selected_row
        &&& other.selected_col == self.selected_col
        &&& other.focus == self.focus
    }

    /// Inserting `ch` at the cursor cannot panic: either the insertion is
    /// refused for length, or the cursor (clamped to the buffer) sits on a
    /// character boundary.
    pub open spec fn can_insert(&self, ch: char) -> bool {
        let bytes = self.buffer_bytes();
        let at = min_int(self.cursor as int, bytes.len() as int);
        sat_add(bytes.len() as int, encode_utf8(seq![ch]).len() as int) > self.max_len
            || is_char_boundary(bytes, at)
    }

    /// `after` is `self` with `ch` inserted at the cursor (clamped to the
    /// buffer) and the cursor moved past it, unless that would make the
    /// buffer longer than `max_len` bytes, in which case the text is unchanged.
    pub open spec fn inserted(&self, after: KeyboardOverlay, ch: char) -> bool {
        let bytes = self.buffer_bytes();
        let width = encode_utf8(seq![ch]).len() as int;
        if sat_add(bytes.len() as int, width) > self.max_len {
            &&& after.buffer@ == self.buffer@
            &&& after.cursor == self.cursor
        } else {
            let at = min_int(self.cursor as int, bytes.len() as int);
            &&& after.buffer_bytes() == bytes.take(at) + encode_utf8(seq![ch]) + bytes.skip(at)
            &&& after.cursor == min_int(
                sat_add(self.cursor as int, width),
                after.buffer_bytes().len() as int,
            )
        }
    }

    /// Backspace cannot panic: the cursor is at 0, the buffer is empty, or
    /// the byte before the cursor starts a character inside the buffer.
    pub open spec fn can_backspace(&self) -> bool {
        let bytes = self.buffer_bytes();
        ||| self.cursor == 0
        ||| bytes.len() == 0
        ||| (self.cursor - 1 < bytes.len() && is_char_boundary(bytes, self.cursor - 1))
    }

    /// `after` is `self` with the character starting just before the cursor
    /// removed and the cursor moved onto it; nothing changes at cursor 0 or
    /// with an empty buffer.
    pub open spec fn backspaced(&self, after: KeyboardOverlay) -> bool {
        let bytes = self.buffer_bytes();
        if self.cursor == 0 || bytes.len() == 0 {
            &&& after.buffer@ == self.buffer@
            &&& after.cursor == self.cursor
        } else {
            let at = self.cursor - 1;
            &&& exists|c: char|
                at + encode_utf8(seq![c]).len() <= bytes.len() && #[trigger] bytes.subrange(
                    at,
                    at + encode_utf8(seq![c]).len(),
                ) == encode_utf8(seq![c]) && after.buffer_bytes() == bytes.take(at) + bytes.skip(
                    at + encode_utf8(seq![c]).len(),
                )
            &&& after.cursor == at
        }
    }

    /// Activating `action` cannot panic.
    pub open spec fn can_activate(&self, action: KeyboardAction) -> bool {
        match action {
            KeyboardAction::Insert(ch) => self.can_insert(ch),
            KeyboardAction::Space => self.can_insert(' '),
            KeyboardAction::Backspace => self.can_backspace(),
            _ => true,
        }
    }

    /// The mode that the shift key switches to.
    pub open spec fn shifted_mode(mode: KeyboardMode) -> KeyboardMode {
        match mode {
            KeyboardMode::Lower => KeyboardMode::Upper,
            KeyboardMode::Upper => KeyboardMode::Lower,
            KeyboardMode::Numbers => KeyboardMode::Upper,
        }
    }

    /// `after` is the result of `activate(action)` on `self`.
    pub open spec fn activated(&self, action: KeyboardAction, after: KeyboardOverlay, res: KeyboardResult) -> bool {
        &&& self.same_frame(after)
        &&& !after.invalid
        &&& match action {
            KeyboardAction::Insert(ch) => {
                &&& self.inserted(after, ch)
                &&& self.same_navigation(after)
                &&& res == KeyboardResult::Pending
            },
            KeyboardAction::Space => {
                &&& self.inserted(after, ' ')
                &&& self.same_navigation(after)
                &&& res == KeyboardResult::Pending
            },
            KeyboardAction::Backspace => {
                &&& self.backspaced(after)
                &&& self.same_navigation(after)
                &&& res == KeyboardResult::Pending
            },
            KeyboardAction::Shift => {
                &&& after.buffer@ == self.buffer@
                &&& after.cursor == self.cursor
                &&& after.mode == Self::shifted_mode(self.mode)
                &&& after.focused_at(after.mode, self.selected_row as int, self.selected_col as int)
                &&& res == KeyboardResult::Pending
            },
            KeyboardAction::Mode(mode) => {
                &&& after.buffer@ == self.buffer@
                &&& after.cursor == self.cursor
                &&& after.mode == mode
                &&& after.focused_at(mode, self.selected_row as int, self.selected_col as int)
                &&& res == KeyboardResult::Pending
            },
            KeyboardAction::CursorLeft => {
                &&& after.buffer@ == self.buffer@
                &&& after.cursor == sat_sub(self.cursor as int, 1)
                &&& self.same_navigation(after)
                &&& res == KeyboardResult::Pending
            },
            KeyboardAction::CursorRight => {
                &&& after.buffer@ == self.buffer@
                &&& after.cursor == min_int(
                    sat_add(self.cursor as int, 1),
                    self.buffer_bytes().len() as int,
                )
                &&& self.same_navigation(after)
                &&& res == KeyboardResult::Pending
            },
            KeyboardAction::Cancel => {
                &&& after.buffer@ == self.buffer@
                &&& after.cursor == self.cursor
                &&& self.same_navigation(after)
                &&& res == KeyboardResult::Cancelled
            },
            KeyboardAction::Submit => {
                &&& after.buffer@ == self.buffer@
                &&& after.cursor == self.cursor
                &&& self.same_navigation(after)
                &&& (res matches KeyboardResult::Submitted { field, value } && field == self.field
                    && value@ == self.buffer@)
            },
        }
    }

    /// A bind-phrase editor over `initial`: cursor at the start, lower-case
    /// letters, the first key selected, at most 32 bytes.
    pub fn bind_phrase(initial: &str) -> (res: Self)
        ensures
            res.field == KeyboardField::BindPhrase,
            res.label@ == "Bind Phrase"@,
            res.buffer@ == initial@,
            res.cursor == 0,
            res.mode == KeyboardMode::Lower,
            res.selected_row == 0,
            res.selected_col == 0,
            res.focus == (KeyboardFocus::Key { row: 0, col: 0 }),
            !res.invalid,
            res.max_len == 32,
            res.selection_valid(),
            res.focus_consistent(),
    {
        Self {
            field: KeyboardField::BindPhrase,
            label: "Bind Phrase".to_owned(),
            buffer: initial.to_owned(),
            cursor: 0,
            mode: KeyboardMode::Lower,
            selected_row: 0,
            selected_col: 0,
            focus: KeyboardFocus::Key { row: 0, col: 0 },
            invalid: false,
            max_len: 32,
        }
    }

    /// An AUX-source editor for `channel` over the current source name:
    /// labelled `CH<n> Source`, cursor at the start, upper-case letters, the
    /// first key selected, at most 4 bytes.
    pub fn aux_source(channel: u8, initial: &str) -> (res: Self)
        ensures
            res.field == (KeyboardField::AuxSource { channel }),
            res.label@ == seq!['C', 'H'] + decimal(channel as nat) + seq![
                ' ',
                'S',
                'o',
                'u',
                'r',
                'c',
                'e',
            ],
            res.buffer@ == initial@,
            res.cursor == 0,
            res.mode == KeyboardMode::Upper,
            res.selected_row == 0,
            res.selected_col == 0,
            res.focus == (KeyboardFocus::Key { row: 0, col: 0 }),
            !res.invalid,
            res.max_len == 4,
            res.selection_valid(),
            res.focus_consistent(),
    {
        proof {
            reveal_strlit("CH");
            reveal_strlit(" Source");
        }
        let mut label = String::new();
        push_text(&mut label, "CH");
        push_decimal(&mut label, channel as u32);
        push_text(&mut label, " Source");
        assert(label@ =~= seq!['C', 'H'] + decimal(channel as nat) + seq![
            ' ',
            'S',
            'o',
            'u',
            'r',
            'c',
            'e',
        ]);
        Self {
            field: KeyboardField::AuxSource { channel },
            label,
            buffer: initial.to_owned(),
            cursor: 0,
            mode: KeyboardMode::Upper,
            selected_row: 0,
            selected_col: 0,
            focus: KeyboardFocus::Key { row: 0, col: 0 },
            invalid: false,
            max_len: 4,
        }
    }

    /// The keys of the current layout, row by row.
    pub fn rows(&self) -> (res: Vec<Vec<KeyboardKey>>)
        ensures
            res@.len() == KEYBOARD_ROWS,
            forall|r: int| 0 <= r < KEYBOARD_ROWS ==> row_keys_match((#[trigger] res@[r])@, self.mode, r),
    {
        let layout = self.layout_rows();
        let mut res: Vec<Vec<KeyboardKey>> = Vec::new();
        let mut i: usize = 0;
        while i < layout.len()
            invariant
                layout_matches(layout@, self.mode),
                i <= layout@.len(),
                res@.len() == i,
                forall|r: int| 0 <= r < i ==> (#[trigger] res@[r])@ == layout@[r].keys@,
            decreases layout.len() - i,
        {
            res.push(copy_keys(&layout[i].keys));
            i = i + 1;
        }
        proof {
            assert forall|r: int| 0 <= r < KEYBOARD_ROWS implies row_keys_match(
                (#[trigger] res@[r])@,
                self.mode,
                r,
            ) by {
                assert(res@[r]@ == layout@[r].keys@);
            }
        }
        res
    }

    /// The rows of the current layout with their indents.
    pub fn layout_rows(&self) -> (res: Vec<KeyboardRow>)
        ensures
            layout_matches(res@, self.mode),
    {
        rows_for_mode(self.mode)
    }

    /// The selected key of the current layout.
    pub fn selected_key(&self) -> (res: KeyboardKey)
        requires
            self.selection_valid(),
        ensures
            layout_key(res, self.mode, self.selected_row as int, self.selected_col as int),
    {
        let rows = self.layout_rows();
        rows[self.selected_row].keys[self.selected_col]
    }

    /// Moves left: from OK to back, along a key row (stopping at its first key).
    pub fn move_left(&mut self)
        ensures
            old(self).same_except_selection(*final(self)),
            match old(self).focus {
                KeyboardFocus::Back => final(self).same_navigation(*old(self)),
                KeyboardFocus::Confirm => {
                    &&& final(self).focus == KeyboardFocus::Back
                    &&& final(self).selected_row == old(self).selected_row
                    &&& final(self).selected_col == old(self).selected_col
                },
                KeyboardFocus::Key { .. } => final(self).focused_at(
                    old(self).mode,
                    old(self).selected_row as int,
                    sat_sub(old(self).selected_col as int, 1),
                ),
            },
            old(self).selection_valid() ==> final(self).selection_valid(),
            old(self).focus_consistent() ==> final(self).focus_consistent(),
            old(self).text_valid() ==> final(self).text_valid(),
    {
        match self.focus {
            KeyboardFocus::Back => {},
            KeyboardFocus::Confirm => self.focus_top_back(),
            KeyboardFocus::Key { .. } => {
                self.selected_col = if self.selected_col >= 1 {
                    self.selected_col - 1
                } else {
                    0
                };
                self.focus_key(self.selected_row, self.selected_col);
            },
        }
    }

    /// Moves right: from back to OK, along a key row (stopping at its last key).
    pub fn move_right(&mut self)
        requires
            old(self).focus is Key ==> old(self).selected_row < KEYBOARD_ROWS,
        ensures
            old(self).same_except_selection(*final(self)),
            match old(self).focus {
                KeyboardFocus::Back => {
                    &&& final(self).focus == KeyboardFocus::Confirm
                    &&& final(self).selected_row == old(self).selected_row
                    &&& final(self).selected_col == old(self).selected_col
                },
                KeyboardFocus::Confirm => final(self).same_navigation(*old(self)),
                KeyboardFocus::Key { .. } => final(self).focused_at(
                    old(self).mode,
                    old(self).selected_row as int,
                    min_int(
                        sat_add(old(self).selected_col as int, 1),
                        row_len(old(self).mode, old(self).selected_row as int) - 1,
                    ),
                ),
            },
            old(self).selection_valid() ==> final(self).selection_valid(),
            old(self).focus_consistent() ==> final(self).focus_consistent(),
            old(self).text_valid() ==> final(self).text_valid(),
    {
        match self.focus {
            KeyboardFocus::Back => self.focus_top_ok(),
            KeyboardFocus::Confirm => {},
            KeyboardFocus::Key { .. } => {
                let rows = self.layout_rows();
                let max = rows[self.selected_row].keys.len() - 1;
                let next = if self.selected_col < usize::MAX {
                    self.selected_col + 1
                } else {
                    usize::MAX
                };
                self.selected_col = if next < max {
                    next
                } else {
                    max
                };
                self.focus_key(self.selected_row, self.selected_col);
            },
        }
    }

    /// Moves up: from the top key row to back (left half) or OK (right
    /// half), otherwise one row up keeping the column where the row allows.
    pub fn move_up(&mut self)
        requires
            (old(self).focus matches KeyboardFocus::Key { row, col } && row != 0)
                ==> old(self).selected_row <= KEYBOARD_ROWS,
        ensures
            old(self).same_except_selection(*final(self)),
            match old(self).focus {
                KeyboardFocus::Back | KeyboardFocus::Confirm => final(self).same_navigation(*old(self)),
                KeyboardFocus::Key { row, col } => if row == 0 {
                    &&& final(self).focus == (if col < row_len(old(self).mode, 0) / 2 {
                        KeyboardFocus::Back
                    } else {
                        KeyboardFocus::Confirm
                    })
                    &&& final(self).selected_row == old(self).selected_row
                    &&& final(self).selected_col == old(self).selected_col
                } else {
                    let r = sat_sub(old(self).selected_row as int, 1);
                    final(self).focused_at(
                        old(self).mode,
                        r,
                        min_int(old(self).selected_col as int, row_len(old(self).mode, r) - 1),
                    )
                },
            },
            old(self).selection_valid() ==> final(self).selection_valid(),
            old(self).focus_consistent() ==> final(self).focus_consistent(),
            old(self).text_valid() ==> final(self).text_valid(),
    {
        match self.focus {
            KeyboardFocus::Back | KeyboardFocus::Confirm => {},
            KeyboardFocus::Key { row, col } => {
                if row == 0 {
                    if col < self.layout_rows()[0].keys.len() / 2 {
                        self.focus_top_back();
                    } else {
                        self.focus_top_ok();
                    }
                } else {
                    self.move_vertical(false);
                }
            },
        }
    }

    /// Moves down: from back to the first key, from OK to the last key of
    /// the top row, otherwise one row down (stopping at the bottom row).
    pub fn move_down(&mut self)
        ensures
            old(self).same_except_selection(*final(self)),
            match old(self).focus {
                KeyboardFocus::Back => final(self).focused_at(old(self).mode, 0, 0),
                KeyboardFocus::Confirm => final(self).focused_at(
                    old(self).mode,
                    0,
                    row_len(old(self).mode, 0) - 1,
                ),
                KeyboardFocus::Key { .. } => {
                    let r = min_int(sat_add(old(self).selected_row as int, 1), KEYBOARD_ROWS - 1);
                    final(self).focused_at(
                        old(self).mode,
                        r,
                        min_int(old(self).selected_col as int, row_len(old(self).mode, r) - 1),
                    )
                },
            },
            final(self).selection_valid(),
            old(self).focus_consistent() ==> final(self).focus_consistent(),
            old(self).text_valid() ==> final(self).text_valid(),
    {
        match self.focus {
            KeyboardFocus::Back => self.focus_key(0, 0),
            KeyboardFocus::Confirm => {
                let max = self.layout_rows()[0].keys.len() - 1;
                self.focus_key(0, max);
            },
            KeyboardFocus::Key { .. } => self.move_vertical(true),
        }
    }

    /// Selects the key at `row`, `col` (as a tap does), clamped to the layout.
    pub fn select(&mut self, row: usize, col: usize)
        ensures
            old(self).same_except_selection(*final(self)),
            final(self).focused_at(old(self).mode, row as int, col as int),
            final(self).selection_valid(),
            final(self).focus_consistent(),
    {
        self.focus_key(row, col);
    }

    fn focus_top_back(&mut self)
        ensures
            old(self).same_except_selection(*final(self)),
            final(self).selected_row == old(self).selected_row,
            final(self).selected_col == old(self).selected_col,
            final(self).focus == KeyboardFocus::Back,
    {
        self.focus = KeyboardFocus::Back;
    }

    fn focus_top_ok(&mut self)
        ensures
            old(self).same_except_selection(*final(self)),
            final(self).selected_row == old(self).selected_row,
            final(self).selected_col == old(self).selected_col,
            final(self).focus == KeyboardFocus::Confirm,
    {
        self.focus = KeyboardFocus::Confirm;
    }

    fn focus_key(&mut self, row: usize, col: usize)
        ensures
            old(self).same_except_selection(*final(self)),
            final(self).focused_at(old(self).mode, row as int, col as int),
            final(self).selection_valid(),
            final(self).focus_consistent(),
    {
        let rows = self.layout_rows();
        let last_row = rows.len() - 1;
        self.selected_row = if row < last_row {
            row
        } else {
            last_row
        };
        let last_col = rows[self.selected_row].keys.len() - 1;
        self.selected_col = if col < last_col {
            col
        } else {
            last_col
        };
        self.focus = KeyboardFocus::Key { row: self.selected_row, col: self.selected_col };
    }

    fn move_vertical(&mut self, down: bool)
        requires
            !down ==> old(self).selected_row <= KEYBOARD_ROWS,
        ensures
            old(self).same_except_selection(*final(self)),
            ({
                let r = if down {
                    min_int(sat_add(old(self).selected_row as int, 1), KEYBOARD_ROWS - 1)
                } else {
                    sat_sub(old(self).selected_row as int, 1)
                };
                final(self).focused_at(
                    old(self).mode,
                    r,
                    min_int(old(self).selected_col as int, row_len(old(self).mode, r) - 1),
                )
            }),
            final(self).selection_valid(),
            final(self).focus_consistent(),
    {
        let rows = self.layout_rows();
        let row = if down {
            let next = if self.selected_row < usize::MAX {
                self.selected_row + 1
            } else {
                usize::MAX
            };
            if next < rows.len() - 1 {
                next
            } else {
                rows.len() - 1
            }
        } else {
            if self.selected_row >= 1 {
                self.selected_row - 1
            } else {
                0
            }
        };
        self.selected_row = row;
        let last_col = rows[row].keys.len() - 1;
        self.selected_col = if self.selected_col < last_col {
            self.selected_col
        } else {
            last_col
        };
        self.focus_key(self.selected_row, self.selected_col);
    }

    /// Activates what has focus: back cancels, OK submits, a key performs
    /// its action.
    pub fn activate_selected(&mut self) -> (res: KeyboardResult)
        requires
            old(self).focus is Key ==> old(self).selection_valid() && old(self).can_activate(
                layout_action(old(self).mode, old(self).selected_row as int, old(self).selected_col as int),
            ),
        ensures
            old(self).activated(
                match old(self).focus {
                    KeyboardFocus::Back => KeyboardAction::Cancel,
                    KeyboardFocus::Confirm => KeyboardAction::Submit,
                    KeyboardFocus::Key { .. } => layout_action(
                        old(self).mode,
                        old(self).selected_row as int,
                        old(self).selected_col as int,
                    ),
                },
                *final(self),
                res,
            ),
            old(self).selection_valid() ==> final(self).selection_valid(),
            old(self).focus_consistent() ==> final(self).focus_consistent(),
            old(self).text_valid() ==> final(self).text_valid(),
    {
        match self.focus {
            KeyboardFocus::Back => self.activate(KeyboardAction::Cancel),
            KeyboardFocus::Confirm => self.activate(KeyboardAction::Submit),
            KeyboardFocus::Key { .. } => self.activate(self.selected_key().action),
        }
    }

    /// Performs a key action: edits the buffer at the cursor, moves the
    /// cursor, switches layouts (re-clamping the selection), cancels or
    /// submits the buffer. Clears the invalid mark.
    pub fn activate(&mut self, action: KeyboardAction) -> (res: KeyboardResult)
        requires
            old(self).can_activate(action),
        ensures
            old(self).activated(action, *final(self), res),
            old(self).selection_valid() ==> final(self).selection_valid(),
            old(self).focus_consistent() ==> final(self).focus_consistent(),
            old(self).buffer_bytes().len() <= old(self).max_len ==> final(self).buffer_bytes().len()
                <= final(self).max_len,
            old(self).text_valid() ==> final(self).text_valid(),
    {
        self.invalid = false;
        match action {
            KeyboardAction::Insert(ch) => {
                self.insert_char(ch);
                KeyboardResult::Pending
            },
            KeyboardAction::Backspace => {
                self.backspace();
                KeyboardResult::Pending
            },
            KeyboardAction::Space => {
                self.insert_char(' ');
                KeyboardResult::Pending
            },
            KeyboardAction::Shift => {
                self.mode = match self.mode {
                    KeyboardMode::Lower => KeyboardMode::Upper,
                    KeyboardMode::Upper => KeyboardMode::Lower,
                    KeyboardMode::Numbers => KeyboardMode::Upper,
                };
                self.clamp_selection();
                KeyboardResult::Pending
            },
            KeyboardAction::Mode(mode) => {
                self.mode = mode;
                self.clamp_selection();
                KeyboardResult::Pending
            },
            KeyboardAction::CursorLeft => {
                self.cursor = if self.cursor >= 1 {
                    self.cursor - 1
                } else {
                    0
                };
                KeyboardResult::Pending
            },
            KeyboardAction::CursorRight => {
                let next = if self.cursor < usize::MAX {
                    self.cursor + 1
                } else {
                    usize::MAX
                };
                let len = self.buffer.as_str().as_bytes().len();
                self.cursor = if next < len {
                    next
                } else {
                    len
                };
                KeyboardResult::Pending
            },
            KeyboardAction::Cancel => KeyboardResult::Cancelled,
            KeyboardAction::Submit => KeyboardResult::Submitted {
                field: self.field,
                value: self.buffer.clone(),
            },
        }
    }

    /// Marks the input as invalid (after a rejected submit); nothing else changes.
    pub fn mark_invalid(&mut self)
        ensures
            final(self).invalid,
            final(self).field == old(self).field,
            final(self).label@ == old(self).label@,
            final(self).max_len == old(self).max_len,
            final(self).buffer@ == old(self).buffer@,
            final(self).cursor == old(self).cursor,
            old(self).same_navigation(*final(self)),
    {
        self.invalid = true;
    }

    fn clamp_selection(&mut self)
        ensures
            old(self).same_except_selection(*final(self)),
            final(self).focused_at(
                old(self).mode,
                old(self).selected_row as int,
                old(self).selected_col as int,
            ),
            final(self).selection_valid(),
            final(self).focus_consistent(),
    {
        let rows = self.rows();
        let last_row = rows.len() - 1;
        self.selected_row = if self.selected_row < last_row {
            self.selected_row
        } else {
            last_row
        };
        let last_col = rows[self.selected_row].len() - 1;
        self.selected_col = if self.selected_col < last_col {
            self.selected_col
        } else {
            last_col
        };
        self.focus_key(self.selected_row, self.selected_col);
    }

    fn insert_char(&mut self, ch: char)
        requires
            old(self).can_insert(ch),
        ensures
            old(self).inserted(*final(self), ch),
            final(self).field == old(self).field,
            final(self).label@ == old(self).label@,
            final(self).max_len == old(self).max_len,
            final(self).invalid == old(self).invalid,
            old(self).same_navigation(*final(self)),
            old(self).buffer_bytes().len() <= old(self).max_len ==> final(self).buffer_bytes().len()
                <= final(self).max_len,
    {
        let len = self.buffer.as_str().as_bytes().len();
        let width = char_len_utf8(ch);
        let total = if len <= usize::MAX - width {
            len + width
        } else {
            usize::MAX
        };
        if total > self.max_len {
            return;
        }
        let at = if self.cursor < len {
            self.cursor
        } else {
            len
        };
        string_insert(&mut self.buffer, at, ch);
        let new_len = self.buffer.as_str().as_bytes().len();
        let moved = if self.cursor <= usize::MAX - width {
            self.cursor + width
        } else {
            usize::MAX
        };
        self.cursor = if moved < new_len {
            moved
        } else {
            new_len
        };
    }

    fn backspace(&mut self)
        requires
            old(self).can_backspace(),
        ensures
            old(self).backspaced(*final(self)),
            final(self).field == old(self).field,
            final(self).label@ == old(self).label@,
            final(self).max_len == old(self).max_len,
            final(self).invalid == old(self).invalid,
            old(self).same_navigation(*final(self)),
            final(self).buffer_bytes().len() <= old(self).buffer_bytes().len(),
    {
        if self.cursor == 0 || self.buffer.as_str().as_bytes().len() == 0 {
            return;
        }
        let remove_at = self.cursor - 1;
        let ghost bytes = self.buffer_bytes();
        let removed = string_remove(&mut self.buffer, remove_at);
        assert(bytes.subrange(remove_at as int, remove_at + encode_utf8(seq![removed]).len())
            == encode_utf8(seq![removed]));
        self.cursor = remove_at;
    }
}

/// Whether a byte may appear in a bind phrase: `a`-`z`, `0`-`9`, `-`, `_`.
pub open spec fn bind_phrase_byte(b: u8) -> bool {
    ||| (0x61 <= b && b <= 0x7a)
    ||| (0x30 <= b && b <= 0x39)
    ||| b == 0x2d
    ||| b == 0x5f
}

/// Checks a submitted bind phrase: not empty, at most 32 bytes, and only
/// lower-case ASCII letters, digits, `-` and `_`.
pub fn validate_bind_phrase(value: &str) -> (res: Result<(), &'static str>)
    ensures
        value@.len() == 0 ==> (res matches Err(msg) && msg@ == "Bind phrase is empty"@),
        value@.len() != 0 && encode_utf8(value@).len() > 32 ==> (res matches Err(msg) && msg@
            == "Bind phrase is too long"@),
        value@.len() != 0 && encode_utf8(value@).len() <= 32 ==> (if forall|i: int|
            0 <= i < encode_utf8(value@).len() ==> bind_phrase_byte(#[trigger] encode_utf8(value@)[i]) {
            res is Ok
        } else {
            res matches Err(msg) && msg@ == "Use a-z, 0-9, - or _"@
        }),
{
    if value.is_empty() {
        return Err("Bind phrase is empty");
    }
    if value.as_bytes().len() > 32 {
        return Err("Bind phrase is too long");
    }
    let bytes = value.as_bytes();
    let mut i: usize = 0;
    while i < bytes.len()
        invariant
            bytes@ == encode_utf8(value@),
            value@.len() != 0,
            encode_utf8(value@).len() <= 32,
            i <= bytes@.len(),
            forall|j: int| 0 <= j < i ==> bind_phrase_byte(#[trigger] bytes@[j]),
        decreases bytes.len() - i,
    {
        let b = bytes[i];
        if !((0x61 <= b && b <= 0x7a) || (0x30 <= b && b <= 0x39) || b == 0x2d || b == 0x5f) {
            return Err("Use a-z, 0-9, - or _");
        }
        i = i + 1;
    }
    Ok(())
}

/// A character whose UTF-8 encoding starts with an ASCII byte is encoded
/// in that single byte.
proof fn lemma_ascii_leading_byte(c: char)
    ensures
        encode_utf8(seq![c]) == vstd::utf8::encode_scalar(c as u32),
        encode_utf8(seq![c]).len() >= 1,
        encode_utf8(seq![c])[0] < 0x80 ==> encode_utf8(seq![c]).len() == 1,
        (c as u32) < 0x80 ==> encode_utf8(seq![c]) == seq![c as u32 as u8],
{
    assert(seq![c].drop_first() =~= Seq::<char>::empty());
    assert(encode_utf8(Seq::<char>::empty()) =~= Seq::<u8>::empty());
    assert(encode_utf8(seq![c]) =~= vstd::utf8::encode_scalar(c as u32));
    let s = c as u32;
    vstd::utf8::char_is_scalar(c);
    if vstd::utf8::has_width_1_encoding(s) {
        assert((s & 0x7F) as u8 == s as u8) by (bit_vector)
            requires
                s <= 0x7F,
        ;
    } else if vstd::utf8::has_width_2_encoding(s) {
        let b = ((s >> 6) & 0x1F) as u8;
        assert(0xC0u8 | b >= 0xC0u8) by (bit_vector);
    } else if vstd::utf8::has_width_3_encoding(s) {
        let b = ((s >> 12) & 0x0F) as u8;
        assert(0xE0u8 | b >= 0xE0u8) by (bit_vector);
    } else {
        let b = ((s >> 18) & 0x7) as u8;
        assert(0xF0u8 | b >= 0xF0u8) by (bit_vector);
    }
}

/// Typing a one-byte character and deleting it again with backspace gives
/// back the text and the cursor, wherever the cursor was in the text.
pub proof fn lemma_insert_then_backspace(
    before: KeyboardOverlay,
    typed: KeyboardOverlay,
    after: KeyboardOverlay,
    ch: char,
)
    requires
        (ch as u32) < 0x80,
        before.cursor <= before.buffer_bytes().len(),
        before.buffer_bytes().len() < before.max_len,
        before.inserted(typed, ch),
        typed.backspaced(after),
    ensures
        after.buffer@ == before.buffer@,
        after.cursor == before.cursor,
{
    let bytes = before.buffer_bytes();
    let at = before.cursor as int;
    lemma_ascii_leading_byte(ch);
    let mid = typed.buffer_bytes();
    assert(mid == bytes.take(at) + seq![ch as u32 as u8] + bytes.skip(at));
    assert(mid[at] == ch as u32 as u8);
    assert(typed.cursor == at + 1);
    let c = choose|c: char|
        at + encode_utf8(seq![c]).len() <= mid.len() && #[trigger] mid.subrange(
            at,
            at + encode_utf8(seq![c]).len(),
        ) == encode_utf8(seq![c]) && after.buffer_bytes() == mid.take(at) + mid.skip(
            at + encode_utf8(seq![c]).len(),
        );
    lemma_ascii_leading_byte(c);
    assert(encode_utf8(seq![c])[0] == mid.subrange(at, at + encode_utf8(seq![c]).len())[0]);
    assert(encode_utf8(seq![c]).len() == 1);
    assert(after.buffer_bytes() =~= bytes);
    vstd::utf8::encode_utf8_decode_utf8(after.buffer@);
    vstd::utf8::encode_utf8_decode_utf8(before.buffer@);
}


impl KeyboardOverlay {
    /// The text invariant: the buffer holds at most `max_len` bytes and the
    /// cursor is inside it.
    pub open spec fn text_valid(&self) -> bool {
        &&& self.buffer_bytes().len() <= self.max_len
        &&& self.cursor <= self.buffer_bytes().len()
    }
}

proof fn lemma_ascii_boundary(chars: Seq<char>, i: int)
    requires
        vstd::utf8::is_ascii_chars(chars),
        0 <= i <= encode_utf8(chars).len(),
    ensures
        is_char_boundary(encode_utf8(chars), i),
{
    let bytes = encode_utf8(chars);
    vstd::utf8::is_ascii_chars_encode_utf8(chars);
    vstd::utf8::encode_utf8_valid_utf8(chars);
    if i == bytes.len() {
        vstd::utf8::is_char_boundary_start_end_of_seq(bytes);
    } else {
        vstd::utf8::is_char_boundary_iff_not_is_continuation_byte(bytes, i);
        let c = chars[i];
        assert('\0' <= c <= '\u{7f}');
        assert(bytes[i] == c as u8);
        let v = c as u32;
        assert(v <= 0x7f);
        assert(v as u8 <= 0x7f) by (bit_vector)
            requires
                v <= 0x7f,
        ;
    }
}

/// On an ASCII buffer with the text invariant, every key can be activated
/// (no edit can panic), activating keeps the text invariant, and an
/// insertion that would pass `max_len` bytes leaves buffer and cursor as
/// they were with the result pending.
pub proof fn lemma_ascii_text_activation(
    k: KeyboardOverlay,
    action: KeyboardAction,
    after: KeyboardOverlay,
    res: KeyboardResult,
)
    requires
        vstd::utf8::is_ascii_chars(k.buffer@),
        k.text_valid(),
    ensures
        k.can_activate(action),
        // (`after` is a real overlay: its byte length fits in `usize`.)
        k.activated(action, after, res) && after.buffer_bytes().len() <= usize::MAX
            ==> after.text_valid(),
        k.activated(action, after, res) ==> (action matches KeyboardAction::Insert(c)
            ==> (sat_add(k.buffer_bytes().len() as int, encode_utf8(seq![c]).len() as int)
            > k.max_len ==> after.buffer@ == k.buffer@ && after.cursor == k.cursor && res
            == KeyboardResult::Pending)),
{
    let bytes = k.buffer_bytes();
    lemma_ascii_boundary(k.buffer@, k.cursor as int);
    if k.cursor >= 1 {
        lemma_ascii_boundary(k.buffer@, k.cursor - 1);
    }
    if k.activated(action, after, res) {
        match action {
            KeyboardAction::Backspace => {
                if !(k.cursor == 0 || bytes.len() == 0) {
                    let at = k.cursor - 1;
                    let c = choose|c: char|
                        at + encode_utf8(seq![c]).len() <= bytes.len() && #[trigger] bytes.subrange(
                            at,
                            at + encode_utf8(seq![c]).len(),
                        ) == encode_utf8(seq![c]) && after.buffer_bytes() == bytes.take(at)
                            + bytes.skip(at + encode_utf8(seq![c]).len());
                    assert(after.buffer_bytes().len() == bytes.len() - encode_utf8(seq![c]).len());
                }
            },
            _ => {},
        }
    }
}


/// A bind-phrase character: a lower-case ASCII letter, a digit, `-` or `_`.
pub open spec fn bind_phrase_char(c: char) -> bool {
    ||| (0x61 <= c as int && c as int <= 0x7a)
    ||| (0x30 <= c as int && c as int <= 0x39)
    ||| c == '-'
    ||| c == '_'
}

/// A phrase made only of lower-case letters, digits, `-` and `_` is stored
/// as one byte per character, and every one of those bytes is allowed: so a
/// phrase of 1 to 32 such characters is accepted by `validate_bind_phrase`.
pub proof fn lemma_bind_phrase_chars_accepted(value: Seq<char>)
    requires
        forall|i: int| 0 <= i < value.len() ==> bind_phrase_char(#[trigger] value[i]),
    ensures
        encode_utf8(value).len() == value.len(),
        forall|i: int|
            0 <= i < encode_utf8(value).len() ==> bind_phrase_byte(#[trigger] encode_utf8(value)[i]),
{
    assert(vstd::utf8::is_ascii_chars(value)) by {
        assert forall|i: int| 0 <= i < value.len() implies '\0' <= #[trigger] value[i] <= '\u{7f}' by {
            assert(bind_phrase_char(value[i]));
        }
    }
    vstd::utf8::is_ascii_chars_encode_utf8(value);
    assert forall|i: int| 0 <= i < encode_utf8(value).len() implies bind_phrase_byte(
        #[trigger] encode_utf8(value)[i],
    ) by {
        let c = value[i];
        assert(bind_phrase_char(c));
        assert(encode_utf8(value)[i] == c as u8);
        assert((c as u8) as int == c as int);
    }
}

} // verus!
