//! Keys of the terminal, and the bytes that a terminal sends for them.

use vstd::prelude::*;
use vstd::utf8::{encode_scalar, encode_utf8, is_ascii_chars, is_ascii_chars_encode_utf8};

use crate::numeric::{dec, dec_text, digit};
use crate::text::{cat3, Text};

verus! {

broadcast use vstd::string::group_string_axioms;

/// A key, without its modifiers.
#[derive(Debug, Clone, Copy, PartialEq, Eq, Structural)]
pub enum KeyCode {
    Char(char),
    Enter,
    Tab,
    Backspace,
    Esc,
    Up,
    Down,
    Right,
    Left,
    Home,
    End,
    PageUp,
    PageDown,
    Delete,
    Insert,
    /// A function key, by its number.
    F(u8),
    /// Any other key.
    Other,
}

/// A key that was pressed together with modifiers.
#[derive(Debug, Clone, Copy, PartialEq, Eq, Structural)]
pub struct KeyEvent {
    pub code: KeyCode,
    pub control: bool,
    pub alt: bool,
}

/// The lowest byte of a character's number.
pub open spec fn low_byte(c: char) -> u8 {
    (c as u32 % 256) as u8
}

/// The byte of a character that is pressed together with the control key.
pub open spec fn control_byte(c: char) -> u8 {
    if 'a' <= c <= 'z' {
        (c as u32 - 'a' as u32 + 1) as u8
    } else if 'A' <= c <= 'Z' {
        (c as u32 - 'A' as u32 + 1) as u8
    } else if c == ' ' || c == '2' {
        0
    } else if c == '[' {
        0x1b
    } else if c == '\\' {
        0x1c
    } else if c == ']' {
        0x1d
    } else if c == '^' {
        0x1e
    } else if c == '_' {
        0x1f
    } else if c == '?' || c == '8' {
        0x7f
    } else if '3' <= c <= '7' {
        (c as u32 - '0' as u32 + 0x1f) as u8
    } else {
        low_byte(c)
    }
}

/// The bytes that a key stands for.
pub open spec fn key_bytes(key: KeyEvent) -> Seq<u8> {
    match key.code {
        KeyCode::Char(c) => if key.control {
            seq![control_byte(c)]
        } else if key.alt {
            seq![0x1bu8] + encode_utf8(seq![c])
        } else {
            encode_utf8(seq![c])
        },
        KeyCode::Enter => seq![13u8],
        KeyCode::Tab => seq![9u8],
        KeyCode::Backspace => seq![0x7fu8],
        KeyCode::Esc => seq![0x1bu8],
        KeyCode::Up => seq![0x1bu8, 91, 65],
        KeyCode::Down => seq![0x1bu8, 91, 66],
        KeyCode::Right => seq![0x1bu8, 91, 67],
        KeyCode::Left => seq![0x1bu8, 91, 68],
        KeyCode::Home => seq![0x1bu8, 91, 72],
        KeyCode::End => seq![0x1bu8, 91, 70],
        KeyCode::PageUp => seq![0x1bu8, 91, 53, 126],
        KeyCode::PageDown => seq![0x1bu8, 91, 54, 126],
        KeyCode::Delete => seq![0x1bu8, 91, 51, 126],
        KeyCode::Insert => seq![0x1bu8, 91, 50, 126],
        KeyCode::F(n) => if 1 <= n <= 4 {
            seq![0x1bu8, 79, (79 + n) as u8]
        } else if 5 <= n <= 12 {
            encode_utf8("\x1b["@ + dec((n + 10) as nat) + "~"@)
        } else {
            seq![]
        },
        KeyCode::Other => seq![],
    }
}

fn control_code(c: char) -> (r: u8)
    ensures
        r == control_byte(c),
{
    let u: u32 = c as u32;
    if 97 <= u && u <= 122 {
        (u - 96) as u8
    } else if 65 <= u && u <= 90 {
        (u - 64) as u8
    } else if u == 32 || u == 50 {
        0
    } else if u == 91 {
        0x1b
    } else if u == 92 {
        0x1c
    } else if u == 93 {
        0x1d
    } else if u == 94 {
        0x1e
    } else if u == 95 {
        0x1f
    } else if u == 63 || u == 56 {
        0x7f
    } else if 51 <= u && u <= 55 {
        (u - 48 + 0x1f) as u8
    } else {
        (u % 256) as u8
    }
}

fn char_bytes(c: char) -> (r: Vec<u8>)
    ensures
        r@ == encode_utf8(seq![c]),
{
    let mut s = String::new();
    s.push(c);
    assert(s@ =~= seq![c]);
    s.as_str().as_bytes_vec()
}

/// Appends three bytes.
fn escape3(a: u8, b: u8) -> (r: Vec<u8>)
    ensures
        r@ == seq![0x1bu8, a, b],
{
    let mut v: Vec<u8> = Vec::new();
    v.push(0x1b);
    v.push(a);
    v.push(b);
    assert(v@ =~= seq![0x1bu8, a, b]);
    v
}

fn escape_tilde(a: u8) -> (r: Vec<u8>)
    ensures
        r@ == seq![0x1bu8, 91u8, a, 126u8],
{
    let mut v = escape3(91, a);
    v.push(126);
    assert(v@ =~= seq![0x1bu8, 91u8, a, 126u8]);
    v
}

fn one_byte(a: u8) -> (r: Vec<u8>)
    ensures
        r@ == seq![a],
{
    let mut v: Vec<u8> = Vec::new();
    v.push(a);
    assert(v@ =~= seq![a]);
    v
}

fn no_bytes() -> (r: Vec<u8>)
    ensures
        r@ == Seq::<u8>::empty(),
{
    Vec::new()
}

/// The bytes that a key stands for, none where the terminal sends none.
pub fn key_event_to_bytes(key: KeyEvent) -> (r: Vec<u8>)
    ensures
        r@ == key_bytes(key),
{
    match key.code {
        KeyCode::Char(c) => {
            if key.control {
                one_byte(control_code(c))
            } else if key.alt {
                let mut v = one_byte(0x1b);
                let mut more = char_bytes(c);
                v.append(&mut more);
                v
            } else {
                char_bytes(c)
            }
        },
        KeyCode::Enter => one_byte(13),
        KeyCode::Tab => one_byte(9),
        KeyCode::Backspace => one_byte(0x7f),
        KeyCode::Esc => one_byte(0x1b),
        KeyCode::Up => escape3(91, 65),
        KeyCode::Down => escape3(91, 66),
        KeyCode::Right => escape3(91, 67),
        KeyCode::Left => escape3(91, 68),
        KeyCode::Home => escape3(91, 72),
        KeyCode::End => escape3(91, 70),
        KeyCode::PageUp => escape_tilde(53),
        KeyCode::PageDown => escape_tilde(54),
        KeyCode::Delete => escape_tilde(51),
        KeyCode::Insert => escape_tilde(50),
        KeyCode::F(n) => {
            if 1 <= n && n <= 4 {
                escape3(79, 79 + n)
            } else if 5 <= n && n <= 12 {
                cat3("\x1b[", dec_text((n + 10) as u64).as_str(), "~").as_str().as_bytes_vec()
            } else {
                no_bytes()
            }
        },
        KeyCode::Other => no_bytes(),
    }
}

// ---------------------------------------------------------------------
// Laws
// ---------------------------------------------------------------------

/// The key of a character without modifiers.
pub open spec fn plain(c: char) -> KeyEvent {
    KeyEvent { code: KeyCode::Char(c), control: false, alt: false }
}

/// The bytes of some keys, one after the other.
pub open spec fn typed_bytes(keys: Seq<KeyEvent>) -> Seq<u8>
    decreases keys.len(),
{
    if keys.len() == 0 {
        seq![]
    } else {
        key_bytes(keys[0]) + typed_bytes(keys.drop_first())
    }
}

/// A text that is typed arrives as it is.
pub proof fn law_typed_text_arrives(text: Text)
    ensures
        typed_bytes(text.map_values(|c: char| plain(c))) == encode_utf8(text),
    decreases text.len(),
{
    let keys = text.map_values(|c: char| plain(c));
    if text.len() > 0 {
        let rest = text.drop_first();
        law_typed_text_arrives(rest);
        assert(keys.drop_first() =~= rest.map_values(|c: char| plain(c)));
        let one = seq![text[0]];
        assert(one.drop_first() =~= Seq::<char>::empty());
        assert(encode_utf8(one.drop_first()) =~= Seq::<u8>::empty());
        assert(encode_utf8(one) =~= encode_scalar(text[0] as u32));
        assert(encode_utf8(text) =~= encode_scalar(text[0] as u32) + encode_utf8(rest));
    }
}

/// With the control key, a letter gives its place in the alphabet, whatever its
/// case.
pub proof fn law_control_letters(n: u32)
    requires
        1 <= n <= 26,
    ensures
        control_byte((96 + n) as char) == n,
        control_byte((64 + n) as char) == n,
{
}

/// Every key but the unknown ones and the function keys without a sequence sends
/// something.
pub proof fn law_keys_send(key: KeyEvent)
    requires
        key.code != KeyCode::Other,
        key.code matches KeyCode::F(n) ==> 1 <= n <= 12,
    ensures
        key_bytes(key).len() > 0,
{
    match key.code {
        KeyCode::Char(c) => {
            let one = seq![c];
            assert(one.drop_first() =~= Seq::<char>::empty());
            assert(encode_utf8(one).len() > 0);
        },
        KeyCode::F(n) => {
            reveal_strlit("\x1b[");
            let s = "\x1b["@ + dec((n + 10) as nat) + "~"@;
            assert(s.len() > 0);
            assert(encode_utf8(s).len() > 0);
        },
        _ => {},
    }
}

/// A key that moves, edits or has a number, and no character.
pub open spec fn is_special(code: KeyCode) -> bool {
    match code {
        KeyCode::Up | KeyCode::Down | KeyCode::Right | KeyCode::Left => true,
        KeyCode::Home | KeyCode::End | KeyCode::PageUp | KeyCode::PageDown => true,
        KeyCode::Delete | KeyCode::Insert => true,
        KeyCode::F(n) => 1 <= n <= 12,
        _ => false,
    }
}

proof fn lemma_high_function_keys(key: KeyEvent, n: u8)
    requires
        key.code == KeyCode::F(n),
        5 <= n <= 12,
    ensures
        key_bytes(key) == seq![
            0x1bu8,
            91u8,
            digit((n + 10) / 10) as u8,
            digit((n + 10) % 10) as u8,
            126u8,
        ],
{
    reveal_strlit("\x1b[");
    reveal_strlit("~");
    let m = (n + 10) as nat;
    let s = "\x1b["@ + dec(m) + "~"@;
    assert(dec(m) =~= seq![digit((m / 10) as int), digit((m % 10) as int)]) by {
        reveal_with_fuel(dec, 2);
    }
    assert(s =~= seq!['\x1b', '[', digit((m / 10) as int), digit((m % 10) as int), '~']);
    assert(is_ascii_chars(s));
    is_ascii_chars_encode_utf8(s);
    assert(encode_utf8(s) =~= seq![
        0x1bu8,
        91u8,
        digit((m / 10) as int) as u8,
        digit((m % 10) as int) as u8,
        126u8,
    ]) by {
        assert forall|i: int| 0 <= i < s.len() implies encode_utf8(s)[i] == s[i] as u8 by {}
    }
}

/// The special keys send sequences that begin with the escape character and tell
/// the keys apart.
pub proof fn law_special_keys_differ(a: KeyEvent, b: KeyEvent)
    requires
        is_special(a.code),
        is_special(b.code),
    ensures
        key_bytes(a).len() > 1,
        key_bytes(a)[0] == 0x1b,
        a.code != b.code ==> key_bytes(a) != key_bytes(b),
{
    if let KeyCode::F(n) = a.code {
        if n >= 5 {
            lemma_high_function_keys(a, n);
        }
    }
    if let KeyCode::F(n) = b.code {
        if n >= 5 {
            lemma_high_function_keys(b, n);
        }
    }
    let x = key_bytes(a);
    let y = key_bytes(b);
    if a.code != b.code && x == y {
        assert(x.len() == y.len() && x[1] == y[1] && x[2] == y[2]);
        assert(x.len() > 3 ==> x[3] == y[3]);
    }
}

/// The keys that move send the sequences of a terminal: the escape character, an
/// opening bracket and the letter of the direction; the keys that edit or turn
/// pages send a number and a tilde.
pub proof fn law_moving_and_editing_keys(key: KeyEvent, r: Vec<u8>)
    requires
        call_ensures(key_event_to_bytes, (key,), r),
    ensures
        key.code == KeyCode::Up ==> r@ == seq![27u8, '[' as u8, 'A' as u8],
        key.code == KeyCode::Down ==> r@ == seq![27u8, '[' as u8, 'B' as u8],
        key.code == KeyCode::Right ==> r@ == seq![27u8, '[' as u8, 'C' as u8],
        key.code == KeyCode::Left ==> r@ == seq![27u8, '[' as u8, 'D' as u8],
        key.code == KeyCode::Home ==> r@ == seq![27u8, '[' as u8, 'H' as u8],
        key.code == KeyCode::End ==> r@ == seq![27u8, '[' as u8, 'F' as u8],
        key.code == KeyCode::Insert ==> r@ == seq![27u8, '[' as u8, '2' as u8, '~' as u8],
        key.code == KeyCode::Delete ==> r@ == seq![27u8, '[' as u8, '3' as u8, '~' as u8],
        key.code == KeyCode::PageUp ==> r@ == seq![27u8, '[' as u8, '5' as u8, '~' as u8],
        key.code == KeyCode::PageDown ==> r@ == seq![27u8, '[' as u8, '6' as u8, '~' as u8],
        key.code == KeyCode::Enter ==> r@ == seq!['\r' as u8],
        key.code == KeyCode::Tab ==> r@ == seq!['\t' as u8],
        key.code == KeyCode::Esc ==> r@ == seq![27u8],
        key.code == KeyCode::Backspace ==> r@ == seq![127u8],
        key.code == KeyCode::Other ==> r@.len() == 0,
{
}

/// A function key sends a sequence that counts on from the key before it, and one
/// beyond the twelfth sends nothing.
pub proof fn law_function_keys(
    n: u8,
    r: Vec<u8>,
    control: bool,
    alt: bool,
)
    requires
        call_ensures(key_event_to_bytes, (KeyEvent { code: KeyCode::F(n), control, alt },), r),
    ensures
        1 <= n <= 4 ==> r@ == seq![27u8, 'O' as u8, ('P' as u8 + n - 1) as u8],
        5 <= n <= 12 ==> r@ == seq![
            27u8,
            '[' as u8,
            digit((n + 10) / 10) as u8,
            digit((n + 10) % 10) as u8,
            '~' as u8,
        ],
        n == 0 || n > 12 ==> r@.len() == 0,
{
    if 5 <= n <= 12 {
        lemma_high_function_keys(KeyEvent { code: KeyCode::F(n), control, alt }, n);
    }
}

/// A character is sent as it is; with the alternate key the escape character
/// comes first; with the control key one byte is sent, which for a letter is its
/// place in the alphabet.
pub proof fn law_characters(
    c: char,
    control: bool,
    alt: bool,
    r: Vec<u8>,
)
    requires
        call_ensures(key_event_to_bytes, (KeyEvent { code: KeyCode::Char(c), control, alt },), r),
    ensures
        !control && !alt ==> r@ == encode_utf8(seq![c]),
        !control && alt ==> r@ == seq![27u8] + encode_utf8(seq![c]),
        control ==> r@.len() == 1,
        control && 'a' <= c <= 'z' ==> r@[0] == c as u32 - 'a' as u32 + 1,
        control && 'A' <= c <= 'Z' ==> r@[0] == c as u32 - 'A' as u32 + 1,
        control && '[' <= c <= '_' ==> r@[0] == c as u32 - 64,
        control && c == ' ' ==> r@[0] == 0,
        control && c == '?' ==> r@[0] == 127,
{
}

} // verus!
