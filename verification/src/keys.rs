//! Translation of key presses reported by the UI toolkit into the bytes that a
//! PTY expects.
use vstd::prelude::*;
use vstd::string::*;
use vstd::utf8::*;
use slint::platform::Key;

verus! {

/// The named (non-printable) keys that get a dedicated terminal encoding.
#[derive(Debug, Clone, Copy, PartialEq, Eq, Structural)]
pub enum NamedKey {
    Return,
    Backspace,
    Tab,
    Escape,
    UpArrow,
    DownArrow,
    RightArrow,
    LeftArrow,
    Delete,
    Home,
    End,
}

/// The character that slint uses as the text of a named key.
pub open spec fn named_key_char(key: NamedKey) -> char {
    match key {
        NamedKey::Return => '\u{000a}',
        NamedKey::Backspace => '\u{0008}',
        NamedKey::Tab => '\u{0009}',
        NamedKey::Escape => '\u{001b}',
        NamedKey::UpArrow => '\u{F700}',
        NamedKey::DownArrow => '\u{F701}',
        NamedKey::RightArrow => '\u{F703}',
        NamedKey::LeftArrow => '\u{F702}',
        NamedKey::Delete => '\u{007f}',
        NamedKey::Home => '\u{F729}',
        NamedKey::End => '\u{F72B}',
    }
}

/// The bytes a terminal expects for a named key.
pub open spec fn named_key_sequence(key: NamedKey) -> Seq<u8> {
    match key {
        NamedKey::Return => seq![0x0du8],
        NamedKey::Backspace => seq![0x7fu8],
        NamedKey::Tab => seq![0x09u8],
        NamedKey::Escape => seq![0x1bu8],
        NamedKey::UpArrow => seq![0x1bu8, 0x5bu8, 0x41u8],
        NamedKey::DownArrow => seq![0x1bu8, 0x5bu8, 0x42u8],
        NamedKey::RightArrow => seq![0x1bu8, 0x5bu8, 0x43u8],
        NamedKey::LeftArrow => seq![0x1bu8, 0x5bu8, 0x44u8],
        NamedKey::Delete => seq![0x1bu8, 0x5bu8, 0x33u8, 0x7eu8],
        NamedKey::Home => seq![0x1bu8, 0x5bu8, 0x48u8],
        NamedKey::End => seq![0x1bu8, 0x5bu8, 0x46u8],
    }
}

/// Is `text` exactly the text of the named key `key`?
pub open spec fn is_key_text(text: Seq<char>, key: NamedKey) -> bool {
    text == seq![named_key_char(key)]
}

/// The named key whose text is `text`, checked in the order
/// Return, Backspace, Tab, Escape, arrows (up, down, right, left), Delete, Home, End.
pub open spec fn named_key_of(text: Seq<char>) -> Option<NamedKey> {
    if is_key_text(text, NamedKey::Return) {
        Some(NamedKey::Return)
    } else if is_key_text(text, NamedKey::Backspace) {
        Some(NamedKey::Backspace)
    } else if is_key_text(text, NamedKey::Tab) {
        Some(NamedKey::Tab)
    } else if is_key_text(text, NamedKey::Escape) {
        Some(NamedKey::Escape)
    } else if is_key_text(text, NamedKey::UpArrow) {
        Some(NamedKey::UpArrow)
    } else if is_key_text(text, NamedKey::DownArrow) {
        Some(NamedKey::DownArrow)
    } else if is_key_text(text, NamedKey::RightArrow) {
        Some(NamedKey::RightArrow)
    } else if is_key_text(text, NamedKey::LeftArrow) {
        Some(NamedKey::LeftArrow)
    } else if is_key_text(text, NamedKey::Delete) {
        Some(NamedKey::Delete)
    } else if is_key_text(text, NamedKey::Home) {
        Some(NamedKey::Home)
    } else if is_key_text(text, NamedKey::End) {
        Some(NamedKey::End)
    } else {
        None
    }
}

/// The bytes of a key press before modifiers are applied: the dedicated
/// sequence of a named key, otherwise the UTF-8 encoding of the text.
pub open spec fn key_data(text: Seq<char>) -> Seq<u8> {
    match named_key_of(text) {
        Some(key) => named_key_sequence(key),
        None => encode_utf8(text),
    }
}

/// An ASCII letter byte.
pub open spec fn is_ascii_letter(b: u8) -> bool {
    (0x41 <= b && b <= 0x5a) || (0x61 <= b && b <= 0x7a)
}

/// ASCII lower-casing of one byte.
pub open spec fn ascii_lower(b: u8) -> u8 {
    if 0x41 <= b && b <= 0x5a {
        (b + 0x20) as u8
    } else {
        b
    }
}

/// Does Control turn this key data into a control code?
pub open spec fn is_control_letter(data: Seq<u8>) -> bool {
    data.len() == 1 && is_ascii_letter(data[0])
}

/// The control code of an ASCII letter: `a`/`A` is 1, ..., `z`/`Z` is 26.
pub open spec fn control_code(b: u8) -> u8 {
    (ascii_lower(b) - 0x61 + 1) as u8
}

/// The bytes sent to the PTY for a key press with text `text`.
///
/// Control with a single letter gives its control code (and takes precedence
/// over Alt); otherwise Alt prefixes a non-empty encoding with ESC.
pub open spec fn key_bytes(text: Seq<char>, control: bool, alt: bool) -> Seq<u8> {
    let data = key_data(text);
    if control && is_control_letter(data) {
        seq![control_code(data[0])]
    } else if alt && data.len() > 0 {
        seq![0x1bu8] + data
    } else {
        data
    }
}

/// The text of a named key, as slint's `Key` converts it to a string
/// (`From<Key> for SharedString`, which goes through `From<Key> for char`).
/// The contract states the one character that slint's key table assigns to
/// each key.
#[verifier::external_body]
fn slint_key_text(key: NamedKey) -> (text: String)
    ensures
        text@ == seq![named_key_char(key)],
{
    let shared: slint::SharedString = match key {
        NamedKey::Return => Key::Return, NamedKey::Backspace => Key::Backspace,
        NamedKey::Tab => Key::Tab, NamedKey::Escape => Key::Escape,
        NamedKey::UpArrow => Key::UpArrow, NamedKey::DownArrow => Key::DownArrow,
        NamedKey::RightArrow => Key::RightArrow, NamedKey::LeftArrow => Key::LeftArrow,
        NamedKey::Delete => Key::Delete, NamedKey::Home => Key::Home, NamedKey::End => Key::End,
    }.into();
    shared.as_str().to_owned()
}

/// Translates a key press (its text and the Control / Alt modifiers) into the
/// bytes to write to the PTY.
pub fn terminal_key_bytes(text: &str, control: bool, alt: bool) -> (bytes: Vec<u8>)
    ensures
        bytes@ == key_bytes(text@, control, alt),
{
    let owned: String = text.to_owned();
    let return_key = slint_key_text(NamedKey::Return);
    let backspace_key = slint_key_text(NamedKey::Backspace);
    let tab_key = slint_key_text(NamedKey::Tab);
    let escape_key = slint_key_text(NamedKey::Escape);
    let up_key = slint_key_text(NamedKey::UpArrow);
    let down_key = slint_key_text(NamedKey::DownArrow);
    let right_key = slint_key_text(NamedKey::RightArrow);
    let left_key = slint_key_text(NamedKey::LeftArrow);
    let delete_key = slint_key_text(NamedKey::Delete);
    let home_key = slint_key_text(NamedKey::Home);
    let end_key = slint_key_text(NamedKey::End);

    let mut data: Vec<u8> = if owned == return_key {
        vec![0x0du8]
    } else if owned == backspace_key {
        vec![0x7fu8]
    } else if owned == tab_key {
        vec![0x09u8]
    } else if owned == escape_key {
        vec![0x1bu8]
    } else if owned == up_key {
        vec![0x1bu8, 0x5bu8, 0x41u8]
    } else if owned == down_key {
        vec![0x1bu8, 0x5bu8, 0x42u8]
    } else if owned == right_key {
        vec![0x1bu8, 0x5bu8, 0x43u8]
    } else if owned == left_key {
        vec![0x1bu8, 0x5bu8, 0x44u8]
    } else if owned == delete_key {
        vec![0x1bu8, 0x5bu8, 0x33u8, 0x7eu8]
    } else if owned == home_key {
        vec![0x1bu8, 0x5bu8, 0x48u8]
    } else if owned == end_key {
        vec![0x1bu8, 0x5bu8, 0x46u8]
    } else {
        text.as_bytes_vec()
    };
    assert(data@ == key_data(text@));

    if control && data.len() == 1 {
        let b = data[0];
        if (0x41u8 <= b && b <= 0x5au8) || (0x61u8 <= b && b <= 0x7au8) {
            let lower: u8 = if b <= 0x5au8 { b + 0x20 } else { b };
            return vec![lower - 0x61u8 + 1];
        }
    }

    if alt && data.len() > 0 {
        let mut prefixed: Vec<u8> = vec![0x1bu8];
        prefixed.append(&mut data);
        return prefixed;
    }

    data
}


/// An ASCII character is encoded as the single byte of its code.
pub proof fn lemma_ascii_char_encoding(c: char)
    requires
        (c as u32) <= 0x7f,
    ensures
        encode_utf8(seq![c]) == seq![(c as u32) as u8],
{
    let v = c as u32;
    assert(v & 0x7f == v) by (bit_vector)
        requires
            v <= 0x7f,
    ;
    assert(seq![c].drop_first() =~= Seq::<char>::empty());
    assert(encode_utf8(Seq::<char>::empty()) =~= Seq::<u8>::empty());
    assert(encode_scalar(v) =~= seq![v as u8]);
    assert(encode_utf8(seq![c]) =~= seq![(c as u32) as u8]);
}

/// Alt prefixes ESC to the encoding of any key press that Control does not
/// turn into a control code and whose encoding is not empty.
pub proof fn lemma_alt_prefixes_escape(text: Seq<char>, control: bool)
    requires
        !(control && is_control_letter(key_data(text))),
        key_data(text).len() > 0,
    ensures
        key_bytes(text, control, true) == seq![0x1bu8] + key_bytes(text, control, false),
{
}

/// Control with an ASCII letter gives its control code in `1..=26`, whatever
/// Alt is, and upper and lower case give the same code.
pub proof fn lemma_control_letter(c: char, alt: bool)
    requires
        is_ascii_letter((c as u32) as u8),
        (c as u32) <= 0x7f,
    ensures
        key_bytes(seq![c], true, alt) == seq![control_code((c as u32) as u8)],
        1 <= control_code((c as u32) as u8) <= 26,
        control_code((c as u32) as u8) == control_code(ascii_lower((c as u32) as u8)),
{
    lemma_ascii_char_encoding(c);
    assert(named_key_of(seq![c]) is None);
}

/// A key press yields no bytes exactly when its text is empty.
pub proof fn lemma_no_bytes_iff_empty_text(text: Seq<char>, control: bool, alt: bool)
    ensures
        key_bytes(text, control, alt).len() == 0 <==> text.len() == 0,
{
    if text.len() == 0 {
        assert(named_key_of(text) is None);
        assert(encode_utf8(text) =~= Seq::<u8>::empty());
    } else {
        match named_key_of(text) {
            Some(k) => {
                assert(named_key_sequence(k).len() > 0);
            },
            None => {
                assert(encode_scalar(text[0] as u32).len() > 0);
                assert(encode_utf8(text).len() > 0);
            },
        }
    }
}

/// Without modifiers, text that is not a named key is sent as its UTF-8 bytes.
pub proof fn lemma_plain_text_passes_through(text: Seq<char>)
    requires
        named_key_of(text) is None,
    ensures
        key_bytes(text, false, false) == encode_utf8(text),
{
}

/// Control changes only ASCII letters: for any key press whose bytes are not
/// one ASCII letter, Control makes no difference.
pub proof fn lemma_control_only_changes_letters(text: Seq<char>, alt: bool)
    requires
        !(key_data(text).len() == 1 && ((0x41 <= key_data(text)[0] && key_data(text)[0] <= 0x5a)
            || (0x61 <= key_data(text)[0] && key_data(text)[0] <= 0x7a))),
    ensures
        key_bytes(text, true, alt) == key_bytes(text, false, alt),
{
}

/// Every named key sends its own sequence, whatever Control is: Control
/// never turns a named key into a control code (Ctrl+Backspace still sends
/// DEL, 0x7f).
pub proof fn lemma_named_keys_ignore_control(key: NamedKey)
    ensures
        key_bytes(seq![named_key_char(key)], true, false) == named_key_sequence(key),
        key_bytes(seq![named_key_char(key)], false, false) == named_key_sequence(key),
        key_bytes(seq!['\u{0008}'], true, false) == seq![0x7fu8],
{
    let c = named_key_char(key);
    assert forall|k: NamedKey| #[trigger] is_key_text(seq![c], k) <==> c == named_key_char(k) by {
        lemma_single_char_key_text(c, k);
    }
    assert forall|k: NamedKey| #[trigger] is_key_text(seq!['\u{0008}'], k) <==> '\u{0008}' == named_key_char(k) by {
        lemma_single_char_key_text('\u{0008}', k);
    }
    assert(named_key_of(seq![c]) == Some(key));
    assert(named_key_of(seq!['\u{0008}']) == Some(NamedKey::Backspace));
}

/// A one-character text is the text of a named key exactly when the
/// character is that key's.
proof fn lemma_single_char_key_text(c: char, key: NamedKey)
    ensures
        is_key_text(seq![c], key) <==> c == named_key_char(key),
{
    if is_key_text(seq![c], key) {
        assert(seq![c][0] == seq![named_key_char(key)][0]);
    }
}

} // verus!
