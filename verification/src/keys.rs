//! Key names: the modifier flags, the virtual-key codes, and the resolution
//! of one key word to its code and its label.

use crate::text::{char_is_alnum, char_upper, is_alnum, is_digit, upper};
use vstd::prelude::*;
use vstd::string::StringExecFns;

verus! {

/// Flag of the Alt modifier in a hotkey registration.
pub const MOD_ALT: u32 = 0x0001;

/// Flag of the Ctrl modifier.
pub const MOD_CONTROL: u32 = 0x0002;

/// Flag of the Shift modifier.
pub const MOD_SHIFT: u32 = 0x0004;

/// Flag of the Win modifier.
pub const MOD_WIN: u32 = 0x0008;

pub const VK_BACK: u32 = 0x08;

pub const VK_TAB: u32 = 0x09;

pub const VK_RETURN: u32 = 0x0D;

pub const VK_ESCAPE: u32 = 0x1B;

pub const VK_SPACE: u32 = 0x20;

pub const VK_PRIOR: u32 = 0x21;

pub const VK_NEXT: u32 = 0x22;

pub const VK_END: u32 = 0x23;

pub const VK_HOME: u32 = 0x24;

pub const VK_LEFT: u32 = 0x25;

pub const VK_UP: u32 = 0x26;

pub const VK_RIGHT: u32 = 0x27;

pub const VK_DOWN: u32 = 0x28;

pub const VK_INSERT: u32 = 0x2D;

pub const VK_DELETE: u32 = 0x2E;

/// Code of F1; the codes of F1 to F24 are consecutive.
pub const VK_F1: u32 = 0x70;

/// Code of F24.
pub const VK_F24: u32 = 0x87;

/// The number of the last function key.
pub const LAST_FUNCTION_KEY: u32 = 24;

/// A resolved key: its virtual-key code and its canonical label.
pub struct KeyModel {
    pub vk: u32,
    pub label: Seq<char>,
}

/// The number that a sequence of decimal digits writes.
pub open spec fn decimal_value(digits: Seq<char>) -> nat
    decreases digits.len(),
{
    if digits.len() == 0 {
        0
    } else {
        decimal_value(digits.drop_last()) * 10 + (digits.last() as u32 - '0' as u32) as nat
    }
}

/// Whether every character of `s` is a decimal digit.
pub open spec fn all_digits(s: Seq<char>) -> bool {
    forall|i: int| 0 <= i < s.len() ==> is_digit(#[trigger] s[i])
}

/// The character of the decimal digit `d`.
pub open spec fn digit_char(d: nat) -> char {
    ('0' as u32 + d) as u8 as char
}

/// How a function key's number is written: without leading zeros.
pub open spec fn number_text(n: nat) -> Seq<char> {
    if n < 10 {
        seq![digit_char(n)]
    } else {
        seq![digit_char(n / 10), digit_char(n % 10)]
    }
}

/// The number of the function key that `word` names: `f` and then decimal
/// digits (leading zeros allowed) of a number from 1 to 24.
pub open spec fn function_key_number(word: Seq<char>) -> Option<nat> {
    if word.len() >= 2 && word[0] == 'f' && all_digits(word.drop_first()) && 1 <= decimal_value(
        word.drop_first(),
    ) <= LAST_FUNCTION_KEY {
        Some(decimal_value(word.drop_first()))
    } else {
        None
    }
}

/// The key that a name of the alias table stands for.
pub open spec fn named_key(word: Seq<char>) -> Option<KeyModel> {
    if word == "space"@ {
        Some(KeyModel { vk: VK_SPACE, label: "Space"@ })
    } else if word == "tab"@ {
        Some(KeyModel { vk: VK_TAB, label: "Tab"@ })
    } else if word == "enter"@ || word == "return"@ {
        Some(KeyModel { vk: VK_RETURN, label: "Enter"@ })
    } else if word == "esc"@ || word == "escape"@ {
        Some(KeyModel { vk: VK_ESCAPE, label: "Escape"@ })
    } else if word == "backspace"@ || word == "bksp"@ {
        Some(KeyModel { vk: VK_BACK, label: "Backspace"@ })
    } else if word == "insert"@ || word == "ins"@ {
        Some(KeyModel { vk: VK_INSERT, label: "Insert"@ })
    } else if word == "delete"@ || word == "del"@ {
        Some(KeyModel { vk: VK_DELETE, label: "Delete"@ })
    } else if word == "home"@ {
        Some(KeyModel { vk: VK_HOME, label: "Home"@ })
    } else if word == "end"@ {
        Some(KeyModel { vk: VK_END, label: "End"@ })
    } else if word == "pageup"@ || word == "pgup"@ {
        Some(KeyModel { vk: VK_PRIOR, label: "PageUp"@ })
    } else if word == "pagedown"@ || word == "pgdn"@ {
        Some(KeyModel { vk: VK_NEXT, label: "PageDown"@ })
    } else if word == "up"@ || word == "arrowup"@ {
        Some(KeyModel { vk: VK_UP, label: "Up"@ })
    } else if word == "down"@ || word == "arrowdown"@ {
        Some(KeyModel { vk: VK_DOWN, label: "Down"@ })
    } else if word == "left"@ || word == "arrowleft"@ {
        Some(KeyModel { vk: VK_LEFT, label: "Left"@ })
    } else if word == "right"@ || word == "arrowright"@ {
        Some(KeyModel { vk: VK_RIGHT, label: "Right"@ })
    } else {
        None
    }
}

/// The key that the word `word` names, if any: a single ASCII letter or
/// digit first, then a function key, then the alias table.
pub open spec fn resolve_key(word: Seq<char>) -> Option<KeyModel> {
    if word.len() == 1 && is_alnum(word[0]) {
        Some(KeyModel { vk: upper(word[0]) as u32, label: seq![upper(word[0])] })
    } else if let Some(n) = function_key_number(word) {
        Some(KeyModel { vk: (VK_F1 + n - 1) as u32, label: seq!['F'] + number_text(n) })
    } else {
        named_key(word)
    }
}

/// Whether `word` and `name` hold the same characters.
pub fn word_is(word: &Vec<char>, name: &str) -> (r: bool)
    ensures
        r == (word@ == name@),
{
    let mut i: usize = 0;
    let mut same = true;
    for c in it: name.chars()
        invariant
            it.seq() == name@,
            same ==> i == it.index() && i <= word.len() && word@.take(i as int) == name@.take(
                i as int,
            ),
            !same ==> word@ != name@,
    {
        if same {
            if i < word.len() && word[i] == c {
                i += 1;
                assert(word@.take(i as int) == word@.take(i - 1).push(word@[i - 1]));
                assert(name@.take(i as int) == name@.take(i - 1).push(name@[i - 1]));
            } else {
                same = false;
                assert(word@ != name@) by {
                    if word@ == name@ {
                        assert(word@[i as int] == name@[i as int]);
                    }
                }
            }
        }
    }
    proof {
        if same {
            assert(name@.take(i as int) == name@);
            if i == word.len() {
                assert(word@.take(i as int) == word@);
            }
        }
    }
    same && i == word.len()
}

/// The number from 1 to 24 that follows the `f` of a function key's name.
pub fn parse_function_key(word: &Vec<char>) -> (r: Option<u32>)
    ensures
        match r {
            Some(n) => function_key_number(word@) == Some(n as nat),
            None => function_key_number(word@) is None,
        },
{
    if word.len() < 2 || word[0] != 'f' {
        return None;
    }
    let ghost rest = word@.drop_first();
    let mut value: u32 = 0;
    let mut i: usize = 1;
    while i < word.len()
        invariant
            1 <= i <= word.len(),
            rest == word@.drop_first(),
            all_digits(rest.take(i - 1)),
            value <= 25,
            value <= 24 ==> value == decimal_value(rest.take(i - 1)),
            value == 25 ==> decimal_value(rest.take(i - 1)) >= 25,
        decreases word.len() - i,
    {
        let c = word[i];
        assert(rest[i - 1] == c);
        assert(rest.take(i as int).drop_last() == rest.take(i - 1));
        if !('0' <= c && c <= '9') {
            assert(!all_digits(rest));
            return None;
        }
        let d: u32 = c as u32 - '0' as u32;
        value = if value > 24 {
            25
        } else if value * 10 + d > 24 {
            25
        } else {
            value * 10 + d
        };
        i += 1;
    }
    assert(rest.take(word.len() - 1) == rest);
    if 1 <= value && value <= 24 {
        Some(value)
    } else {
        None
    }
}

/// A resolved key, as the parser hands it out.
#[derive(Debug, Clone)]
pub struct Key {
    pub vk: u32,
    pub label: String,
}

impl View for Key {
    type V = KeyModel;

    open spec fn view(&self) -> KeyModel {
        KeyModel { vk: self.vk, label: self.label@ }
    }
}

/// The view of an optional key.
pub open spec fn key_view(k: Option<Key>) -> Option<KeyModel> {
    match k {
        Some(k) => Some(k@),
        None => None,
    }
}

fn key(vk: u32, label: &str) -> (r: Option<Key>)
    ensures
        key_view(r) == Some(KeyModel { vk, label: label@ }),
{
    Some(Key { vk, label: String::from_str(label) })
}

/// The key of the alias table that `word` names, if any.
pub fn resolve_named_key(word: &Vec<char>) -> (r: Option<Key>)
    ensures
        key_view(r) == named_key(word@),
{
    if word_is(word, "space") {
        key(VK_SPACE, "Space")
    } else if word_is(word, "tab") {
        key(VK_TAB, "Tab")
    } else if word_is(word, "enter") || word_is(word, "return") {
        key(VK_RETURN, "Enter")
    } else if word_is(word, "esc") || word_is(word, "escape") {
        key(VK_ESCAPE, "Escape")
    } else if word_is(word, "backspace") || word_is(word, "bksp") {
        key(VK_BACK, "Backspace")
    } else if word_is(word, "insert") || word_is(word, "ins") {
        key(VK_INSERT, "Insert")
    } else if word_is(word, "delete") || word_is(word, "del") {
        key(VK_DELETE, "Delete")
    } else if word_is(word, "home") {
        key(VK_HOME, "Home")
    } else if word_is(word, "end") {
        key(VK_END, "End")
    } else if word_is(word, "pageup") || word_is(word, "pgup") {
        key(VK_PRIOR, "PageUp")
    } else if word_is(word, "pagedown") || word_is(word, "pgdn") {
        key(VK_NEXT, "PageDown")
    } else if word_is(word, "up") || word_is(word, "arrowup") {
        key(VK_UP, "Up")
    } else if word_is(word, "down") || word_is(word, "arrowdown") {
        key(VK_DOWN, "Down")
    } else if word_is(word, "left") || word_is(word, "arrowleft") {
        key(VK_LEFT, "Left")
    } else if word_is(word, "right") || word_is(word, "arrowright") {
        key(VK_RIGHT, "Right")
    } else {
        None
    }
}

/// The label of the function key `n`: `F` and the number.
pub fn function_key_label(n: u32) -> (r: String)
    requires
        1 <= n <= LAST_FUNCTION_KEY,
    ensures
        r@ == seq!['F'] + number_text(n as nat),
{
    let mut label = String::new();
    label.push('F');
    if n >= 10 {
        let tens: u8 = (48 + n / 10) as u8;
        label.push(tens as char);
    }
    let units: u8 = (48 + n % 10) as u8;
    label.push(units as char);
    assert(label@ =~= seq!['F'] + number_text(n as nat));
    label
}

/// The key that `word` names, if any.
pub fn resolve(word: &Vec<char>) -> (r: Option<Key>)
    ensures
        key_view(r) == resolve_key(word@),
{
    if word.len() == 1 && char_is_alnum(word[0]) {
        let up = char_upper(word[0]);
        let mut label = String::new();
        label.push(up);
        assert(label@ =~= seq![up]);
        return Some(Key { vk: up as u32, label });
    }
    match parse_function_key(word) {
        Some(n) => Some(Key { vk: VK_F1 + n - 1, label: function_key_label(n) }),
        None => resolve_named_key(word),
    }
}

} // verus!
