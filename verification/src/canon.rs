//! What holds of canonical text: it parses back to the hotkey that it was
//! written for.

use crate::hotkey::{
    canonical, default_hotkey, hotkey_of, is_separator, loaded, modifier_bits, modifier_of,
    normalize, stored_text, InvalidStoredModel, parsed, parsed_words, see, seen_in, split, words, HotkeyModel, HotkeyRegistration, Modifier,
    ParseFailure, Seen,
};
use crate::keys::{
    VK_BACK, VK_DELETE, VK_DOWN, VK_END, VK_ESCAPE, VK_HOME, VK_INSERT, VK_LEFT, VK_NEXT, VK_PRIOR,
    VK_RETURN, VK_RIGHT, VK_SPACE, VK_TAB, VK_UP,
    all_digits, decimal_value, digit_char, function_key_number, named_key, number_text,
    resolve_key, KeyModel,
};
use crate::text::{is_alnum, is_blank, lower, lower_all, trim, trim_end, trim_start, upper};
use vstd::prelude::*;

verus! {

/// Whether no character of `t` is a separator.
pub open spec fn unbroken(t: Seq<char>) -> bool {
    forall|i: int| 0 <= i < t.len() ==> !is_separator(#[trigger] t[i])
}

/// Whether `t` is not empty and neither starts nor ends with a blank.
pub open spec fn tight(t: Seq<char>) -> bool {
    t.len() > 0 && !is_blank(t[0]) && !is_blank(t.last())
}

/// Whether `a` is empty or ends with a separator, and the words before that
/// separator are `ws`.
pub open spec fn opens_with(a: Seq<char>, ws: Seq<Seq<char>>) -> bool {
    split(a).last().len() == 0 && words(split(a).drop_last()) == ws
}

/// Characters that are no separators lengthen the last piece.
pub proof fn lemma_split_append(a: Seq<char>, t: Seq<char>)
    requires
        unbroken(t),
    ensures
        split(a + t) == split(a).drop_last().push(split(a).last() + t),
    decreases t.len(),
{
    if t.len() == 0 {
        assert(a + t == a);
        assert(split(a).last() + t == split(a).last());
        lemma_split_nonempty(a);
        assert(split(a).drop_last().push(split(a).last()) == split(a));
    } else {
        let t0 = t.drop_last();
        lemma_split_append(a, t0);
        assert((a + t).drop_last() == a + t0);
        assert((a + t).last() == t.last());
        lemma_split_nonempty(a);
        let before = split(a + t0);
        assert(before.drop_last() == split(a).drop_last());
        assert(before.last() == split(a).last() + t0);
        assert((split(a).last() + t0).push(t.last()) == split(a).last() + t);
    }
}

/// A split has at least one piece.
pub proof fn lemma_split_nonempty(a: Seq<char>)
    ensures
        split(a).len() >= 1,
    decreases a.len(),
{
    if a.len() > 0 {
        lemma_split_nonempty(a.drop_last());
    }
}

/// A tight piece is its own trimming.
pub proof fn lemma_trim_tight(t: Seq<char>)
    requires
        tight(t),
    ensures
        trim(t) == t,
        normalize(t) == lower_all(t),
        normalize(t).len() > 0,
{
}

/// After an opening `a`, one more tight, unbroken piece `t` adds the word
/// `lower_all(t)`, whether a `+` follows it or the text ends there.
pub proof fn lemma_extend(a: Seq<char>, ws: Seq<Seq<char>>, t: Seq<char>)
    requires
        opens_with(a, ws),
        unbroken(t),
        tight(t),
    ensures
        opens_with(a + t.push('+'), ws.push(lower_all(t))),
        words(split(a + t)) == ws.push(lower_all(t)),
{
    lemma_split_nonempty(a);
    lemma_split_append(a, t);
    lemma_trim_tight(t);
    let pieces = split(a).drop_last();
    assert(split(a).last() == Seq::<char>::empty());
    assert(Seq::<char>::empty() + t == t);
    assert(split(a + t) == pieces.push(t));
    assert(pieces.push(t).drop_last() == pieces);
    assert((a + t.push('+')).drop_last() == a + t);
    assert(split(a + t.push('+')) == pieces.push(t).push(Seq::empty()));
    assert(pieces.push(t).push(Seq::<char>::empty()).drop_last() == pieces.push(t));
}

/// What has been seen after one more word.
pub proof fn lemma_seen_push(ws: Seq<Seq<char>>, w: Seq<char>)
    ensures
        seen_in(ws.push(w)) == see(seen_in(ws), w),
{
    assert(ws.push(w).drop_last() == ws);
}

/// How the names of the modifiers and of the alias table are spelled,
/// character by character.
pub proof fn lemma_names_spelled()
    ensures
        "ctrl"@ == seq!['c', 't', 'r', 'l'],
        "control"@ == seq!['c', 'o', 'n', 't', 'r', 'o', 'l'],
        "shift"@ == seq!['s', 'h', 'i', 'f', 't'],
        "alt"@ == seq!['a', 'l', 't'],
        "win"@ == seq!['w', 'i', 'n'],
        "windows"@ == seq!['w', 'i', 'n', 'd', 'o', 'w', 's'],
        "meta"@ == seq!['m', 'e', 't', 'a'],
        "space"@ == seq!['s', 'p', 'a', 'c', 'e'],
        "tab"@ == seq!['t', 'a', 'b'],
        "enter"@ == seq!['e', 'n', 't', 'e', 'r'],
        "return"@ == seq!['r', 'e', 't', 'u', 'r', 'n'],
        "esc"@ == seq!['e', 's', 'c'],
        "escape"@ == seq!['e', 's', 'c', 'a', 'p', 'e'],
        "backspace"@ == seq!['b', 'a', 'c', 'k', 's', 'p', 'a', 'c', 'e'],
        "bksp"@ == seq!['b', 'k', 's', 'p'],
        "insert"@ == seq!['i', 'n', 's', 'e', 'r', 't'],
        "ins"@ == seq!['i', 'n', 's'],
        "delete"@ == seq!['d', 'e', 'l', 'e', 't', 'e'],
        "del"@ == seq!['d', 'e', 'l'],
        "home"@ == seq!['h', 'o', 'm', 'e'],
        "end"@ == seq!['e', 'n', 'd'],
        "pageup"@ == seq!['p', 'a', 'g', 'e', 'u', 'p'],
        "pgup"@ == seq!['p', 'g', 'u', 'p'],
        "pagedown"@ == seq!['p', 'a', 'g', 'e', 'd', 'o', 'w', 'n'],
        "pgdn"@ == seq!['p', 'g', 'd', 'n'],
        "up"@ == seq!['u', 'p'],
        "arrowup"@ == seq!['a', 'r', 'r', 'o', 'w', 'u', 'p'],
        "down"@ == seq!['d', 'o', 'w', 'n'],
        "arrowdown"@ == seq!['a', 'r', 'r', 'o', 'w', 'd', 'o', 'w', 'n'],
        "left"@ == seq!['l', 'e', 'f', 't'],
        "arrowleft"@ == seq!['a', 'r', 'r', 'o', 'w', 'l', 'e', 'f', 't'],
        "right"@ == seq!['r', 'i', 'g', 'h', 't'],
        "arrowright"@ == seq!['a', 'r', 'r', 'o', 'w', 'r', 'i', 'g', 'h', 't'],
{
    reveal_strlit("ctrl");
    reveal_strlit("control");
    reveal_strlit("shift");
    reveal_strlit("alt");
    reveal_strlit("win");
    reveal_strlit("windows");
    reveal_strlit("meta");
    reveal_strlit("space");
    reveal_strlit("tab");
    reveal_strlit("enter");
    reveal_strlit("return");
    reveal_strlit("esc");
    reveal_strlit("escape");
    reveal_strlit("backspace");
    reveal_strlit("bksp");
    reveal_strlit("insert");
    reveal_strlit("ins");
    reveal_strlit("delete");
    reveal_strlit("del");
    reveal_strlit("home");
    reveal_strlit("end");
    reveal_strlit("pageup");
    reveal_strlit("pgup");
    reveal_strlit("pagedown");
    reveal_strlit("pgdn");
    reveal_strlit("up");
    reveal_strlit("arrowup");
    reveal_strlit("down");
    reveal_strlit("arrowdown");
    reveal_strlit("left");
    reveal_strlit("arrowleft");
    reveal_strlit("right");
    reveal_strlit("arrowright");
    assert("ctrl"@ =~= seq!['c', 't', 'r', 'l']);
    assert("control"@ =~= seq!['c', 'o', 'n', 't', 'r', 'o', 'l']);
    assert("shift"@ =~= seq!['s', 'h', 'i', 'f', 't']);
    assert("alt"@ =~= seq!['a', 'l', 't']);
    assert("win"@ =~= seq!['w', 'i', 'n']);
    assert("windows"@ =~= seq!['w', 'i', 'n', 'd', 'o', 'w', 's']);
    assert("meta"@ =~= seq!['m', 'e', 't', 'a']);
    assert("space"@ =~= seq!['s', 'p', 'a', 'c', 'e']);
    assert("tab"@ =~= seq!['t', 'a', 'b']);
    assert("enter"@ =~= seq!['e', 'n', 't', 'e', 'r']);
    assert("return"@ =~= seq!['r', 'e', 't', 'u', 'r', 'n']);
    assert("esc"@ =~= seq!['e', 's', 'c']);
    assert("escape"@ =~= seq!['e', 's', 'c', 'a', 'p', 'e']);
    assert("backspace"@ =~= seq!['b', 'a', 'c', 'k', 's', 'p', 'a', 'c', 'e']);
    assert("bksp"@ =~= seq!['b', 'k', 's', 'p']);
    assert("insert"@ =~= seq!['i', 'n', 's', 'e', 'r', 't']);
    assert("ins"@ =~= seq!['i', 'n', 's']);
    assert("delete"@ =~= seq!['d', 'e', 'l', 'e', 't', 'e']);
    assert("del"@ =~= seq!['d', 'e', 'l']);
    assert("home"@ =~= seq!['h', 'o', 'm', 'e']);
    assert("end"@ =~= seq!['e', 'n', 'd']);
    assert("pageup"@ =~= seq!['p', 'a', 'g', 'e', 'u', 'p']);
    assert("pgup"@ =~= seq!['p', 'g', 'u', 'p']);
    assert("pagedown"@ =~= seq!['p', 'a', 'g', 'e', 'd', 'o', 'w', 'n']);
    assert("pgdn"@ =~= seq!['p', 'g', 'd', 'n']);
    assert("up"@ =~= seq!['u', 'p']);
    assert("arrowup"@ =~= seq!['a', 'r', 'r', 'o', 'w', 'u', 'p']);
    assert("down"@ =~= seq!['d', 'o', 'w', 'n']);
    assert("arrowdown"@ =~= seq!['a', 'r', 'r', 'o', 'w', 'd', 'o', 'w', 'n']);
    assert("left"@ =~= seq!['l', 'e', 'f', 't']);
    assert("arrowleft"@ =~= seq!['a', 'r', 'r', 'o', 'w', 'l', 'e', 'f', 't']);
    assert("right"@ =~= seq!['r', 'i', 'g', 'h', 't']);
    assert("arrowright"@ =~= seq!['a', 'r', 'r', 'o', 'w', 'r', 'i', 'g', 'h', 't']);
}

/// The four modifier labels and the words they are read as.
pub proof fn lemma_modifier_labels()
    ensures
        "Ctrl+"@ == "Ctrl"@.push('+'),
        "Shift+"@ == "Shift"@.push('+'),
        "Alt+"@ == "Alt"@.push('+'),
        "Win+"@ == "Win"@.push('+'),
        unbroken("Ctrl"@) && tight("Ctrl"@) && modifier_of(lower_all("Ctrl"@)) == Some(
            Modifier::Ctrl,
        ),
        unbroken("Shift"@) && tight("Shift"@) && modifier_of(lower_all("Shift"@)) == Some(
            Modifier::Shift,
        ),
        unbroken("Alt"@) && tight("Alt"@) && modifier_of(lower_all("Alt"@)) == Some(Modifier::Alt),
        unbroken("Win"@) && tight("Win"@) && modifier_of(lower_all("Win"@)) == Some(Modifier::Win),
{
    lemma_names_spelled();
    reveal_strlit("Ctrl+");
    reveal_strlit("Shift+");
    reveal_strlit("Alt+");
    reveal_strlit("Win+");
    reveal_strlit("Ctrl");
    reveal_strlit("Shift");
    reveal_strlit("Alt");
    reveal_strlit("Win");
    assert("Ctrl+"@ =~= "Ctrl"@.push('+'));
    assert("Shift+"@ =~= "Shift"@.push('+'));
    assert("Alt+"@ =~= "Alt"@.push('+'));
    assert("Win+"@ =~= "Win"@.push('+'));
    assert(lower_all("Ctrl"@) =~= "ctrl"@);
    assert(lower_all("Shift"@) =~= "shift"@);
    assert(lower_all("Alt"@) =~= "alt"@);
    assert(lower_all("Win"@) =~= "win"@);
    assert("win"@[0] != "alt"@[0]);
}

/// Canonical text parses to the hotkey of its modifiers and its key,
/// for a label that is read as a key word which resolves to that key.
pub proof fn lemma_canonical_parses(ctrl: bool, shift: bool, alt: bool, win: bool, key: KeyModel)
    requires
        unbroken(key.label),
        tight(key.label),
        modifier_of(lower_all(key.label)) is None,
        resolve_key(lower_all(key.label)) == Some(key),
    ensures
        parsed(canonical(ctrl, shift, alt, win, key.label)) == Ok::<HotkeyModel, ParseFailure>(
            hotkey_of(Seen { ctrl, shift, alt, win, keys: seq![lower_all(key.label)] }, key),
        ),
{
    lemma_modifier_labels();
    let none = Seq::<char>::empty();
    let a0 = none;
    let w0 = Seq::<Seq<char>>::empty();
    assert(opens_with(a0, w0)) by {
        assert(split(a0) == seq![none]);
        assert(seq![none].drop_last() == w0);
    }
    let a1 = if ctrl { a0 + "Ctrl+"@ } else { a0 };
    let w1 = if ctrl { w0.push(lower_all("Ctrl"@)) } else { w0 };
    if ctrl {
        lemma_extend(a0, w0, "Ctrl"@);
        lemma_seen_push(w0, lower_all("Ctrl"@));
    }
    let a2 = if shift { a1 + "Shift+"@ } else { a1 };
    let w2 = if shift { w1.push(lower_all("Shift"@)) } else { w1 };
    if shift {
        lemma_extend(a1, w1, "Shift"@);
        lemma_seen_push(w1, lower_all("Shift"@));
    }
    let a3 = if alt { a2 + "Alt+"@ } else { a2 };
    let w3 = if alt { w2.push(lower_all("Alt"@)) } else { w2 };
    if alt {
        lemma_extend(a2, w2, "Alt"@);
        lemma_seen_push(w2, lower_all("Alt"@));
    }
    let a4 = if win { a3 + "Win+"@ } else { a3 };
    let w4 = if win { w3.push(lower_all("Win"@)) } else { w3 };
    if win {
        lemma_extend(a3, w3, "Win"@);
        lemma_seen_push(w3, lower_all("Win"@));
    }
    assert(seen_in(w1) == Seen { ctrl, shift: false, alt: false, win: false, keys: Seq::empty() });
    assert(seen_in(w2) == Seen { ctrl, shift, alt: false, win: false, keys: Seq::empty() });
    assert(seen_in(w3) == Seen { ctrl, shift, alt, win: false, keys: Seq::empty() });
    assert(seen_in(w4) == Seen { ctrl, shift, alt, win, keys: Seq::empty() });
    let word = lower_all(key.label);
    lemma_extend(a4, w4, key.label);
    lemma_seen_push(w4, word);
    assert(a4 + key.label =~= canonical(ctrl, shift, alt, win, key.label));
    let ws = w4.push(word);
    assert(seen_in(ws).keys =~= seq![word]);
    assert(seen_in(ws) == Seen { ctrl, shift, alt, win, keys: seq![word] });
}

/// The default expression is a hotkey: Ctrl and Shift with the key B.
pub proof fn lemma_default_parses()
    ensures
        parsed("Ctrl+Shift+B"@) == Ok::<HotkeyModel, ParseFailure>(default_hotkey()),
{
    lemma_names_spelled();
    reveal_strlit("Ctrl+Shift+B");
    reveal_strlit("Ctrl+");
    reveal_strlit("Shift+");
    let key = KeyModel { vk: 0x42, label: seq!['B'] };
    assert(lower_all(key.label) =~= seq!['b']);
    assert(upper('b') == 'B');
    lemma_canonical_parses(true, true, false, false, key);
    assert("Ctrl+Shift+B"@ =~= canonical(true, true, false, false, key.label));
    assert(modifier_bits(true, true, false, false) == 6) by (bit_vector);
}


/// Whether the label of `key` is read back as `key`: as one unbroken, tight
/// piece whose word is no modifier and resolves to `key`.
pub open spec fn reads_back(key: KeyModel) -> bool {
    &&& unbroken(key.label)
    &&& tight(key.label)
    &&& modifier_of(lower_all(key.label)) is None
    &&& resolve_key(lower_all(key.label)) == Some(key)
}

/// Every label of the alias table is read back as the key that it labels.
pub proof fn lemma_named_reads_back(word: Seq<char>)
    requires
        named_key(word) is Some,
    ensures
        reads_back(named_key(word)->0),
{
    lemma_names_spelled();
    reveal_strlit("Space");
    reveal_strlit("Tab");
    reveal_strlit("Enter");
    reveal_strlit("Escape");
    reveal_strlit("Backspace");
    reveal_strlit("Insert");
    reveal_strlit("Delete");
    reveal_strlit("Home");
    reveal_strlit("End");
    reveal_strlit("PageUp");
    reveal_strlit("PageDown");
    reveal_strlit("Up");
    reveal_strlit("Down");
    reveal_strlit("Left");
    reveal_strlit("Right");
    assert(lower_all("Space"@) =~= "space"@);
    assert(lower_all("Tab"@) =~= "tab"@);
    assert(lower_all("Enter"@) =~= "enter"@);
    assert(lower_all("Escape"@) =~= "escape"@);
    assert(lower_all("Backspace"@) =~= "backspace"@);
    assert(lower_all("Insert"@) =~= "insert"@);
    assert(lower_all("Delete"@) =~= "delete"@);
    assert(lower_all("Home"@) =~= "home"@);
    assert(lower_all("End"@) =~= "end"@);
    assert(lower_all("PageUp"@) =~= "pageup"@);
    assert(lower_all("PageDown"@) =~= "pagedown"@);
    assert(lower_all("Up"@) =~= "up"@);
    assert(lower_all("Down"@) =~= "down"@);
    assert(lower_all("Left"@) =~= "left"@);
    assert(lower_all("Right"@) =~= "right"@);
    // Names of one length that start alike differ further on.
    assert("space"@[1] != "shift"@[1]);
    assert("end"@[1] != "esc"@[1]);
    assert(reads_back(KeyModel { vk: VK_SPACE, label: "Space"@ }));
    assert(reads_back(KeyModel { vk: VK_TAB, label: "Tab"@ }));
    assert(reads_back(KeyModel { vk: VK_RETURN, label: "Enter"@ }));
    assert(reads_back(KeyModel { vk: VK_ESCAPE, label: "Escape"@ }));
    assert(reads_back(KeyModel { vk: VK_BACK, label: "Backspace"@ }));
    assert(reads_back(KeyModel { vk: VK_INSERT, label: "Insert"@ }));
    assert(reads_back(KeyModel { vk: VK_DELETE, label: "Delete"@ }));
    assert(reads_back(KeyModel { vk: VK_HOME, label: "Home"@ }));
    assert(reads_back(KeyModel { vk: VK_END, label: "End"@ }));
    assert(reads_back(KeyModel { vk: VK_PRIOR, label: "PageUp"@ }));
    assert(reads_back(KeyModel { vk: VK_NEXT, label: "PageDown"@ }));
    assert(reads_back(KeyModel { vk: VK_UP, label: "Up"@ }));
    assert(reads_back(KeyModel { vk: VK_DOWN, label: "Down"@ }));
    assert(reads_back(KeyModel { vk: VK_LEFT, label: "Left"@ }));
    assert(reads_back(KeyModel { vk: VK_RIGHT, label: "Right"@ }));
}

/// A name that starts with `f` is in no alias table, and a word of one or
/// two characters after an `f` is no modifier.
proof fn lemma_f_words(word: Seq<char>)
    requires
        word.len() >= 1,
        word[0] == 'f',
    ensures
        named_key(word) is None,
        modifier_of(word) is None,
{
    lemma_names_spelled();
}

/// A word of one character is no modifier.
proof fn lemma_short_words(word: Seq<char>)
    requires
        word.len() == 1,
    ensures
        modifier_of(word) is None,
{
    lemma_names_spelled();
}

/// The number that `number_text` writes is the number that is read.
pub proof fn lemma_number_text(n: nat)
    requires
        n <= 99,
    ensures
        all_digits(number_text(n)),
        decimal_value(number_text(n)) == n,
        n < 10 ==> number_text(n).len() == 1,
        n >= 10 ==> number_text(n).len() == 2,
{
    reveal_with_fuel(decimal_value, 4);
    if n < 10 {
        assert(number_text(n).drop_last() =~= Seq::<char>::empty());
    } else {
        assert(number_text(n).drop_last() =~= seq![digit_char(n / 10)]);
        assert(seq![digit_char(n / 10)].drop_last() =~= Seq::<char>::empty());
    }
}

/// The name of each function key, `f` and its number from 1 to 24, resolves
/// to that key, with the label `F` and the number.
pub proof fn lemma_function_keys(n: nat)
    requires
        1 <= n <= 24,
    ensures
        resolve_key(seq!['f'] + number_text(n)) == Some(
            KeyModel { vk: (0x70 + n - 1) as u32, label: seq!['F'] + number_text(n) },
        ),
        reads_back(KeyModel { vk: (0x70 + n - 1) as u32, label: seq!['F'] + number_text(n) }),
{
    lemma_number_text(n);
    let word = seq!['f'] + number_text(n);
    let label = seq!['F'] + number_text(n);
    assert(word.drop_first() =~= number_text(n));
    assert(lower_all(label) =~= word);
    lemma_f_words(word);
}

/// An `f` followed by digits that write a number outside 1 to 24 names no
/// key.
pub proof fn lemma_function_key_bounds(digits: Seq<char>)
    requires
        digits.len() >= 1,
        all_digits(digits),
        decimal_value(digits) == 0 || decimal_value(digits) > 24,
    ensures
        resolve_key(seq!['f'] + digits) is None,
{
    let word = seq!['f'] + digits;
    assert(word.drop_first() =~= digits);
    lemma_f_words(word);
}

/// `f0` and `f25` name no key.
pub proof fn lemma_no_f0_f25()
    ensures
        resolve_key(seq!['f', '0']) is None,
        resolve_key(seq!['f', '2', '5']) is None,
{
    reveal_with_fuel(decimal_value, 4);
    let zero = seq!['0'];
    let high = seq!['2', '5'];
    assert(zero.drop_last() =~= Seq::<char>::empty());
    assert(high.drop_last() =~= seq!['2']);
    assert(seq!['2'].drop_last() =~= Seq::<char>::empty());
    lemma_function_key_bounds(zero);
    lemma_function_key_bounds(high);
    assert(seq!['f'] + zero =~= seq!['f', '0']);
    assert(seq!['f'] + high =~= seq!['f', '2', '5']);
}

/// A single ASCII letter or digit resolves to its upper-case form.
pub proof fn lemma_single_character_key(c: char)
    requires
        is_alnum(c),
    ensures
        resolve_key(seq![c]) == Some(KeyModel { vk: upper(c) as u32, label: seq![upper(c)] }),
        reads_back(KeyModel { vk: upper(c) as u32, label: seq![upper(c)] }),
{
    let label = seq![upper(c)];
    assert(lower_all(label) =~= seq![lower(upper(c))]);
    lemma_short_words(lower_all(label));
}

/// The label of every key is read back as that key.
pub proof fn lemma_key_reads_back(word: Seq<char>)
    requires
        resolve_key(word) is Some,
    ensures
        reads_back(resolve_key(word)->0),
{
    if word.len() == 1 && is_alnum(word[0]) {
        lemma_single_character_key(word[0]);
    } else if let Some(n) = function_key_number(word) {
        lemma_function_keys(n);
    } else {
        lemma_named_reads_back(word);
    }
}

/// Round trip: the canonical text of a hotkey parses to that same hotkey,
/// with the same registration and the same text. So writing a parsed
/// expression and parsing it again changes nothing.
pub proof fn lemma_round_trip(s: Seq<char>)
    requires
        parsed(s) is Ok,
    ensures
        parsed(parsed(s)->Ok_0.expression) == parsed(s),
{
    let seen = seen_in(words(split(s)));
    let key = resolve_key(seen.keys[0])->0;
    lemma_key_reads_back(seen.keys[0]);
    lemma_canonical_parses(seen.ctrl, seen.shift, seen.alt, seen.win, key);
}

/// An expression of one word that is no modifier is the hotkey of the key
/// that the word names, with no modifier; where it names none, the
/// expression is refused with the word, in lower case.
pub proof fn lemma_single_word(w: Seq<char>)
    requires
        unbroken(w),
        tight(w),
        modifier_of(lower_all(w)) is None,
    ensures
        parsed(w) == match resolve_key(lower_all(w)) {
            Some(key) => Ok::<HotkeyModel, ParseFailure>(
                HotkeyModel {
                    expression: key.label,
                    registration: HotkeyRegistration { modifiers: 0, vk: key.vk },
                },
            ),
            None => Err::<HotkeyModel, ParseFailure>(ParseFailure::UnsupportedKey(lower_all(w))),
        },
{
    let none = Seq::<char>::empty();
    let w0 = Seq::<Seq<char>>::empty();
    assert(opens_with(none, w0)) by {
        assert(split(none) == seq![none]);
        assert(seq![none].drop_last() == w0);
    }
    lemma_extend(none, w0, w);
    lemma_seen_push(w0, lower_all(w));
    assert(none + w =~= w);
    assert(seen_in(w0.push(lower_all(w))).keys =~= seq![lower_all(w)]);
    assert(modifier_bits(false, false, false, false) == 0) by (bit_vector);
    if let Some(key) = resolve_key(lower_all(w)) {
        assert(canonical(false, false, false, false, key.label) =~= key.label);
    }
}

/// Any ASCII letter or digit alone is a hotkey: its upper-case form, with
/// no modifier.
pub proof fn lemma_single_character(c: char)
    requires
        is_alnum(c),
    ensures
        parsed(seq![c]) == Ok::<HotkeyModel, ParseFailure>(
            HotkeyModel {
                expression: seq![upper(c)],
                registration: HotkeyRegistration { modifiers: 0, vk: upper(c) as u32 },
            },
        ),
{
    let w = seq![c];
    assert(lower_all(w) =~= seq![lower(c)]);
    lemma_short_words(lower_all(w));
    lemma_single_character_key(lower(c));
    lemma_single_word(w);
}

/// Each function key's name alone, `f` or `F` and the number from 1 to 24,
/// is a hotkey with the label `F` and the number.
pub proof fn lemma_function_key_parses(n: nat, capital: bool)
    requires
        1 <= n <= 24,
    ensures
        parsed(seq![if capital { 'F' } else { 'f' }] + number_text(n)) == Ok::<
            HotkeyModel,
            ParseFailure,
        >(
            HotkeyModel {
                expression: seq!['F'] + number_text(n),
                registration: HotkeyRegistration { modifiers: 0, vk: (0x70 + n - 1) as u32 },
            },
        ),
{
    lemma_number_text(n);
    let w = seq![if capital { 'F' } else { 'f' }] + number_text(n);
    assert(lower_all(w) =~= seq!['f'] + number_text(n));
    lemma_f_words(lower_all(w));
    lemma_function_keys(n);
    lemma_single_word(w);
}

/// `f0` and `f25` alone are refused as unsupported keys.
pub proof fn lemma_f0_f25_refused()
    ensures
        parsed(seq!['f', '0']) == Err::<HotkeyModel, ParseFailure>(
            ParseFailure::UnsupportedKey(seq!['f', '0']),
        ),
        parsed(seq!['f', '2', '5']) == Err::<HotkeyModel, ParseFailure>(
            ParseFailure::UnsupportedKey(seq!['f', '2', '5']),
        ),
{
    let low = seq!['f', '0'];
    let high = seq!['f', '2', '5'];
    lemma_no_f0_f25();
    assert(lower_all(low) =~= low);
    assert(lower_all(high) =~= high);
    lemma_f_words(low);
    lemma_f_words(high);
    lemma_single_word(low);
    lemma_single_word(high);
}

/// A modifier named twice counts once.
pub proof fn lemma_repeated_modifier(seen: Seen, word: Seq<char>)
    requires
        modifier_of(word) is Some,
    ensures
        see(see(seen, word), word) == see(seen, word),
{
}

/// Two modifiers are seen alike in either order.
pub proof fn lemma_modifier_order(seen: Seen, first: Seq<char>, second: Seq<char>)
    requires
        modifier_of(first) is Some,
        modifier_of(second) is Some,
    ensures
        see(see(seen, first), second) == see(see(seen, second), first),
{
}

/// A modifier and a key word are seen alike in either order.
pub proof fn lemma_key_order(seen: Seen, modifier: Seq<char>, key: Seq<char>)
    requires
        modifier_of(modifier) is Some,
        modifier_of(key) is None,
    ensures
        see(see(seen, modifier), key) == see(see(seen, key), modifier),
{
}

/// Whether some word of `ws` names the modifier `m`.
pub open spec fn names(ws: Seq<Seq<char>>, m: Modifier) -> bool {
    exists|i: int| 0 <= i < ws.len() && modifier_of(#[trigger] ws[i]) == Some(m)
}

/// The words of `ws` that name no modifier, in order.
pub open spec fn key_words(ws: Seq<Seq<char>>) -> Seq<Seq<char>>
    decreases ws.len(),
{
    if ws.len() == 0 {
        Seq::empty()
    } else if modifier_of(ws.last()) is None {
        key_words(ws.drop_last()).push(ws.last())
    } else {
        key_words(ws.drop_last())
    }
}

/// Order and repetition of modifiers do not matter: a modifier has been
/// seen exactly if some word names it, wherever that word stands and
/// however often; and the key words seen are the words that name no
/// modifier, in their order.
pub proof fn lemma_seen_is_order_free(ws: Seq<Seq<char>>)
    ensures
        seen_in(ws).ctrl == names(ws, Modifier::Ctrl),
        seen_in(ws).shift == names(ws, Modifier::Shift),
        seen_in(ws).alt == names(ws, Modifier::Alt),
        seen_in(ws).win == names(ws, Modifier::Win),
        seen_in(ws).keys == key_words(ws),
    decreases ws.len(),
{
    if ws.len() > 0 {
        let before = ws.drop_last();
        lemma_seen_is_order_free(before);
        lemma_names_push(before, ws.last(), Modifier::Ctrl);
        lemma_names_push(before, ws.last(), Modifier::Shift);
        lemma_names_push(before, ws.last(), Modifier::Alt);
        lemma_names_push(before, ws.last(), Modifier::Win);
        assert(before.push(ws.last()) == ws);
    }
}

/// Two expressions amount to the same, hotkey or error, if both have a
/// word or neither has, they name the same modifiers, and their words that
/// name no modifier are the same in the same order. So neither the order
/// of the words nor a modifier named again changes what is parsed.
pub proof fn lemma_same_words_same_outcome(a: Seq<Seq<char>>, b: Seq<Seq<char>>)
    requires
        (a.len() == 0) == (b.len() == 0),
        names(a, Modifier::Ctrl) == names(b, Modifier::Ctrl),
        names(a, Modifier::Shift) == names(b, Modifier::Shift),
        names(a, Modifier::Alt) == names(b, Modifier::Alt),
        names(a, Modifier::Win) == names(b, Modifier::Win),
        key_words(a) == key_words(b),
    ensures
        parsed_words(a) == parsed_words(b),
{
    lemma_seen_is_order_free(a);
    lemma_seen_is_order_free(b);
}

proof fn lemma_names_push(ws: Seq<Seq<char>>, w: Seq<char>, m: Modifier)
    ensures
        names(ws.push(w), m) == (names(ws, m) || modifier_of(w) == Some(m)),
{
    let all = ws.push(w);
    if names(ws, m) {
        let i = choose|i: int| 0 <= i < ws.len() && modifier_of(#[trigger] ws[i]) == Some(m);
        assert(all[i] == ws[i]);
    }
    if modifier_of(w) == Some(m) {
        assert(all[ws.len() as int] == w);
    }
    if names(all, m) {
        let i = choose|i: int| 0 <= i < all.len() && modifier_of(#[trigger] all[i]) == Some(m);
        if i < ws.len() {
            assert(ws[i] == all[i]);
        }
    }
}

/// Canonical text is tight where the key's label is.
pub proof fn lemma_canonical_tight(ctrl: bool, shift: bool, alt: bool, win: bool, label: Seq<char>)
    requires
        tight(label),
    ensures
        tight(canonical(ctrl, shift, alt, win, label)),
{
    reveal_strlit("Ctrl+");
    reveal_strlit("Shift+");
    reveal_strlit("Alt+");
    reveal_strlit("Win+");
    let text = canonical(ctrl, shift, alt, win, label);
    assert(text.last() == label.last());
    assert(text[0] == (if ctrl {
        'C'
    } else if shift {
        'S'
    } else if alt {
        'A'
    } else if win {
        'W'
    } else {
        label[0]
    }));
}

/// A tight text followed by a newline trims back to the text.
pub proof fn lemma_trim_line(text: Seq<char>)
    requires
        tight(text),
    ensures
        trim(text.push('\n')) == text,
{
    let raw = text.push('\n');
    assert(raw[0] == text[0]);
    assert(trim_start(raw) == raw);
    assert(raw.drop_last() == text);
    assert(trim_end(text) == text);
}

/// What is stored for a hotkey loads as that hotkey: the canonical text
/// with its newline is trimmed and parsed back to the same registration
/// and the same text.
pub proof fn lemma_stored_loads(s: Seq<char>)
    requires
        parsed(s) is Ok,
    ensures
        loaded(Some(stored_text(parsed(s)->Ok_0))) == Ok::<HotkeyModel, InvalidStoredModel>(
            parsed(s)->Ok_0,
        ),
{
    let seen = seen_in(words(split(s)));
    let key = resolve_key(seen.keys[0])->0;
    lemma_key_reads_back(seen.keys[0]);
    lemma_round_trip(s);
    lemma_canonical_tight(seen.ctrl, seen.shift, seen.alt, seen.win, key.label);
    lemma_trim_line(parsed(s)->Ok_0.expression);
}

} // verus!
