//! Hotkey expressions: text such as `Ctrl+Shift+B`, parsed to a registration
//! (modifier flags and one key code) and written back in canonical form.

use crate::keys::{
    resolve, resolve_key, word_is, Key, KeyModel, MOD_ALT, MOD_CONTROL, MOD_SHIFT, MOD_WIN,
};
use crate::text::{chars_of, lower_all, string_of, trim, trim_lower, trim_range};
use vstd::prelude::*;
use vstd::string::StringExecFns;

verus! {

/// The expression that stands where none is stored.
pub const DEFAULT_HOTKEY_EXPRESSION: &'static str = "Ctrl+Shift+B";

/// The name of the file that holds the stored expression.
pub const HOTKEY_CONFIG_FILE: &'static str = "hotkey.txt";

/// What is registered with the system: modifier flags and one key code.
#[derive(Debug, Clone, Copy, PartialEq, Eq, Structural)]
pub struct HotkeyRegistration {
    pub modifiers: u32,
    pub vk: u32,
}

/// A registration together with its canonical text.
#[derive(Debug, Clone)]
pub struct Hotkey {
    pub expression: String,
    pub registration: HotkeyRegistration,
}

/// A hotkey as contracts see it.
pub struct HotkeyModel {
    pub expression: Seq<char>,
    pub registration: HotkeyRegistration,
}

impl View for Hotkey {
    type V = HotkeyModel;

    open spec fn view(&self) -> HotkeyModel {
        HotkeyModel { expression: self.expression@, registration: self.registration }
    }
}

impl Hotkey {
    /// Whether the text is the canonical text of the registration: it
    /// parses to this very hotkey. Every hotkey that parsing, loading or
    /// saving hands out is well formed.
    pub open spec fn well_formed(&self) -> bool {
        parsed(self@.expression) == Ok::<HotkeyModel, ParseFailure>(self@)
    }
}

/// Why an expression is no hotkey.
#[derive(Debug, Clone)]
pub enum ParseError {
    /// It holds no word at all.
    EmptyExpression,
    /// It holds modifiers only.
    MissingKey,
    /// It holds more than one word that is no modifier.
    MultipleKeys,
    /// Its key word names no key; the word is kept, in lower case.
    UnsupportedKey(String),
}

/// A parse error as contracts see it.
pub enum ParseFailure {
    EmptyExpression,
    MissingKey,
    MultipleKeys,
    UnsupportedKey(Seq<char>),
}

impl View for ParseError {
    type V = ParseFailure;

    open spec fn view(&self) -> ParseFailure {
        match self {
            ParseError::EmptyExpression => ParseFailure::EmptyExpression,
            ParseError::MissingKey => ParseFailure::MissingKey,
            ParseError::MultipleKeys => ParseFailure::MultipleKeys,
            ParseError::UnsupportedKey(word) => ParseFailure::UnsupportedKey(word@),
        }
    }
}

/// The view of a parse's outcome.
pub open spec fn outcome_view(r: Result<Hotkey, ParseError>) -> Result<HotkeyModel, ParseFailure> {
    match r {
        Ok(h) => Ok(h@),
        Err(e) => Err(e@),
    }
}

/// The characters that part one word of an expression from the next.
pub open spec fn is_separator(c: char) -> bool {
    c == '+' || c == ' ' || c == '\t'
}

/// The pieces of `s` between its separators, empty ones included: one more
/// than there are separators.
pub open spec fn split(s: Seq<char>) -> Seq<Seq<char>>
    decreases s.len(),
{
    if s.len() == 0 {
        seq![Seq::empty()]
    } else {
        let before = split(s.drop_last());
        if is_separator(s.last()) {
            before.push(Seq::empty())
        } else {
            before.drop_last().push(before.last().push(s.last()))
        }
    }
}

/// A piece as it is classified: trimmed, in lower case.
pub open spec fn normalize(piece: Seq<char>) -> Seq<char> {
    lower_all(trim(piece))
}

/// The words of a sequence of pieces: each piece normalized, the empty ones
/// left out.
pub open spec fn words(pieces: Seq<Seq<char>>) -> Seq<Seq<char>>
    decreases pieces.len(),
{
    if pieces.len() == 0 {
        Seq::empty()
    } else if normalize(pieces.last()).len() == 0 {
        words(pieces.drop_last())
    } else {
        words(pieces.drop_last()).push(normalize(pieces.last()))
    }
}

/// The four modifiers.
#[derive(Debug, Clone, Copy, PartialEq, Eq, Structural)]
pub enum Modifier {
    Ctrl,
    Shift,
    Alt,
    Win,
}

/// The modifier that `word` names, if it names one.
pub open spec fn modifier_of(word: Seq<char>) -> Option<Modifier> {
    if word == "ctrl"@ || word == "control"@ {
        Some(Modifier::Ctrl)
    } else if word == "shift"@ {
        Some(Modifier::Shift)
    } else if word == "alt"@ {
        Some(Modifier::Alt)
    } else if word == "win"@ || word == "windows"@ || word == "meta"@ {
        Some(Modifier::Win)
    } else {
        None
    }
}

/// What a run over an expression's words has seen: which modifiers, and the
/// words that are no modifier, in order.
pub struct Seen {
    pub ctrl: bool,
    pub shift: bool,
    pub alt: bool,
    pub win: bool,
    pub keys: Seq<Seq<char>>,
}

/// `seen` after one more word.
pub open spec fn see(seen: Seen, word: Seq<char>) -> Seen {
    match modifier_of(word) {
        Some(Modifier::Ctrl) => Seen { ctrl: true, ..seen },
        Some(Modifier::Shift) => Seen { shift: true, ..seen },
        Some(Modifier::Alt) => Seen { alt: true, ..seen },
        Some(Modifier::Win) => Seen { win: true, ..seen },
        None => Seen { keys: seen.keys.push(word), ..seen },
    }
}

/// What a run over all of `ws` has seen.
pub open spec fn seen_in(ws: Seq<Seq<char>>) -> Seen
    decreases ws.len(),
{
    if ws.len() == 0 {
        Seen { ctrl: false, shift: false, alt: false, win: false, keys: Seq::empty() }
    } else {
        see(seen_in(ws.drop_last()), ws.last())
    }
}

/// The modifier flags of a registration.
pub open spec fn modifier_bits(ctrl: bool, shift: bool, alt: bool, win: bool) -> u32 {
    (if ctrl { MOD_CONTROL } else { 0 }) | (if shift { MOD_SHIFT } else { 0 }) | (if alt {
        MOD_ALT
    } else {
        0
    }) | (if win { MOD_WIN } else { 0 })
}

/// The canonical text: the modifiers in the order Ctrl, Shift, Alt, Win,
/// each followed by `+`, and then the key's label.
pub open spec fn canonical(ctrl: bool, shift: bool, alt: bool, win: bool, label: Seq<char>) -> Seq<
    char,
> {
    (if ctrl { "Ctrl+"@ } else { Seq::empty() }) + (if shift { "Shift+"@ } else { Seq::empty() })
        + (if alt { "Alt+"@ } else { Seq::empty() }) + (if win { "Win+"@ } else { Seq::empty() })
        + label
}

/// The hotkey of the modifiers seen and the key `key`.
pub open spec fn hotkey_of(seen: Seen, key: KeyModel) -> HotkeyModel {
    HotkeyModel {
        expression: canonical(seen.ctrl, seen.shift, seen.alt, seen.win, key.label),
        registration: HotkeyRegistration {
            modifiers: modifier_bits(seen.ctrl, seen.shift, seen.alt, seen.win),
            vk: key.vk,
        },
    }
}

/// What the words `ws` of an expression amount to.
pub open spec fn parsed_words(ws: Seq<Seq<char>>) -> Result<HotkeyModel, ParseFailure> {
    let seen = seen_in(ws);
    if ws.len() == 0 {
        Err(ParseFailure::EmptyExpression)
    } else if seen.keys.len() == 0 {
        Err(ParseFailure::MissingKey)
    } else {
        match resolve_key(seen.keys[0]) {
            None => Err(ParseFailure::UnsupportedKey(seen.keys[0])),
            Some(key) => if seen.keys.len() > 1 {
                Err(ParseFailure::MultipleKeys)
            } else {
                Ok(hotkey_of(seen, key))
            },
        }
    }
}

/// What the expression `s` amounts to: its hotkey, or why it has none.
pub open spec fn parsed(s: Seq<char>) -> Result<HotkeyModel, ParseFailure> {
    parsed_words(words(split(s)))
}

/// The modifier that `word` names, if it names one.
pub fn classify(word: &Vec<char>) -> (r: Option<Modifier>)
    ensures
        r == modifier_of(word@),
{
    if word_is(word, "ctrl") || word_is(word, "control") {
        Some(Modifier::Ctrl)
    } else if word_is(word, "shift") {
        Some(Modifier::Shift)
    } else if word_is(word, "alt") {
        Some(Modifier::Alt)
    } else if word_is(word, "win") || word_is(word, "windows") || word_is(word, "meta") {
        Some(Modifier::Win)
    } else {
        None
    }
}

/// The modifier flags of a registration.
pub fn build_modifiers(ctrl: bool, shift: bool, alt: bool, win: bool) -> (r: u32)
    ensures
        r == modifier_bits(ctrl, shift, alt, win),
{
    let c: u32 = if ctrl { MOD_CONTROL } else { 0 };
    let s: u32 = if shift { MOD_SHIFT } else { 0 };
    let a: u32 = if alt { MOD_ALT } else { 0 };
    let w: u32 = if win { MOD_WIN } else { 0 };
    c | s | a | w
}

/// The canonical text of the given modifiers and key label.
pub fn serialize(ctrl: bool, shift: bool, alt: bool, win: bool, label: &str) -> (r: String)
    ensures
        r@ == canonical(ctrl, shift, alt, win, label@),
{
    let mut out = String::new();
    if ctrl {
        out.append("Ctrl+");
    }
    if shift {
        out.append("Shift+");
    }
    if alt {
        out.append("Alt+");
    }
    if win {
        out.append("Win+");
    }
    out.append(label);
    assert(out@ =~= canonical(ctrl, shift, alt, win, label@));
    out
}

/// The running state of a parse: what `Seen` holds, with no more of the key
/// words than their number up to two and the first of them.
struct Scanner {
    any_word: bool,
    ctrl: bool,
    shift: bool,
    alt: bool,
    win: bool,
    key_count: u8,
    first_key: Vec<char>,
}

impl Scanner {
    spec fn stands_for(&self, ws: Seq<Seq<char>>) -> bool {
        let seen = seen_in(ws);
        &&& self.any_word == (ws.len() > 0)
        &&& self.ctrl == seen.ctrl
        &&& self.shift == seen.shift
        &&& self.alt == seen.alt
        &&& self.win == seen.win
        &&& self.key_count <= 2
        &&& self.key_count < 2 ==> self.key_count == seen.keys.len()
        &&& self.key_count == 2 ==> seen.keys.len() >= 2
        &&& self.key_count >= 1 ==> self.first_key@ == seen.keys[0]
    }

    fn new() -> (r: Scanner)
        ensures
            r.stands_for(Seq::empty()),
    {
        Scanner {
            any_word: false,
            ctrl: false,
            shift: false,
            alt: false,
            win: false,
            key_count: 0,
            first_key: Vec::new(),
        }
    }

    /// Takes in the piece of `v` from `from` up to `to`.
    fn absorb(self, v: &Vec<char>, from: usize, to: usize, Ghost(pieces): Ghost<Seq<Seq<char>>>) -> (r:
        Scanner)
        requires
            from <= to <= v.len(),
            self.stands_for(words(pieces)),
        ensures
            r.stands_for(words(pieces.push(v@.subrange(from as int, to as int)))),
    {
        let ghost piece = v@.subrange(from as int, to as int);
        assert(pieces.push(piece).drop_last() == pieces);
        let word = trim_lower(v, from, to);
        if word.len() == 0 {
            return self;
        }
        assert(words(pieces.push(piece)) == words(pieces).push(word@));
        assert(words(pieces).push(word@).drop_last() == words(pieces));
        let mut next = self;
        next.any_word = true;
        match classify(&word) {
            Some(Modifier::Ctrl) => {
                next.ctrl = true;
            },
            Some(Modifier::Shift) => {
                next.shift = true;
            },
            Some(Modifier::Alt) => {
                next.alt = true;
            },
            Some(Modifier::Win) => {
                next.win = true;
            },
            None => {
                if next.key_count == 0 {
                    next.first_key = word;
                    next.key_count = 1;
                } else {
                    next.key_count = 2;
                }
            },
        }
        next
    }

    /// The outcome, once every piece has been taken in.
    fn finish(self, Ghost(ws): Ghost<Seq<Seq<char>>>) -> (r: Result<Hotkey, ParseError>)
        requires
            self.stands_for(ws),
        ensures
            outcome_view(r) == parsed_words(ws),
    {
        if !self.any_word {
            return Err(ParseError::EmptyExpression);
        }
        if self.key_count == 0 {
            return Err(ParseError::MissingKey);
        }
        match resolve(&self.first_key) {
            None => Err(ParseError::UnsupportedKey(string_of(&self.first_key))),
            Some(key) => {
                if self.key_count > 1 {
                    Err(ParseError::MultipleKeys)
                } else {
                    Ok(
                        Hotkey {
                            expression: serialize(
                                self.ctrl,
                                self.shift,
                                self.alt,
                                self.win,
                                key.label.as_str(),
                            ),
                            registration: HotkeyRegistration {
                                modifiers: build_modifiers(
                                    self.ctrl,
                                    self.shift,
                                    self.alt,
                                    self.win,
                                ),
                                vk: key.vk,
                            },
                        },
                    )
                }
            },
        }
    }
}

/// Whether `c` parts one word from the next.
pub fn char_is_separator(c: char) -> (r: bool)
    ensures
        r == is_separator(c),
{
    c == '+' || c == ' ' || c == '\t'
}

/// Parses the characters of an expression.
pub fn parse_chars(v: &Vec<char>) -> (r: Result<Hotkey, ParseError>)
    ensures
        outcome_view(r) == parsed(v@),
        r is Ok ==> r->Ok_0.well_formed(),
{
    let mut scanner = Scanner::new();
    let ghost mut pieces: Seq<Seq<char>> = Seq::empty();
    let mut start: usize = 0;
    let mut i: usize = 0;
    assert(v@.take(0) == Seq::<char>::empty());
    assert(split(v@.take(0)) == pieces.push(v@.subrange(0, 0)));
    while i < v.len()
        invariant
            start <= i <= v.len(),
            scanner.stands_for(words(pieces)),
            split(v@.take(i as int)) == pieces.push(v@.subrange(start as int, i as int)),
        decreases v.len() - i,
    {
        let ghost piece = v@.subrange(start as int, i as int);
        assert(v@.take(i + 1).drop_last() == v@.take(i as int));
        assert(pieces.push(piece).drop_last() == pieces);
        if char_is_separator(v[i]) {
            scanner = scanner.absorb(v, start, i, Ghost(pieces));
            proof {
                pieces = pieces.push(piece);
            }
            start = i + 1;
            assert(v@.subrange(start as int, i + 1) == Seq::<char>::empty());
        } else {
            assert(piece.push(v@[i as int]) == v@.subrange(start as int, i + 1));
        }
        i += 1;
    }
    assert(v@.take(v.len() as int) == v@);
    scanner = scanner.absorb(v, start, i, Ghost(pieces));
    let r = scanner.finish(Ghost(words(split(v@))));
    proof {
        if r is Ok {
            crate::canon::lemma_round_trip(v@);
        }
    }
    r
}

/// Parses a hotkey expression: modifiers and one key, in any order and any
/// case, parted by `+`, spaces or tabs.
pub fn parse_hotkey_expression(expression: &str) -> (r: Result<Hotkey, ParseError>)
    ensures
        outcome_view(r) == parsed(expression@),
        r is Ok ==> r->Ok_0.well_formed(),
{
    let v = chars_of(expression);
    parse_chars(&v)
}

/// Resolves one key word, already in lower case, to its code and label.
pub fn parse_key_token(token: &str) -> (r: Result<Key, ParseError>)
    ensures
        match r {
            Ok(k) => resolve_key(token@) == Some(k@),
            Err(e) => resolve_key(token@) is None && e@ == ParseFailure::UnsupportedKey(token@),
        },
{
    let word = chars_of(token);
    match resolve(&word) {
        Some(k) => Ok(k),
        None => Err(ParseError::UnsupportedKey(string_of(&word))),
    }
}

impl ParseError {
    /// The text of the error's message.
    pub open spec fn message_text(e: ParseFailure) -> Seq<char> {
        match e {
            ParseFailure::EmptyExpression => "Hotkey expression cannot be empty"@,
            ParseFailure::MissingKey => "Hotkey key is missing"@,
            ParseFailure::MultipleKeys => "Hotkey expression must contain exactly one non-modifier key"@,
            ParseFailure::UnsupportedKey(word) => "Unsupported hotkey key token: "@ + word,
        }
    }

    /// One line that says what is wrong with the expression.
    pub fn message(&self) -> (r: String)
        ensures
            r@ == Self::message_text(self@),
    {
        match self {
            ParseError::EmptyExpression => String::from_str("Hotkey expression cannot be empty"),
            ParseError::MissingKey => String::from_str("Hotkey key is missing"),
            ParseError::MultipleKeys => String::from_str(
                "Hotkey expression must contain exactly one non-modifier key",
            ),
            ParseError::UnsupportedKey(word) => String::from_str(
                "Unsupported hotkey key token: ",
            ).concat(word.as_str()),
        }
    }
}

/// A stored expression that is no hotkey: the text as it was parsed (the
/// stored text, trimmed) and what is wrong with it.
#[derive(Debug, Clone)]
pub struct InvalidStored {
    pub text: String,
    pub cause: ParseError,
}

/// An invalid stored expression as contracts see it.
pub struct InvalidStoredModel {
    pub text: Seq<char>,
    pub cause: ParseFailure,
}

impl View for InvalidStored {
    type V = InvalidStoredModel;

    open spec fn view(&self) -> InvalidStoredModel {
        InvalidStoredModel { text: self.text@, cause: self.cause@ }
    }
}

impl InvalidStored {
    /// The text of the message, for an expression stored at `location`.
    pub open spec fn message_text(e: InvalidStoredModel, location: Seq<char>) -> Seq<char> {
        "Invalid hotkey expression in "@ + location + ": "@ + e.text
    }

    /// One line that names the place and the text that was found there.
    pub fn message(&self, location: &str) -> (r: String)
        ensures
            r@ == Self::message_text(self@, location@),
    {
        String::from_str("Invalid hotkey expression in ").concat(location).concat(": ").concat(
            self.text.as_str(),
        )
    }
}

/// The view of a load's outcome.
pub open spec fn load_view(r: Result<Hotkey, InvalidStored>) -> Result<
    HotkeyModel,
    InvalidStoredModel,
> {
    match r {
        Ok(h) => Ok(h@),
        Err(e) => Err(e@),
    }
}

/// The hotkey of the default expression, `Ctrl+Shift+B`.
pub open spec fn default_hotkey() -> HotkeyModel {
    HotkeyModel {
        expression: "Ctrl+Shift+B"@,
        registration: HotkeyRegistration { modifiers: 6, vk: 0x42 },
    }
}

/// What loading gives for what the store holds: the default where it holds
/// nothing or only blanks, else what its trimmed text parses to.
pub open spec fn loaded(stored: Option<Seq<char>>) -> Result<HotkeyModel, InvalidStoredModel> {
    match stored {
        None => Ok(default_hotkey()),
        Some(raw) => if trim(raw).len() == 0 {
            Ok(default_hotkey())
        } else {
            match parsed(trim(raw)) {
                Ok(h) => Ok(h),
                Err(cause) => Err(InvalidStoredModel { text: trim(raw), cause }),
            }
        },
    }
}

/// The content of the store for a hotkey: its canonical text and a newline.
pub open spec fn stored_text(h: HotkeyModel) -> Seq<char> {
    h.expression.push('\n')
}

/// The characters of `v` from `from` up to `to`.
pub fn copy_range(v: &Vec<char>, from: usize, to: usize) -> (r: Vec<char>)
    requires
        from <= to <= v.len(),
    ensures
        r@ == v@.subrange(from as int, to as int),
{
    let mut out: Vec<char> = Vec::new();
    let mut i: usize = from;
    while i < to
        invariant
            from <= i <= to <= v.len(),
            out@ == v@.subrange(from as int, i as int),
        decreases to - i,
    {
        out.push(v[i]);
        i += 1;
        assert(out@ =~= v@.subrange(from as int, i as int));
    }
    out
}

/// The hotkey for what the store holds; `None` stands for a store that does
/// not exist.
pub fn load_hotkey(stored: Option<&str>) -> (r: Result<Hotkey, InvalidStored>)
    ensures
        load_view(r) == loaded(
            match stored {
                Some(raw) => Some(raw@),
                None => None,
            },
        ),
        r is Ok ==> r->Ok_0.well_formed(),
{
    if let Some(raw) = stored {
        let v = chars_of(raw);
        let bounds = trim_range(&v, 0, v.len());
        assert(v@.subrange(0, v.len() as int) == v@);
        if bounds.0 < bounds.1 {
            let text = copy_range(&v, bounds.0, bounds.1);
            return match parse_chars(&text) {
                Ok(h) => Ok(h),
                Err(cause) => Err(InvalidStored { text: string_of(&text), cause }),
            };
        }
    }
    proof {
        crate::canon::lemma_default_parses();
    }
    match parse_hotkey_expression(DEFAULT_HOTKEY_EXPRESSION) {
        Ok(h) => Ok(h),
        Err(cause) => Err(InvalidStored { text: String::from_str(DEFAULT_HOTKEY_EXPRESSION), cause }),
    }
}

/// Parses `expression` and, where it is a hotkey, gives the hotkey and the
/// content to store for it. Nothing is to be stored where it is none.
pub fn save_hotkey_expression(expression: &str) -> (r: Result<(Hotkey, String), ParseError>)
    ensures
        match r {
            Ok((h, content)) => parsed(expression@) == Ok::<HotkeyModel, ParseFailure>(h@)
                && h.well_formed() && content@ == stored_text(h@),
            Err(e) => parsed(expression@) == Err::<HotkeyModel, ParseFailure>(e@),
        },
{
    match parse_hotkey_expression(expression) {
        Ok(h) => {
            let mut content = String::from_str(h.expression.as_str());
            content.push('\n');
            Ok((h, content))
        },
        Err(e) => Err(e),
    }
}

} // verus!
