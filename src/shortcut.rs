//! The shortcut grammar: a text such as `Command+Option+N` read into a set of
//! modifier keys and one key.
use vstd::prelude::*;

verus! {

/// The modifier keys of a shortcut, each present or absent.
#[derive(Clone, Copy, Debug, PartialEq, Eq, Structural)]
pub struct Modifiers {
    pub super_key: bool,
    pub control: bool,
    pub alt: bool,
    pub shift: bool,
}

/// One modifier key.
#[derive(Clone, Copy, Debug, PartialEq, Eq, Structural)]
pub enum Modifier {
    Super,
    Control,
    Alt,
    Shift,
}

/// The keys a shortcut can end in: letters, digits and a few named keys.
#[derive(Clone, Copy, Debug, PartialEq, Eq, Structural)]
pub enum KeyCode {
    KeyA,
    KeyB,
    KeyC,
    KeyD,
    KeyE,
    KeyF,
    KeyG,
    KeyH,
    KeyI,
    KeyJ,
    KeyK,
    KeyL,
    KeyM,
    KeyN,
    KeyO,
    KeyP,
    KeyQ,
    KeyR,
    KeyS,
    KeyT,
    KeyU,
    KeyV,
    KeyW,
    KeyX,
    KeyY,
    KeyZ,
    Digit0,
    Digit1,
    Digit2,
    Digit3,
    Digit4,
    Digit5,
    Digit6,
    Digit7,
    Digit8,
    Digit9,
    Space,
    Enter,
    Escape,
}

/// A parsed shortcut: the modifiers held and the key pressed.
#[derive(Clone, Copy, Debug, PartialEq, Eq, Structural)]
pub struct ShortcutSpec {
    pub modifiers: Modifiers,
    pub key: KeyCode,
}

/// Why a shortcut text could not be read.
#[derive(Clone, Debug, PartialEq, Eq)]
pub enum ParseError {
    /// Every token was a modifier.
    NoKeySpecified,
    /// A token that is no modifier names no known key; the token is kept
    /// as it was written, without surrounding whitespace.
    UnknownKey(String),
}

/// The mathematical value of a `ParseError`.
pub enum ParseFailure {
    NoKeySpecified,
    UnknownKey(Seq<char>),
}

impl View for ParseError {
    type V = ParseFailure;

    open spec fn view(&self) -> ParseFailure {
        match self {
            ParseError::NoKeySpecified => ParseFailure::NoKeySpecified,
            ParseError::UnknownKey(t) => ParseFailure::UnknownKey(t@),
        }
    }
}

/// What `str::trim` returns for a text.
pub uninterp spec fn trimmed(s: Seq<char>) -> Seq<char>;

/// What `str::to_lowercase` returns for a text.
pub uninterp spec fn lowered(s: Seq<char>) -> Seq<char>;

/// What `str::to_uppercase` returns for a text.
pub uninterp spec fn uppered(s: Seq<char>) -> Seq<char>;

/// Relies on `str::trim`: the text without leading and trailing whitespace,
/// a function of the characters alone.
#[verifier::external_body]
fn trim_token(s: &str) -> (r: &str)
    ensures
        r@ == trimmed(s@),
{
    s.trim()
}

/// Relies on `str::to_lowercase`: the lower-case form of the text, a function
/// of the characters alone.
#[verifier::external_body]
fn lowercase(s: &str) -> (r: String)
    ensures
        r@ == lowered(s@),
{
    s.to_lowercase()
}

/// Relies on `str::to_uppercase`: the upper-case form of the text, a function
/// of the characters alone.
#[verifier::external_body]
fn uppercase(s: &str) -> (r: String)
    ensures
        r@ == uppered(s@),
{
    s.to_uppercase()
}

/// The text cut at every `+`: as many pieces as there are `+` signs, plus one.
pub open spec fn pieces(s: Seq<char>) -> Seq<Seq<char>>
    decreases s.len(),
{
    if s.len() == 0 {
        seq![Seq::<char>::empty()]
    } else {
        let front = pieces(s.drop_last());
        if s.last() == '+' {
            front.push(Seq::<char>::empty())
        } else {
            front.update(front.len() - 1, front.last().push(s.last()))
        }
    }
}

proof fn lemma_pieces_nonempty(s: Seq<char>)
    ensures
        pieces(s).len() >= 1,
    decreases s.len(),
{
    if s.len() > 0 {
        lemma_pieces_nonempty(s.drop_last());
    }
}

/// The modifier that a lower-case token names, if any.
pub open spec fn modifier_alias(t: Seq<char>) -> Option<Modifier> {
    if t == "command"@ || t == "cmd"@ || t == "super"@ || t == "meta"@ {
        Some(Modifier::Super)
    } else if t == "control"@ || t == "ctrl"@ {
        Some(Modifier::Control)
    } else if t == "alt"@ || t == "option"@ {
        Some(Modifier::Alt)
    } else if t == "shift"@ {
        Some(Modifier::Shift)
    } else {
        None
    }
}

/// The key that an upper-case letter or a digit names.
pub open spec fn char_key(c: char) -> Option<KeyCode> {
    match c {
        'A' => Some(KeyCode::KeyA),
        'B' => Some(KeyCode::KeyB),
        'C' => Some(KeyCode::KeyC),
        'D' => Some(KeyCode::KeyD),
        'E' => Some(KeyCode::KeyE),
        'F' => Some(KeyCode::KeyF),
        'G' => Some(KeyCode::KeyG),
        'H' => Some(KeyCode::KeyH),
        'I' => Some(KeyCode::KeyI),
        'J' => Some(KeyCode::KeyJ),
        'K' => Some(KeyCode::KeyK),
        'L' => Some(KeyCode::KeyL),
        'M' => Some(KeyCode::KeyM),
        'N' => Some(KeyCode::KeyN),
        'O' => Some(KeyCode::KeyO),
        'P' => Some(KeyCode::KeyP),
        'Q' => Some(KeyCode::KeyQ),
        'R' => Some(KeyCode::KeyR),
        'S' => Some(KeyCode::KeyS),
        'T' => Some(KeyCode::KeyT),
        'U' => Some(KeyCode::KeyU),
        'V' => Some(KeyCode::KeyV),
        'W' => Some(KeyCode::KeyW),
        'X' => Some(KeyCode::KeyX),
        'Y' => Some(KeyCode::KeyY),
        'Z' => Some(KeyCode::KeyZ),
        '0' => Some(KeyCode::Digit0),
        '1' => Some(KeyCode::Digit1),
        '2' => Some(KeyCode::Digit2),
        '3' => Some(KeyCode::Digit3),
        '4' => Some(KeyCode::Digit4),
        '5' => Some(KeyCode::Digit5),
        '6' => Some(KeyCode::Digit6),
        '7' => Some(KeyCode::Digit7),
        '8' => Some(KeyCode::Digit8),
        '9' => Some(KeyCode::Digit9),
        _ => None,
    }
}

/// The key that an upper-case key name stands for, if any.
pub open spec fn key_named(t: Seq<char>) -> Option<KeyCode> {
    if t.len() == 1 {
        char_key(t[0])
    } else if t == "SPACE"@ {
        Some(KeyCode::Space)
    } else if t == "ENTER"@ {
        Some(KeyCode::Enter)
    } else if t == "ESCAPE"@ || t == "ESC"@ {
        Some(KeyCode::Escape)
    } else {
        None
    }
}

/// The modifier set with no key held.
pub open spec fn no_modifiers() -> Modifiers {
    Modifiers { super_key: false, control: false, alt: false, shift: false }
}

/// `m` with one more modifier held.
pub open spec fn with_modifier(m: Modifiers, md: Modifier) -> Modifiers {
    match md {
        Modifier::Super => Modifiers { super_key: true, ..m },
        Modifier::Control => Modifiers { control: true, ..m },
        Modifier::Alt => Modifiers { alt: true, ..m },
        Modifier::Shift => Modifiers { shift: true, ..m },
    }
}

/// The token that a piece of the text stands for: trimmed and lower-cased.
pub open spec fn token_of(piece: Seq<char>) -> Seq<char> {
    lowered(trimmed(piece))
}

/// One piece read on top of the modifiers and key read so far: a modifier is
/// added, any other token must name a key and replaces the earlier one.
pub open spec fn read_piece(m: Modifiers, k: Option<KeyCode>, piece: Seq<char>) -> Result<
    (Modifiers, Option<KeyCode>),
    ParseFailure,
> {
    let t = token_of(piece);
    match modifier_alias(t) {
        Some(md) => Ok((with_modifier(m, md), k)),
        None => match key_named(uppered(t)) {
            Some(c) => Ok((m, Some(c))),
            None => Err(ParseFailure::UnknownKey(trimmed(piece))),
        },
    }
}

/// The pieces read from left to right, stopping at the first unknown key.
pub open spec fn read_pieces(ps: Seq<Seq<char>>) -> Result<(Modifiers, Option<KeyCode>), ParseFailure>
    decreases ps.len(),
{
    if ps.len() == 0 {
        Ok((no_modifiers(), None))
    } else {
        match read_pieces(ps.drop_last()) {
            Err(e) => Err(e),
            Ok((m, k)) => read_piece(m, k, ps.last()),
        }
    }
}

/// What a shortcut text means.
pub open spec fn parse_model(s: Seq<char>) -> Result<ShortcutSpec, ParseFailure> {
    match read_pieces(pieces(s)) {
        Err(e) => Err(e),
        Ok((_, None)) => Err(ParseFailure::NoKeySpecified),
        Ok((m, Some(k))) => Ok(ShortcutSpec { modifiers: m, key: k }),
    }
}

/// The mathematical value of a parse result.
pub open spec fn outcome_view(r: Result<ShortcutSpec, ParseError>) -> Result<ShortcutSpec, ParseFailure> {
    match r {
        Ok(sc) => Ok(sc),
        Err(e) => Err(e@),
    }
}

/// Whether two texts hold the same characters.
fn same_text(a: &str, b: &str) -> (r: bool)
    ensures
        r == (a@ == b@),
{
    let n = a.unicode_len();
    let m = b.unicode_len();
    if n != m {
        return false;
    }
    let mut i: usize = 0;
    while i < n
        invariant
            n == a@.len(),
            n == b@.len(),
            i <= n,
            forall|j: int| 0 <= j < i ==> a@[j] == b@[j],
        decreases n - i,
    {
        if a.get_char(i) != b.get_char(i) {
            return false;
        }
        i = i + 1;
    }
    assert(a@ =~= b@);
    true
}

/// The modifier that a lower-case token names, if any.
fn modifier_of(t: &str) -> (r: Option<Modifier>)
    ensures
        r == modifier_alias(t@),
{
    if same_text(t, "command") || same_text(t, "cmd") || same_text(t, "super") || same_text(
        t,
        "meta",
    ) {
        Some(Modifier::Super)
    } else if same_text(t, "control") || same_text(t, "ctrl") {
        Some(Modifier::Control)
    } else if same_text(t, "alt") || same_text(t, "option") {
        Some(Modifier::Alt)
    } else if same_text(t, "shift") {
        Some(Modifier::Shift)
    } else {
        None
    }
}

/// The key that an upper-case letter or a digit names.
fn key_of_char(c: char) -> (r: Option<KeyCode>)
    ensures
        r == char_key(c),
{
    match c {
        'A' => Some(KeyCode::KeyA),
        'B' => Some(KeyCode::KeyB),
        'C' => Some(KeyCode::KeyC),
        'D' => Some(KeyCode::KeyD),
        'E' => Some(KeyCode::KeyE),
        'F' => Some(KeyCode::KeyF),
        'G' => Some(KeyCode::KeyG),
        'H' => Some(KeyCode::KeyH),
        'I' => Some(KeyCode::KeyI),
        'J' => Some(KeyCode::KeyJ),
        'K' => Some(KeyCode::KeyK),
        'L' => Some(KeyCode::KeyL),
        'M' => Some(KeyCode::KeyM),
        'N' => Some(KeyCode::KeyN),
        'O' => Some(KeyCode::KeyO),
        'P' => Some(KeyCode::KeyP),
        'Q' => Some(KeyCode::KeyQ),
        'R' => Some(KeyCode::KeyR),
        'S' => Some(KeyCode::KeyS),
        'T' => Some(KeyCode::KeyT),
        'U' => Some(KeyCode::KeyU),
        'V' => Some(KeyCode::KeyV),
        'W' => Some(KeyCode::KeyW),
        'X' => Some(KeyCode::KeyX),
        'Y' => Some(KeyCode::KeyY),
        'Z' => Some(KeyCode::KeyZ),
        '0' => Some(KeyCode::Digit0),
        '1' => Some(KeyCode::Digit1),
        '2' => Some(KeyCode::Digit2),
        '3' => Some(KeyCode::Digit3),
        '4' => Some(KeyCode::Digit4),
        '5' => Some(KeyCode::Digit5),
        '6' => Some(KeyCode::Digit6),
        '7' => Some(KeyCode::Digit7),
        '8' => Some(KeyCode::Digit8),
        '9' => Some(KeyCode::Digit9),
        _ => None,
    }
}

/// Reads a key name, in any case: a letter, a digit, `space`, `enter`,
/// `escape` or `esc`.
pub fn parse_key_code(key: &str) -> (r: Result<KeyCode, ParseError>)
    ensures
        match r {
            Ok(c) => key_named(uppered(key@)) == Some(c),
            Err(e) => key_named(uppered(key@)) is None && e@ == ParseFailure::UnknownKey(key@),
        },
{
    let upper = uppercase(key);
    let name = upper.as_str();
    let found = if name.unicode_len() == 1 {
        key_of_char(name.get_char(0))
    } else if same_text(name, "SPACE") {
        Some(KeyCode::Space)
    } else if same_text(name, "ENTER") {
        Some(KeyCode::Enter)
    } else if same_text(name, "ESCAPE") || same_text(name, "ESC") {
        Some(KeyCode::Escape)
    } else {
        None
    };
    match found {
        Some(c) => Ok(c),
        None => Err(ParseError::UnknownKey(String::from_str(key))),
    }
}

/// Cuts the text at every `+`.
fn split_on_plus(s: &str) -> (r: Vec<&str>)
    ensures
        r@.map_values(|p: &str| p@) == pieces(s@),
{
    let n = s.unicode_len();
    let mut out: Vec<&str> = Vec::new();
    let mut start: usize = 0;
    let mut i: usize = 0;
    proof {
        assert(s@.take(0) =~= Seq::<char>::empty());
        assert(out@.map_values(|p: &str| p@).push(s@.subrange(0, 0)) =~= seq![Seq::<char>::empty()]);
    }
    while i < n
        invariant
            n == s@.len(),
            start <= i <= n,
            pieces(s@.take(i as int)) == out@.map_values(|p: &str| p@).push(
                s@.subrange(start as int, i as int),
            ),
        decreases n - i,
    {
        let c = s.get_char(i);
        let ghost before = out@.map_values(|p: &str| p@);
        let ghost old_start = start as int;
        proof {
            let t = s@.take(i as int + 1);
            assert(t.drop_last() =~= s@.take(i as int));
            assert(t.last() == c);
            lemma_pieces_nonempty(t.drop_last());
        }
        if c == '+' {
            out.push(s.substring_char(start, i));
            start = i + 1;
            proof {
                assert(out@.map_values(|p: &str| p@) =~= before.push(s@.subrange(old_start, i as int)));
                assert(s@.subrange(start as int, i as int + 1) =~= Seq::<char>::empty());
            }
        } else {
            proof {
                assert(s@.subrange(start as int, i as int).push(c) =~= s@.subrange(
                    start as int,
                    i as int + 1,
                ));
            }
        }
        i = i + 1;
        proof {
            assert(pieces(s@.take(i as int)) =~= out@.map_values(|p: &str| p@).push(
                s@.subrange(start as int, i as int),
            ));
        }
    }
    out.push(s.substring_char(start, n));
    proof {
        assert(s@.take(n as int) =~= s@);
        assert(out@.map_values(|p: &str| p@) =~= pieces(s@));
    }
    out
}

/// Reads a shortcut text: pieces separated by `+`, each trimmed and compared
/// without regard to case. Modifier names add their modifier; any other piece
/// must name a key, and the last such piece gives the key.
pub fn parse_shortcut(shortcut_str: &str) -> (r: Result<ShortcutSpec, ParseError>)
    ensures
        outcome_view(r) == parse_model(shortcut_str@),
{
    let parts = split_on_plus(shortcut_str);
    let ghost ps = parts@.map_values(|p: &str| p@);
    let mut modifiers = Modifiers { super_key: false, control: false, alt: false, shift: false };
    let mut key_code: Option<KeyCode> = None;
    let mut i: usize = 0;
    while i < parts.len()
        invariant
            ps == parts@.map_values(|p: &str| p@),
            ps == pieces(shortcut_str@),
            i <= parts.len(),
            read_pieces(ps.take(i as int)) == Ok::<(Modifiers, Option<KeyCode>), ParseFailure>(
                (modifiers, key_code),
            ),
        decreases parts.len() - i,
    {
        let part = parts[i];
        proof {
            assert(ps.take(i as int + 1).drop_last() =~= ps.take(i as int));
            assert(ps.take(i as int + 1).last() == part@);
        }
        let token = trim_token(part);
        let lower = lowercase(token);
        match modifier_of(lower.as_str()) {
            Some(Modifier::Super) => {
                modifiers.super_key = true;
            },
            Some(Modifier::Control) => {
                modifiers.control = true;
            },
            Some(Modifier::Alt) => {
                modifiers.alt = true;
            },
            Some(Modifier::Shift) => {
                modifiers.shift = true;
            },
            None => match parse_key_code(lower.as_str()) {
                Ok(c) => {
                    key_code = Some(c);
                },
                Err(_) => {
                    proof {
                        lemma_read_stops(ps, i as int + 1);
                    }
                    return Err(ParseError::UnknownKey(String::from_str(token)));
                },
            },
        }
        i = i + 1;
    }
    proof {
        assert(ps.take(i as int) =~= ps);
    }
    match key_code {
        Some(k) => Ok(ShortcutSpec { modifiers, key: k }),
        None => Err(ParseError::NoKeySpecified),
    }
}

/// Once a prefix of the pieces fails to read, the whole fails the same way.
proof fn lemma_read_stops(ps: Seq<Seq<char>>, n: int)
    requires
        0 <= n <= ps.len(),
        read_pieces(ps.take(n)) is Err,
    ensures
        read_pieces(ps) == read_pieces(ps.take(n)),
    decreases ps.len() - n,
{
    if n < ps.len() {
        assert(ps.take(n + 1).drop_last() =~= ps.take(n));
        lemma_read_stops(ps, n + 1);
    } else {
        assert(ps.take(n) =~= ps);
    }
}

/// Whether some token among `ts` names the modifier `md`.
pub open spec fn names_modifier(ts: Seq<Seq<char>>, md: Modifier) -> bool {
    exists|i: int| 0 <= i < ts.len() && modifier_alias(token_of(ts[i])) == Some(md)
}

/// The modifiers that the tokens among `ts` name.
pub open spec fn modifiers_named(ts: Seq<Seq<char>>) -> Modifiers {
    Modifiers {
        super_key: names_modifier(ts, Modifier::Super),
        control: names_modifier(ts, Modifier::Control),
        alt: names_modifier(ts, Modifier::Alt),
        shift: names_modifier(ts, Modifier::Shift),
    }
}

proof fn lemma_names_modifier_step(ts: Seq<Seq<char>>, md: Modifier)
    requires
        ts.len() > 0,
    ensures
        names_modifier(ts, md) == (names_modifier(ts.drop_last(), md) || modifier_alias(
            token_of(ts.last()),
        ) == Some(md)),
{
    if names_modifier(ts, md) {
        let i = choose|i: int| 0 <= i < ts.len() && modifier_alias(token_of(ts[i])) == Some(md);
        if i < ts.len() - 1 {
            assert(ts.drop_last()[i] == ts[i]);
        }
    }
    if names_modifier(ts.drop_last(), md) {
        let i = choose|i: int|
            0 <= i < ts.drop_last().len() && modifier_alias(token_of(ts.drop_last()[i])) == Some(
                md,
            );
        assert(ts[i] == ts.drop_last()[i]);
    }
    if modifier_alias(token_of(ts.last())) == Some(md) {
        assert(ts[ts.len() - 1] == ts.last());
    }
}

/// Pieces that all name modifiers read to exactly the modifiers they name,
/// and no key.
proof fn lemma_read_modifiers(ts: Seq<Seq<char>>)
    requires
        forall|i: int| 0 <= i < ts.len() ==> modifier_alias(token_of(#[trigger] ts[i])) is Some,
    ensures
        read_pieces(ts) == Ok::<(Modifiers, Option<KeyCode>), ParseFailure>(
            (modifiers_named(ts), None),
        ),
    decreases ts.len(),
{
    if ts.len() == 0 {
        assert(modifiers_named(ts) == no_modifiers());
    } else {
        let dl = ts.drop_last();
        assert forall|i: int| 0 <= i < dl.len() implies modifier_alias(
            token_of(#[trigger] dl[i]),
        ) is Some by {
            assert(dl[i] == ts[i]);
        }
        lemma_read_modifiers(dl);
        assert(modifier_alias(token_of(ts[ts.len() - 1])) is Some);
        lemma_names_modifier_step(ts, Modifier::Super);
        lemma_names_modifier_step(ts, Modifier::Control);
        lemma_names_modifier_step(ts, Modifier::Alt);
        lemma_names_modifier_step(ts, Modifier::Shift);
    }
}

/// A text made of modifier names followed by one key name reads to exactly
/// the modifiers named and that key.
pub proof fn lemma_modifiers_then_key(s: Seq<char>, k: KeyCode)
    requires
        forall|i: int|
            0 <= i < pieces(s).len() - 1 ==> modifier_alias(token_of(#[trigger] pieces(s)[i])) is Some,
        modifier_alias(token_of(pieces(s).last())) is None,
        key_named(uppered(token_of(pieces(s).last()))) == Some(k),
    ensures
        parse_model(s) == Ok::<ShortcutSpec, ParseFailure>(
            ShortcutSpec { modifiers: modifiers_named(pieces(s).drop_last()), key: k },
        ),
{
    lemma_pieces_nonempty(s);
    let ps = pieces(s);
    let dl = ps.drop_last();
    assert forall|i: int| 0 <= i < dl.len() implies modifier_alias(
        token_of(#[trigger] dl[i]),
    ) is Some by {
        assert(dl[i] == ps[i]);
    }
    lemma_read_modifiers(dl);
}

/// Reading depends on each piece only through its trimmed, lower-cased
/// token: two texts whose tokens agree read to the same shortcut, or both
/// fail with the same kind of error.
pub proof fn lemma_parse_ignores_case(a: Seq<char>, b: Seq<char>)
    requires
        pieces(a).len() == pieces(b).len(),
        forall|i: int|
            0 <= i < pieces(a).len() ==> token_of(#[trigger] pieces(a)[i]) == token_of(
                pieces(b)[i],
            ),
    ensures
        parse_model(a) is Ok ==> parse_model(b) == parse_model(a),
        parse_model(a) is Ok <==> parse_model(b) is Ok,
        (parse_model(a) == Err::<ShortcutSpec, ParseFailure>(ParseFailure::NoKeySpecified)) <==> (
        parse_model(b) == Err::<ShortcutSpec, ParseFailure>(ParseFailure::NoKeySpecified)),
{
    lemma_read_same_tokens(pieces(a), pieces(b));
}

proof fn lemma_read_same_tokens(pa: Seq<Seq<char>>, pb: Seq<Seq<char>>)
    requires
        pa.len() == pb.len(),
        forall|i: int| 0 <= i < pa.len() ==> token_of(#[trigger] pa[i]) == token_of(pb[i]),
    ensures
        read_pieces(pa) is Ok <==> read_pieces(pb) is Ok,
        read_pieces(pa) is Ok ==> read_pieces(pa) == read_pieces(pb),
        read_pieces(pa) is Err ==> read_pieces(pa)->Err_0 is UnknownKey,
        read_pieces(pb) is Err ==> read_pieces(pb)->Err_0 is UnknownKey,
    decreases pa.len(),
{
    if pa.len() > 0 {
        let da = pa.drop_last();
        let db = pb.drop_last();
        assert forall|i: int| 0 <= i < da.len() implies token_of(#[trigger] da[i]) == token_of(
            db[i],
        ) by {
            assert(da[i] == pa[i]);
            assert(db[i] == pb[i]);
        }
        lemma_read_same_tokens(da, db);
        assert(token_of(pa[pa.len() - 1]) == token_of(pb[pb.len() - 1]));
    }
}

} // verus!
