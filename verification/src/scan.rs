//! A look at a text before it is handed to the JSON parser. The parser of
//! `rustc_serialize` cannot take every text: it calls itself once for each
//! array or object that is open, keeps the keys of the open objects in a
//! buffer that it addresses with sixteen bits, adds up exponents and array
//! indices without a check, and loses its place after a comma that is
//! followed by `}`. The scan below goes through the text once, character by
//! character, and says whether the text keeps clear of all that.

use vstd::prelude::*;

verus! {

/// How many arrays and objects a text may have open at one time.
pub const MAX_NESTING: usize = 128;

/// How many bytes the keys of the open objects may have together.
pub const KEY_LIMIT: usize = 65535;

/// An array or object that the text has opened and not yet closed.
#[derive(Clone, Copy, Debug, PartialEq, Eq)]
pub struct Level {
    /// Opened by `[`.
    pub array: bool,
    /// The bytes of the key whose value is being read at this level; zero
    /// between members.
    pub key: usize,
    /// The commas seen at this level so far.
    pub commas: u32,
}

/// Where in the text the scan stands.
#[derive(Clone, Copy, Debug, PartialEq, Eq)]
pub enum Mode {
    /// Outside strings and exponents.
    Plain,
    /// Inside a string that has `len` bytes so far, once unescaped.
    Text { len: usize },
    /// Right after a backslash in a string.
    Escape { len: usize },
    /// In the hexadecimal digits of a `\u` escape, `left` of them to come.
    Hex { len: usize, left: u8, value: u16 },
    /// Right after the `e` of a number.
    Sign,
    /// In the digits of an exponent, which so far spell `value`.
    Exponent { value: usize },
}

/// What the scan knows after a part of the text.
pub struct Scan {
    /// The open arrays and objects, the innermost last.
    pub levels: Seq<Level>,
    pub mode: Mode,
    /// The unescaped length of the string that has just ended, until the
    /// next character that is not white space shows whether it was a key.
    pub pending: Option<usize>,
    /// The last character that was not white space was a comma.
    pub after_comma: bool,
    /// The text has gone beyond what the parser can take.
    pub broken: bool,
}

/// The scan before the first character.
pub open spec fn start() -> Scan {
    Scan {
        levels: Seq::empty(),
        mode: Mode::Plain,
        pending: None,
        after_comma: false,
        broken: false,
    }
}

/// The white space that the parser skips.
pub open spec fn is_space(c: char) -> bool {
    c == ' ' || c == '\n' || c == '\t' || c == '\r'
}

/// The value of a decimal digit.
pub open spec fn decimal_digit(c: char) -> Option<usize> {
    let v = c as u32;
    if 0x30 <= v <= 0x39 {
        Some((v - 0x30) as usize)
    } else {
        None
    }
}

/// The value of a hexadecimal digit.
pub open spec fn hex_digit(c: char) -> Option<u16> {
    let v = c as u32;
    if 0x30 <= v <= 0x39 {
        Some((v - 0x30) as u16)
    } else if 0x61 <= v <= 0x66 {
        Some((v - 0x61 + 10) as u16)
    } else if 0x41 <= v <= 0x46 {
        Some((v - 0x41 + 10) as u16)
    } else {
        None
    }
}

/// The bytes that a character takes in UTF-8.
pub open spec fn char_bytes(c: char) -> int {
    let v = c as u32;
    if v < 0x80 {
        1
    } else if v < 0x800 {
        2
    } else if v < 0x10000 {
        3
    } else {
        4
    }
}

/// The bytes that a `\u` escape of the given value adds to a string. Each
/// half of a surrogate pair counts two of the four bytes of the character
/// that the pair stands for.
pub open spec fn escape_bytes(value: u16) -> int {
    if value < 0x80 {
        1
    } else if value < 0x800 {
        2
    } else if 0xD800 <= value < 0xE000 {
        2
    } else {
        3
    }
}

/// A string length grown by some bytes. Lengths beyond `KEY_LIMIT` are not
/// told apart.
pub open spec fn grown(len: usize, bytes: int) -> usize {
    if len + bytes > KEY_LIMIT {
        (KEY_LIMIT + 1) as usize
    } else {
        (len + bytes) as usize
    }
}

/// A hexadecimal value with one more digit. Values beyond four digits are
/// not told apart.
pub open spec fn shifted(value: u16, digit: u16) -> u16 {
    if value * 16 + digit > 0xFFFF {
        0xFFFFu16
    } else {
        (value * 16 + digit) as u16
    }
}

/// The bytes of all keys whose values are being read.
pub open spec fn key_bytes(levels: Seq<Level>) -> int
    decreases levels.len(),
{
    if levels.len() == 0 {
        0
    } else {
        key_bytes(levels.drop_last()) + levels.last().key
    }
}

/// The scan gone wrong.
pub open spec fn broke(s: Scan) -> Scan {
    Scan { broken: true, ..s }
}

/// The scan after the string that has just ended turned out to be a key of
/// `len` bytes: the innermost level holds it from now on, provided the keys
/// held together stay within `KEY_LIMIT`.
pub open spec fn keyed(s: Scan, len: usize) -> Scan {
    let top = s.levels.last();
    let levels = s.levels.update(s.levels.len() - 1, Level { key: len, ..top });
    if key_bytes(levels) > KEY_LIMIT {
        broke(s)
    } else {
        Scan { levels: levels, ..s }
    }
}

/// The scan after a comma at the innermost level: the member or element
/// before it is complete, so its key is let go, and an array counts the
/// comma, of which it can take as many as an index of 32 bits can count.
pub open spec fn parted(s: Scan) -> Scan {
    let top = s.levels.last();
    if top.array && top.commas == u32::MAX {
        broke(s)
    } else {
        let commas = if top.array {
            (top.commas + 1) as u32
        } else {
            top.commas
        };
        Scan {
            levels: s.levels.update(
                s.levels.len() - 1,
                Level { key: 0, commas: commas, ..top },
            ),
            ..s
        }
    }
}

/// The scan after one more character outside strings and exponents.
pub open spec fn plain_step(s: Scan, c: char) -> Scan {
    let base = Scan { mode: Mode::Plain, pending: None, after_comma: false, ..s };
    if is_space(c) {
        Scan { mode: Mode::Plain, ..s }
    } else if c == '"' {
        Scan { mode: Mode::Text { len: 0 }, ..base }
    } else if c == ':' {
        match s.pending {
            Some(len) => if s.levels.len() > 0 {
                keyed(base, len)
            } else {
                base
            },
            None => base,
        }
    } else if c == '[' || c == '{' {
        if s.levels.len() >= MAX_NESTING {
            broke(base)
        } else {
            Scan { levels: s.levels.push(Level { array: c == '[', key: 0, commas: 0 }), ..base }
        }
    } else if c == '}' && s.after_comma {
        broke(base)
    } else if c == ']' || c == '}' {
        if s.levels.len() > 0 {
            Scan { levels: s.levels.drop_last(), ..base }
        } else {
            base
        }
    } else if c == ',' {
        if s.levels.len() > 0 {
            parted(Scan { after_comma: true, ..base })
        } else {
            Scan { after_comma: true, ..base }
        }
    } else if c == 'e' || c == 'E' {
        Scan { mode: Mode::Sign, ..base }
    } else {
        base
    }
}

/// The scan after one more character where an exponent spells `value` so
/// far: a digit must leave the exponent within what a `usize` holds, and
/// any other character ends the number.
pub open spec fn exponent_step(s: Scan, value: usize, c: char) -> Scan {
    match decimal_digit(c) {
        Some(digit) => if value * 10 + digit > usize::MAX {
            broke(s)
        } else {
            Scan { mode: Mode::Exponent { value: (value * 10 + digit) as usize }, ..s }
        },
        None => plain_step(s, c),
    }
}

/// The scan after one more character.
pub open spec fn step(s: Scan, c: char) -> Scan {
    if s.broken {
        s
    } else {
        match s.mode {
            Mode::Plain => plain_step(s, c),
            Mode::Text { len } => if c == '"' {
                Scan { mode: Mode::Plain, pending: Some(len), ..s }
            } else if c == '\\' {
                Scan { mode: Mode::Escape { len: len }, ..s }
            } else {
                Scan { mode: Mode::Text { len: grown(len, char_bytes(c)) }, ..s }
            },
            Mode::Escape { len } => if c == 'u' {
                Scan { mode: Mode::Hex { len: len, left: 4, value: 0 }, ..s }
            } else {
                Scan { mode: Mode::Text { len: grown(len, 1) }, ..s }
            },
            Mode::Hex { len, left, value } => match hex_digit(c) {
                Some(digit) => if left <= 1 {
                    Scan {
                        mode: Mode::Text {
                            len: grown(len, escape_bytes(shifted(value, digit))),
                        },
                        ..s
                    }
                } else {
                    Scan {
                        mode: Mode::Hex {
                            len: len,
                            left: (left - 1) as u8,
                            value: shifted(value, digit),
                        },
                        ..s
                    }
                },
                None => Scan { mode: Mode::Text { len: grown(len, 3) }, ..s },
            },
            Mode::Sign => if c == '+' || c == '-' {
                Scan { mode: Mode::Exponent { value: 0 }, ..s }
            } else {
                exponent_step(s, 0, c)
            },
            Mode::Exponent { value } => exponent_step(s, value, c),
        }
    }
}

/// The scan after the whole text.
pub open spec fn run(text: Seq<char>) -> Scan
    decreases text.len(),
{
    if text.len() == 0 {
        start()
    } else {
        step(run(text.drop_last()), text.last())
    }
}

/// Whether the parser can take the text. It can where, outside strings,
/// no more than `MAX_NESTING` arrays and objects are open at one time, the
/// keys of the open objects never have more than `KEY_LIMIT` bytes
/// together, no exponent is beyond a `usize`, no array has more commas than
/// an index of 32 bits counts, and no comma is followed by `}`.
pub open spec fn admissible(text: Seq<char>) -> bool {
    !run(text).broken
}

/// A scan that has gone wrong stays so.
pub proof fn lemma_broken_stays(text: Seq<char>, n: int)
    requires
        0 <= n <= text.len(),
        run(text.take(n)).broken,
    ensures
        run(text).broken,
    decreases text.len() - n,
{
    if n < text.len() {
        assert(text.take(n + 1).drop_last() =~= text.take(n));
        lemma_broken_stays(text, n + 1);
    } else {
        assert(text.take(n) =~= text);
    }
}

/// The keys never count less than nothing.
pub proof fn lemma_key_bytes_positive(levels: Seq<Level>)
    ensures
        key_bytes(levels) >= 0,
    decreases levels.len(),
{
    if levels.len() > 0 {
        lemma_key_bytes_positive(levels.drop_last());
    }
}

/// Changing the innermost level changes the count by that level's key.
pub proof fn lemma_key_bytes_update(levels: Seq<Level>, level: Level)
    requires
        levels.len() > 0,
    ensures
        key_bytes(levels.update(levels.len() - 1, level)) == key_bytes(levels) - levels.last().key
            + level.key,
{
    let changed = levels.update(levels.len() - 1, level);
    assert(changed.drop_last() =~= levels.drop_last());
}

/// The scan as it runs.
struct Scanner {
    levels: Vec<Level>,
    total: usize,
    mode: Mode,
    pending: Option<usize>,
    after_comma: bool,
}

impl Scanner {
    spec fn model(&self) -> Scan {
        Scan {
            levels: self.levels@,
            mode: self.mode,
            pending: self.pending,
            after_comma: self.after_comma,
            broken: false,
        }
    }

    spec fn inv(&self) -> bool {
        self.total == key_bytes(self.levels@) && self.total <= KEY_LIMIT
    }

    fn new() -> (s: Scanner)
        ensures
            s.inv(),
            s.model() == start(),
    {
        Scanner {
            levels: Vec::new(),
            total: 0,
            mode: Mode::Plain,
            pending: None,
            after_comma: false,
        }
    }

    /// One more character outside strings and exponents; `false` where the
    /// scan goes wrong.
    fn plain(&mut self, c: char) -> (ok: bool)
        requires
            old(self).inv(),
        ensures
            ok ==> final(self).inv() && final(self).model() == plain_step(old(self).model(), c),
            !ok ==> plain_step(old(self).model(), c).broken,
    {
        self.mode = Mode::Plain;
        if c == ' ' || c == '\n' || c == '\t' || c == '\r' {
            return true;
        }
        let pending = self.pending;
        let after_comma = self.after_comma;
        self.pending = None;
        self.after_comma = false;
        let depth = self.levels.len();
        proof {
            lemma_key_bytes_positive(self.levels@);
            if depth > 0 {
                lemma_key_bytes_positive(self.levels@.drop_last());
            }
        }
        if c == '"' {
            self.mode = Mode::Text { len: 0 };
            true
        } else if c == ':' {
            match pending {
                Some(len) => {
                    if depth > 0 {
                        let top = self.levels[depth - 1];
                        let level = Level { array: top.array, key: len, commas: top.commas };
                        proof {
                            lemma_key_bytes_update(self.levels@, level);
                        }
                        if len > KEY_LIMIT || self.total - top.key > KEY_LIMIT - len {
                            return false;
                        }
                        self.total = self.total - top.key + len;
                        self.levels.set(depth - 1, level);
                    }
                    true
                },
                None => true,
            }
        } else if c == '[' || c == '{' {
            if depth >= MAX_NESTING {
                return false;
            }
            let level = Level { array: c == '[', key: 0, commas: 0 };
            proof {
                assert(self.levels@.push(level).drop_last() =~= self.levels@);
            }
            self.levels.push(level);
            true
        } else if c == '}' && after_comma {
            false
        } else if c == ']' || c == '}' {
            if depth > 0 {
                let top = self.levels[depth - 1];
                self.total = self.total - top.key;
                self.levels.pop();
            }
            true
        } else if c == ',' {
            self.after_comma = true;
            if depth > 0 {
                let top = self.levels[depth - 1];
                if top.array && top.commas == u32::MAX {
                    return false;
                }
                let commas: u32 = if top.array {
                    top.commas + 1
                } else {
                    top.commas
                };
                let level = Level { array: top.array, key: 0, commas: commas };
                proof {
                    lemma_key_bytes_update(self.levels@, level);
                }
                self.total = self.total - top.key;
                self.levels.set(depth - 1, level);
            }
            true
        } else if c == 'e' || c == 'E' {
            self.mode = Mode::Sign;
            true
        } else {
            true
        }
    }

    /// One more character of an exponent that spells `value` so far.
    fn exponent(&mut self, value: usize, c: char) -> (ok: bool)
        requires
            old(self).inv(),
        ensures
            ok ==> final(self).inv() && final(self).model() == exponent_step(
                old(self).model(),
                value,
                c,
            ),
            !ok ==> exponent_step(old(self).model(), value, c).broken,
    {
        let v: u32 = c as u32;
        if 0x30 <= v && v <= 0x39 {
            let digit: usize = (v - 0x30) as usize;
            if value > (usize::MAX - digit) / 10 {
                assert(value * 10 + digit > usize::MAX) by (nonlinear_arith)
                    requires
                        value > (usize::MAX - digit) / 10,
                        0 <= digit <= 9,
                ;
                return false;
            }
            assert(value * 10 + digit <= usize::MAX) by (nonlinear_arith)
                requires
                    value <= (usize::MAX - digit) / 10,
                    0 <= digit <= 9,
            ;
            self.mode = Mode::Exponent { value: value * 10 + digit };
            true
        } else {
            self.plain(c)
        }
    }

    /// One more character.
    fn feed(&mut self, c: char) -> (ok: bool)
        requires
            old(self).inv(),
        ensures
            ok ==> final(self).inv() && final(self).model() == step(old(self).model(), c),
            !ok ==> step(old(self).model(), c).broken,
    {
        match self.mode {
            Mode::Plain => self.plain(c),
            Mode::Text { len } => {
                if c == '"' {
                    self.mode = Mode::Plain;
                    self.pending = Some(len);
                } else if c == '\\' {
                    self.mode = Mode::Escape { len: len };
                } else {
                    self.mode = Mode::Text { len: longer(len, utf8_len(c)) };
                }
                true
            },
            Mode::Escape { len } => {
                if c == 'u' {
                    self.mode = Mode::Hex { len: len, left: 4, value: 0 };
                } else {
                    self.mode = Mode::Text { len: longer(len, 1) };
                }
                true
            },
            Mode::Hex { len, left, value } => {
                match hex_value(c) {
                    Some(digit) => {
                        let value = shift(value, digit);
                        if left <= 1 {
                            self.mode = Mode::Text { len: longer(len, escape_len(value)) };
                        } else {
                            self.mode = Mode::Hex { len: len, left: left - 1, value: value };
                        }
                    },
                    None => {
                        self.mode = Mode::Text { len: longer(len, 3) };
                    },
                }
                true
            },
            Mode::Sign => {
                if c == '+' || c == '-' {
                    self.mode = Mode::Exponent { value: 0 };
                    true
                } else {
                    self.exponent(0, c)
                }
            },
            Mode::Exponent { value } => self.exponent(value, c),
        }
    }
}

/// The bytes that a character takes in UTF-8.
fn utf8_len(c: char) -> (bytes: usize)
    ensures
        bytes == char_bytes(c),
{
    let v: u32 = c as u32;
    if v < 0x80 {
        1
    } else if v < 0x800 {
        2
    } else if v < 0x10000 {
        3
    } else {
        4
    }
}

/// The bytes that a `\u` escape of the given value adds to a string.
fn escape_len(value: u16) -> (bytes: usize)
    ensures
        bytes == escape_bytes(value),
{
    if value < 0x80 {
        1
    } else if value < 0x800 {
        2
    } else if 0xD800 <= value && value < 0xE000 {
        2
    } else {
        3
    }
}

/// A string length grown by up to four bytes.
fn longer(len: usize, bytes: usize) -> (sum: usize)
    requires
        bytes <= 4,
    ensures
        sum == grown(len, bytes as int),
{
    if len > KEY_LIMIT || bytes > KEY_LIMIT - len {
        KEY_LIMIT + 1
    } else {
        len + bytes
    }
}

/// The value of a hexadecimal digit.
fn hex_value(c: char) -> (digit: Option<u16>)
    ensures
        digit == hex_digit(c),
        digit matches Some(d) ==> d < 16,
{
    let v: u32 = c as u32;
    if 0x30 <= v && v <= 0x39 {
        Some((v - 0x30) as u16)
    } else if 0x61 <= v && v <= 0x66 {
        Some((v - 0x61 + 10) as u16)
    } else if 0x41 <= v && v <= 0x46 {
        Some((v - 0x41 + 10) as u16)
    } else {
        None
    }
}

/// A hexadecimal value with one more digit.
fn shift(value: u16, digit: u16) -> (next: u16)
    requires
        digit < 16,
    ensures
        next == shifted(value, digit),
{
    let wide: u32 = value as u32 * 16 + digit as u32;
    if wide > 0xFFFF {
        0xFFFF
    } else {
        wide as u16
    }
}

/// Whether the parser can take the text.
pub fn admits(text: &str) -> (ok: bool)
    ensures
        ok == admissible(text@),
{
    let mut scanner = Scanner::new();
    for c in it: text.chars()
        invariant
            it.seq() == text@,
            scanner.inv(),
            scanner.model() == run(text@.take(it.index() as int)),
    {
        proof {
            assert(text@.take(it.index() + 1).drop_last() =~= text@.take(it.index() as int));
        }
        if !scanner.feed(c) {
            proof {
                lemma_broken_stays(text@, it.index() + 1);
            }
            return false;
        }
    }
    assert(text@.take(text@.len() as int) =~= text@);
    true
}

} // verus!
