//! The metadata record a tool emits in its "metadata" mode, and its
//! structured text format.
//!
//! The record is rendered as pretty-printed JSON with the fields
//! `name`, `description`, `requires_fho` and `fho_details`; string
//! fields are escaped, and the reader below inverts the writer, which
//! `lemma_metadata_round_trip` proves.

use vstd::prelude::*;

use crate::strutil::{
    append_str, chars_to_string, dec_digits, digit_char, digit_to_char, digit_val, format_u64,
    is_digit_char, push_char, str_to_chars,
};
use crate::FhoVersion;

verus! {

/// A tool's command-surface description: what the "metadata" subcommand
/// writes, independent of any running instance.
#[derive(Debug, Clone)]
pub struct FhoToolMetadata {
    /// The tool's subcommand name.
    pub name: String,
    /// The tool's one-line description.
    pub description: String,
    /// Minimum framework version required to run the tool.
    pub requires_fho: u64,
    /// Details of the framework version marker.
    pub fho_details: FhoVersion,
}

/// The mathematical content of a metadata record.
pub struct MetadataView {
    pub name: Seq<char>,
    pub description: Seq<char>,
    pub requires_fho: u64,
    pub fho_details: FhoVersion,
}

impl View for FhoToolMetadata {
    type V = MetadataView;

    open spec fn view(&self) -> MetadataView {
        MetadataView {
            name: self.name@,
            description: self.description@,
            requires_fho: self.requires_fho,
            fho_details: self.fho_details,
        }
    }
}

impl FhoToolMetadata {
    /// A metadata record for a tool of this name and description, at the
    /// current framework version.
    pub fn new(name: String, description: String) -> (m: FhoToolMetadata)
        ensures
            m@.name == name@,
            m@.description == description@,
            m@.requires_fho == 0,
            m@.fho_details == FhoVersion::FhoVersion0,
    {
        FhoToolMetadata { name, description, requires_fho: 0, fho_details: FhoVersion::FhoVersion0 }
    }
}

/// How one character is written inside a JSON string literal.
/// The lowercase hexadecimal digit character for a value in `0 ..= 15`.
pub open spec fn hex_digit_char(d: int) -> char {
    if d < 10 {
        digit_char(d)
    } else if d == 10 {
        'a'
    } else if d == 11 {
        'b'
    } else if d == 12 {
        'c'
    } else if d == 13 {
        'd'
    } else if d == 14 {
        'e'
    } else {
        'f'
    }
}

/// True for the sixteen lowercase hexadecimal digit characters.
pub open spec fn is_hex_digit(c: char) -> bool {
    is_digit_char(c) || c == 'a' || c == 'b' || c == 'c' || c == 'd' || c == 'e' || c == 'f'
}

/// The numeric value of a lowercase hexadecimal digit character.
pub open spec fn hex_val(c: char) -> int {
    if c == 'a' {
        10
    } else if c == 'b' {
        11
    } else if c == 'c' {
        12
    } else if c == 'd' {
        13
    } else if c == 'e' {
        14
    } else if c == 'f' {
        15
    } else {
        digit_val(c)
    }
}

/// True for the control characters, which may not stand raw inside a
/// JSON string literal.
pub open spec fn is_control(c: char) -> bool {
    (c as u32) < 32
}

pub open spec fn esc_char(c: char) -> Seq<char> {
    if c == '"' {
        seq!['\\', '"']
    } else if c == '\\' {
        seq!['\\', '\\']
    } else if c == '\n' {
        seq!['\\', 'n']
    } else if c == '\t' {
        seq!['\\', 't']
    } else if c == '\r' {
        seq!['\\', 'r']
    } else if is_control(c) {
        seq![
            '\\',
            'u',
            '0',
            '0',
            hex_digit_char((c as u32) as int / 16),
            hex_digit_char((c as u32) as int % 16),
        ]
    } else {
        seq![c]
    }
}

/// How a whole string is written inside a JSON string literal.
pub open spec fn escape(s: Seq<char>) -> Seq<char>
    decreases s.len(),
{
    if s.len() == 0 {
        Seq::empty()
    } else {
        esc_char(s[0]) + escape(s.skip(1))
    }
}

/// Escaping distributes over extension at the right end.
pub proof fn lemma_escape_push(s: Seq<char>, c: char)
    ensures
        escape(s.push(c)) == escape(s) + esc_char(c),
    decreases s.len(),
{
    if s.len() == 0 {
        assert(s.push(c).skip(1) =~= Seq::<char>::empty());
        assert(s.push(c)[0] == c);
        assert(escape(s.push(c)) == esc_char(c) + escape(Seq::<char>::empty()));
        assert(escape(Seq::<char>::empty()) == Seq::<char>::empty());
        assert(escape(s) == Seq::<char>::empty());
        assert(escape(s.push(c)) =~= escape(s) + esc_char(c));
    } else {
        assert(s.push(c).skip(1) =~= s.skip(1).push(c));
        lemma_escape_push(s.skip(1), c);
        assert(escape(s.push(c)) =~= escape(s) + esc_char(c));
    }
}

pub open spec fn json_head() -> Seq<char> {
    "{\n  \"name\": \""@
}

pub open spec fn json_mid_description() -> Seq<char> {
    ",\n  \"description\": \""@
}

pub open spec fn json_mid_requires() -> Seq<char> {
    ",\n  \"requires_fho\": "@
}

pub open spec fn json_tail() -> Seq<char> {
    ",\n  \"fho_details\": {\n    \"FhoVersion0\": {}\n  }\n}"@
}

/// The full serialized text of a metadata record. Each string field is
/// escaped and closed by its quote; the skeleton around the fields is
/// fixed text.
pub open spec fn metadata_json(m: MetadataView) -> Seq<char> {
    json_head() + escape(m.name) + seq!['"'] + json_mid_description() + escape(m.description)
        + seq!['"'] + json_mid_requires() + dec_digits(m.requires_fho as int) + json_tail()
}

/// The lowercase hexadecimal digit character for a value below sixteen.
fn hex_char_of(d: u32) -> (c: char)
    requires
        d < 16,
    ensures
        c == hex_digit_char(d as int),
{
    if d == 0 {
        '0'
    } else if d == 1 {
        '1'
    } else if d == 2 {
        '2'
    } else if d == 3 {
        '3'
    } else if d == 4 {
        '4'
    } else if d == 5 {
        '5'
    } else if d == 6 {
        '6'
    } else if d == 7 {
        '7'
    } else if d == 8 {
        '8'
    } else if d == 9 {
        '9'
    } else if d == 10 {
        'a'
    } else if d == 11 {
        'b'
    } else if d == 12 {
        'c'
    } else if d == 13 {
        'd'
    } else if d == 14 {
        'e'
    } else {
        'f'
    }
}

/// Escapes `s` for inclusion in a JSON string literal.
fn escape_str(s: &str) -> (r: Vec<char>)
    ensures
        r@ == escape(s@),
{
    let chars = str_to_chars(s);
    let mut out: Vec<char> = Vec::new();
    let mut i: usize = 0;
    while i < chars.len()
        invariant
            i <= chars.len(),
            chars@ == s@,
            out@ == escape(s@.subrange(0, i as int)),
        decreases chars.len() - i,
    {
        let c = chars[i];
        if c == '"' {
            out.push('\\');
            out.push('"');
        } else if c == '\\' {
            out.push('\\');
            out.push('\\');
        } else if c == '\n' {
            out.push('\\');
            out.push('n');
        } else if c == '\t' {
            out.push('\\');
            out.push('t');
        } else if c == '\r' {
            out.push('\\');
            out.push('r');
        } else if (c as u32) < 32 {
            let code = c as u32;
            out.push('\\');
            out.push('u');
            out.push('0');
            out.push('0');
            out.push(hex_char_of(code / 16));
            out.push(hex_char_of(code % 16));
        } else {
            out.push(c);
        }
        proof {
            let pre = s@.subrange(0, i as int);
            lemma_escape_push(pre, c);
            assert(pre.push(c) =~= s@.subrange(0, i as int + 1));
            assert(out@ =~= escape(s@.subrange(0, i as int + 1)));
        }
        i = i + 1;
    }
    proof {
        assert(s@.subrange(0, s@.len() as int) =~= s@);
    }
    out
}

impl FhoToolMetadata {
    /// Serializes the record as pretty-printed JSON text.
    pub fn to_json(&self) -> (r: String)
        ensures
            r@ == metadata_json(self@),
    {
        let mut out = String::new();
        append_str(&mut out, "{\n  \"name\": \"");
        let escaped_name = chars_to_string(&escape_str(self.name.as_str()));
        append_str(&mut out, escaped_name.as_str());
        push_char(&mut out, '"');
        append_str(&mut out, ",\n  \"description\": \"");
        let escaped_desc = chars_to_string(&escape_str(self.description.as_str()));
        append_str(&mut out, escaped_desc.as_str());
        push_char(&mut out, '"');
        append_str(&mut out, ",\n  \"requires_fho\": ");
        let digits = format_u64(self.requires_fho);
        append_str(&mut out, digits.as_str());
        append_str(&mut out, ",\n  \"fho_details\": {\n    \"FhoVersion0\": {}\n  }\n}");
        proof {
            assert(out@ =~= metadata_json(self@));
        }
        out
    }
}

/// `Some(rest)` when `p` is a prefix of `s` and `rest` is what follows it.
pub open spec fn strip_prefix(s: Seq<char>, p: Seq<char>) -> Option<Seq<char>> {
    if p.len() <= s.len() && s.subrange(0, p.len() as int) == p {
        Some(s.skip(p.len() as int))
    } else {
        None
    }
}

/// The characters allowed after a backslash in a string literal.
pub open spec fn is_escape_code(c: char) -> bool {
    c == '"' || c == '\\' || c == 'n' || c == 't' || c == 'r'
}

/// The character an escape code stands for.
pub open spec fn unescape_code(c: char) -> char {
    if c == '"' {
        '"'
    } else if c == '\\' {
        '\\'
    } else if c == 'n' {
        '\n'
    } else if c == 't' {
        '\t'
    } else {
        '\r'
    }
}

/// Reads a string-literal body up to and including its closing quote;
/// yields the decoded characters and the text after the quote.
pub open spec fn parse_string_body(s: Seq<char>) -> Option<(Seq<char>, Seq<char>)>
    decreases s.len(),
{
    if s.len() == 0 {
        None
    } else if s[0] == '"' {
        Some((Seq::empty(), s.skip(1)))
    } else if s[0] == '\\' {
        if s.len() >= 6 && s[1] == 'u' && s[2] == '0' && s[3] == '0' && is_hex_digit(s[4])
            && is_hex_digit(s[5]) && 16 * hex_val(s[4]) + hex_val(s[5]) < 32 {
            match parse_string_body(s.skip(6)) {
                Some(p) => Some(
                    (seq![(((16 * hex_val(s[4]) + hex_val(s[5])) as u8) as char)] + p.0, p.1),
                ),
                None => None,
            }
        } else if s.len() >= 2 && is_escape_code(s[1]) {
            match parse_string_body(s.skip(2)) {
                Some(p) => Some((seq![unescape_code(s[1])] + p.0, p.1)),
                None => None,
            }
        } else {
            None
        }
    } else {
        match parse_string_body(s.skip(1)) {
            Some(p) => Some((seq![s[0]] + p.0, p.1)),
            None => None,
        }
    }
}

/// How many decimal digit characters stand at the front of `s`.
pub open spec fn digits_prefix_len(s: Seq<char>) -> nat
    decreases s.len(),
{
    if s.len() > 0 && is_digit_char(s[0]) {
        1 + digits_prefix_len(s.skip(1))
    } else {
        0
    }
}

/// The value of a run of decimal digit characters, most significant first.
pub open spec fn dec_value(ds: Seq<char>) -> int
    decreases ds.len(),
{
    if ds.len() == 0 {
        0
    } else {
        dec_value(ds.drop_last()) * 10 + digit_val(ds.last())
    }
}

/// Ten raised to a non-negative power.
pub open spec fn pow10(k: nat) -> int
    decreases k,
{
    if k == 0 {
        1
    } else {
        10 * pow10((k - 1) as nat)
    }
}

/// The digit limit the number reader accepts; every value below
/// `pow10(MAX_NUMBER_DIGITS)` fits comfortably in `u64`.
pub const MAX_NUMBER_DIGITS: usize = 18;

/// Reads a decimal number from the front of `s`: its value and the text
/// after the digits. Rejects empty digit runs and runs too long to fit.
pub open spec fn parse_number(s: Seq<char>) -> Option<(int, Seq<char>)> {
    let k = digits_prefix_len(s);
    if k == 0 || k > MAX_NUMBER_DIGITS {
        None
    } else {
        Some((dec_value(s.subrange(0, k as int)), s.skip(k as int)))
    }
}

/// Matches `lit` at position `i` of `v`; yields the position after it.
fn expect_lit(v: &Vec<char>, i: usize, lit: &str) -> (r: Option<usize>)
    requires
        i <= v@.len(),
    ensures
        match r {
            Some(j) => i <= j <= v@.len() && strip_prefix(v@.skip(i as int), lit@) == Some(
                v@.skip(j as int),
            ),
            None => strip_prefix(v@.skip(i as int), lit@) is None,
        },
{
    let n = lit.unicode_len();
    let vn = v.len();
    if vn - i < n {
        proof {
            assert(v@.skip(i as int).len() < lit@.len());
        }
        return None;
    }
    let mut k: usize = 0;
    while k < n
        invariant
            k <= n,
            i <= v@.len(),
            n == lit@.len(),
            vn == v@.len(),
            i + n <= vn,
            forall|j: int| 0 <= j < k ==> v@.skip(i as int)[j] == lit@[j],
        decreases n - k,
    {
        if v[i + k] != lit.get_char(k) {
            proof {
                assert(v@.skip(i as int)[k as int] != lit@[k as int]);
                assert(v@.skip(i as int).subrange(0, lit@.len() as int) != lit@);
            }
            return None;
        }
        k = k + 1;
    }
    proof {
        assert(v@.skip(i as int).subrange(0, lit@.len() as int) =~= lit@);
        assert(v@.skip(i as int).skip(lit@.len() as int) =~= v@.skip(i as int + n as int));
    }
    Some(i + n)
}

/// The value of a lowercase hexadecimal digit character, if it is one.
fn hex_digit_val(c: char) -> (r: Option<u32>)
    ensures
        match r {
            Some(d) => is_hex_digit(c) && d < 16 && d as int == hex_val(c),
            None => !is_hex_digit(c),
        },
{
    if c == '0' {
        Some(0)
    } else if c == '1' {
        Some(1)
    } else if c == '2' {
        Some(2)
    } else if c == '3' {
        Some(3)
    } else if c == '4' {
        Some(4)
    } else if c == '5' {
        Some(5)
    } else if c == '6' {
        Some(6)
    } else if c == '7' {
        Some(7)
    } else if c == '8' {
        Some(8)
    } else if c == '9' {
        Some(9)
    } else if c == 'a' {
        Some(10)
    } else if c == 'b' {
        Some(11)
    } else if c == 'c' {
        Some(12)
    } else if c == 'd' {
        Some(13)
    } else if c == 'e' {
        Some(14)
    } else if c == 'f' {
        Some(15)
    } else {
        None
    }
}

/// Reads a string-literal body starting at position `i` of `v`; yields
/// the decoded characters and the position after the closing quote.
fn read_string_body(v: &Vec<char>, i: usize) -> (r: Option<(Vec<char>, usize)>)
    requires
        i <= v@.len(),
    ensures
        match r {
            Some(p) => i < p.1 <= v@.len() && parse_string_body(v@.skip(i as int)) == Some(
                (p.0@, v@.skip(p.1 as int)),
            ),
            None => parse_string_body(v@.skip(i as int)) is None,
        },
    decreases v@.len() - i,
{
    if i == v.len() {
        return None;
    }
    let c = v[i];
    proof {
        assert(v@.skip(i as int)[0] == c);
    }
    if c == '"' {
        proof {
            assert(v@.skip(i as int).skip(1) =~= v@.skip(i as int + 1));
        }
        return Some((Vec::new(), i + 1));
    }
    if c == '\\' {
        if i + 1 == v.len() {
            proof {
                assert(v@.skip(i as int).len() < 2);
            }
            return None;
        }
        let e = v[i + 1];
        proof {
            assert(v@.skip(i as int)[1] == e);
        }
        if e == 'u' {
            let vn = v.len();
            if vn - i < 6 {
                proof {
                    assert(v@.skip(i as int).len() < 6);
                }
                return None;
            }
            proof {
                assert(v@.skip(i as int)[2] == v@[i + 2]);
                assert(v@.skip(i as int)[3] == v@[i + 3]);
                assert(v@.skip(i as int)[4] == v@[i + 4]);
                assert(v@.skip(i as int)[5] == v@[i + 5]);
            }
            if v[i + 2] != '0' || v[i + 3] != '0' {
                return None;
            }
            let d_hi = match hex_digit_val(v[i + 4]) {
                Some(d) => d,
                None => {
                    return None;
                },
            };
            let d_lo = match hex_digit_val(v[i + 5]) {
                Some(d) => d,
                None => {
                    return None;
                },
            };
            if d_hi >= 2 {
                proof {
                    assert(16 * hex_val(v@.skip(i as int)[4]) + hex_val(v@.skip(i as int)[5])
                        >= 32);
                }
                return None;
            }
            let code: u32 = 16 * d_hi + d_lo;
            let decoded: char = (code as u8) as char;
            proof {
                assert(v@.skip(i as int).skip(6) =~= v@.skip(i as int + 6));
            }
            match read_string_body(v, i + 6) {
                Some((mut body, j)) => {
                    body.insert(0, decoded);
                    proof {
                        assert(body@ =~= seq![decoded] + body@.skip(1));
                    }
                    Some((body, j))
                },
                None => None,
            }
        } else {
            let decoded: char = if e == '"' {
                '"'
            } else if e == '\\' {
                '\\'
            } else if e == 'n' {
                '\n'
            } else if e == 't' {
                '\t'
            } else if e == 'r' {
                '\r'
            } else {
                return None;
            };
            proof {
                assert(is_escape_code(e) && decoded == unescape_code(e));
                assert(v@.skip(i as int).skip(2) =~= v@.skip(i as int + 2));
            }
            match read_string_body(v, i + 2) {
                Some((mut body, j)) => {
                    body.insert(0, decoded);
                    proof {
                        assert(body@ =~= seq![unescape_code(e)] + body@.skip(1));
                    }
                    Some((body, j))
                },
                None => None,
            }
        }
    } else {
        proof {
            assert(v@.skip(i as int).skip(1) =~= v@.skip(i as int + 1));
        }
        match read_string_body(v, i + 1) {
            Some((mut body, j)) => {
                body.insert(0, c);
                proof {
                    assert(body@ =~= seq![c] + body@.skip(1));
                }
                Some((body, j))
            },
            None => None,
        }
    }
}

/// `pow10` is positive.
pub proof fn lemma_pow10_pos(k: nat)
    ensures
        pow10(k) >= 1,
    decreases k,
{
    if k > 0 {
        lemma_pow10_pos((k - 1) as nat);
    }
}

/// `pow10` is monotone.
pub proof fn lemma_pow10_mono(a: nat, b: nat)
    requires
        a <= b,
    ensures
        pow10(a) <= pow10(b),
    decreases b,
{
    if a < b {
        lemma_pow10_mono(a, (b - 1) as nat);
        lemma_pow10_pos((b - 1) as nat);
    }
}

/// A run of digit characters has a value below `pow10` of its length.
pub proof fn lemma_dec_value_bound(ds: Seq<char>)
    requires
        forall|j: int| 0 <= j < ds.len() ==> is_digit_char(#[trigger] ds[j]),
    ensures
        0 <= dec_value(ds) < pow10(ds.len()),
    decreases ds.len(),
{
    if ds.len() > 0 {
        lemma_dec_value_bound(ds.drop_last());
        assert(is_digit_char(ds.last()));
        assert(0 <= digit_val(ds.last()) <= 9);
    }
}

/// The digit-run length is exactly the position of the first non-digit.
pub proof fn lemma_digits_prefix_len_is(s: Seq<char>, k: nat)
    requires
        k <= s.len(),
        forall|j: int| 0 <= j < k ==> is_digit_char(#[trigger] s[j]),
        k < s.len() ==> !is_digit_char(s[k as int]),
    ensures
        digits_prefix_len(s) == k,
    decreases k,
{
    if k == 0 {
    } else {
        assert(is_digit_char(s[0]));
        lemma_digits_prefix_len_is(s.skip(1), (k - 1) as nat);
    }
}

/// The digit value of a character, if it is one.
fn char_digit(c: char) -> (r: Option<u64>)
    ensures
        match r {
            Some(d) => is_digit_char(c) && d < 10 && d as int == digit_val(c),
            None => !is_digit_char(c),
        },
{
    if c == '0' {
        Some(0)
    } else if c == '1' {
        Some(1)
    } else if c == '2' {
        Some(2)
    } else if c == '3' {
        Some(3)
    } else if c == '4' {
        Some(4)
    } else if c == '5' {
        Some(5)
    } else if c == '6' {
        Some(6)
    } else if c == '7' {
        Some(7)
    } else if c == '8' {
        Some(8)
    } else if c == '9' {
        Some(9)
    } else {
        None
    }
}

/// Reads a decimal number starting at position `i` of `v`; yields the
/// value and the position after the digits.
fn read_number(v: &Vec<char>, i: usize) -> (r: Option<(u64, usize)>)
    requires
        i <= v@.len(),
    ensures
        match r {
            Some(p) => i < p.1 <= v@.len() && parse_number(v@.skip(i as int)) == Some(
                (p.0 as int, v@.skip(p.1 as int)),
            ),
            None => parse_number(v@.skip(i as int)) is None,
        },
{
    let ghost s = v@.skip(i as int);
    let vn = v.len();
    let mut j: usize = i;
    while j < vn && char_digit(v[j]).is_some()
        invariant
            i <= j <= vn,
            vn == v@.len(),
            s == v@.skip(i as int),
            forall|t: int| 0 <= t < j - i ==> is_digit_char(#[trigger] s[t]),
        decreases vn - j,
    {
        j = j + 1;
    }
    proof {
        lemma_digits_prefix_len_is(s, (j - i) as nat);
    }
    let k = j - i;
    if k == 0 || k > MAX_NUMBER_DIGITS {
        return None;
    }
    let ghost ds = s.subrange(0, k as int);
    let mut acc: u64 = 0;
    let mut t: usize = 0;
    while t < k
        invariant
            t <= k,
            k <= MAX_NUMBER_DIGITS,
            i + k <= vn,
            vn == v@.len(),
            s == v@.skip(i as int),
            ds == s.subrange(0, k as int),
            forall|u: int| 0 <= u < k ==> is_digit_char(#[trigger] s[u]),
            acc as int == dec_value(s.subrange(0, t as int)),
            pow10(t as nat) > acc as int,
        decreases k - t,
    {
        let d = match char_digit(v[i + t]) {
            Some(d) => d,
            None => {
                proof {
                    assert(is_digit_char(s[t as int]));
                    assert(s[t as int] == v@[i + t]);
                }
                unreached()
            },
        };
        proof {
            assert(s[t as int] == v@[i + t]);
            assert(s.subrange(0, t as int + 1).drop_last() =~= s.subrange(0, t as int));
            assert(s.subrange(0, t as int + 1).last() == s[t as int]);
            lemma_pow10_mono(t as nat, 17);
            reveal_with_fuel(pow10, 19);
            assert(pow10(17) == 100_000_000_000_000_000int);
        }
        acc = acc * 10 + d;
        t = t + 1;
    }
    proof {
        assert(s.subrange(0, k as int) == ds);
        assert(s.skip(k as int) =~= v@.skip(j as int));
    }
    Some((acc, j))
}

/// Reads a whole metadata record; `None` unless the full text has the
/// shape the writer produces.
pub open spec fn parse_metadata(s: Seq<char>) -> Option<MetadataView> {
    match strip_prefix(s, json_head()) {
        None => None,
        Some(r1) => match parse_string_body(r1) {
            None => None,
            Some((name, r2)) => match strip_prefix(r2, json_mid_description()) {
                None => None,
                Some(r3) => match parse_string_body(r3) {
                    None => None,
                    Some((description, r4)) => match strip_prefix(r4, json_mid_requires()) {
                        None => None,
                        Some(r5) => match parse_number(r5) {
                            None => None,
                            Some((value, r6)) => match strip_prefix(r6, json_tail()) {
                                None => None,
                                Some(r7) => if r7.len() == 0 {
                                    Some(
                                        MetadataView {
                                            name,
                                            description,
                                            requires_fho: value as u64,
                                            fho_details: FhoVersion::FhoVersion0,
                                        },
                                    )
                                } else {
                                    None
                                },
                            },
                        },
                    },
                },
            },
        },
    }
}

/// Stripping a prefix off a concatenation that starts with it yields the rest.
pub proof fn lemma_strip_prefix_concat(p: Seq<char>, rest: Seq<char>)
    ensures
        strip_prefix(p + rest, p) == Some(rest),
{
    assert((p + rest).subrange(0, p.len() as int) =~= p);
    assert((p + rest).skip(p.len() as int) =~= rest);
}

/// Casting a low codepoint down to a byte and back yields the character.
pub proof fn lemma_char_cast_round(c: char)
    requires
        (c as u32) < 128,
    ensures
        (((c as u32) as u8) as char) == c,
{
}

/// The hexadecimal value of a hexadecimal digit character is the digit.
pub proof fn lemma_hex_digit_char_val(d: int)
    requires
        0 <= d <= 15,
    ensures
        is_hex_digit(hex_digit_char(d)),
        hex_val(hex_digit_char(d)) == d,
{
    if d < 10 {
        lemma_digit_char_val(d);
    }
}

/// Reading a string body undoes escaping: the decoded characters are the
/// original ones and reading stops exactly at the closing quote.
pub proof fn lemma_parse_string_body_escape(s: Seq<char>, rest: Seq<char>)
    ensures
        parse_string_body(escape(s) + seq!['"'] + rest) == Some((s, rest)),
    decreases s.len(),
{
    let input = escape(s) + seq!['"'] + rest;
    if s.len() == 0 {
        assert(escape(s) == Seq::<char>::empty());
        assert(input[0] == '"');
        assert(input.skip(1) =~= rest);
        assert(parse_string_body(input) == Some((Seq::<char>::empty(), rest)));
        assert(s =~= Seq::<char>::empty());
    } else {
        let c = s[0];
        assert(escape(s) == esc_char(c) + escape(s.skip(1)));
        lemma_parse_string_body_escape(s.skip(1), rest);
        let tail_input = escape(s.skip(1)) + seq!['"'] + rest;
        if c == '"' || c == '\\' || c == '\n' || c == '\t' || c == '\r' {
            let e: char = if c == '"' {
                '"'
            } else if c == '\\' {
                '\\'
            } else if c == '\n' {
                'n'
            } else if c == '\t' {
                't'
            } else {
                'r'
            };
            assert(esc_char(c) =~= seq!['\\', e]);
            assert(input[0] == '\\');
            assert(input[1] == e);
            assert(is_escape_code(e) && unescape_code(e) == c);
            assert(input.len() >= 2);
            assert(input.skip(2) =~= tail_input);
            assert(parse_string_body(input) == Some((seq![c] + s.skip(1), rest)));
            assert(seq![c] + s.skip(1) =~= s);
        } else if is_control(c) {
            let code = (c as u32) as int;
            let h1 = hex_digit_char(code / 16);
            let h0 = hex_digit_char(code % 16);
            assert(esc_char(c) =~= seq!['\\', 'u', '0', '0', h1, h0]);
            assert(input[0] == '\\');
            assert(input[1] == 'u');
            assert(input[2] == '0');
            assert(input[3] == '0');
            assert(input[4] == h1);
            assert(input[5] == h0);
            assert(input.len() >= 6);
            assert(0 <= code < 32);
            assert(16 * (code / 16) + code % 16 == code) by (nonlinear_arith)
                requires
                    0 <= code,
            ;
            lemma_hex_digit_char_val(code / 16);
            lemma_hex_digit_char_val(code % 16);
            assert(16 * hex_val(input[4]) + hex_val(input[5]) == code);
            assert(input.skip(6) =~= tail_input);
            assert(((16 * hex_val(input[4]) + hex_val(input[5])) as u8) == ((c as u32) as u8));
            assert((c as u32) < 128);
            lemma_char_cast_round(c);
            assert((((c as u32) as u8) as char) == c);
            assert((((16 * hex_val(input[4]) + hex_val(input[5])) as u8) as char) == c);
            assert(parse_string_body(input) == Some((seq![c] + s.skip(1), rest)));
            assert(seq![c] + s.skip(1) =~= s);
        } else {
            assert(esc_char(c) =~= seq![c]);
            assert(input[0] == c);
            assert(input.skip(1) =~= tail_input);
            assert(parse_string_body(input) == Some((seq![c] + s.skip(1), rest)));
            assert(seq![c] + s.skip(1) =~= s);
        }
    }
}

/// Every character of a decimal rendering is a digit.
pub proof fn lemma_dec_digits_all_digits(n: int)
    requires
        n >= 0,
    ensures
        forall|j: int|
            0 <= j < dec_digits(n).len() ==> is_digit_char(#[trigger] dec_digits(n)[j]),
    decreases n,
{
    if n < 10 {
        assert(is_digit_char(digit_char(n)));
    } else {
        lemma_dec_digits_all_digits(n / 10);
        assert(forall|j: int|
            0 <= j < dec_digits(n / 10).len() ==> is_digit_char(#[trigger] dec_digits(n)[j]));
        assert(is_digit_char(dec_digits(n).last()));
    }
}

/// A value below `pow10(k)` renders in at most `k` digits.
pub proof fn lemma_dec_digits_len(n: int, k: nat)
    requires
        0 <= n,
        n < pow10(k),
        k >= 1,
    ensures
        dec_digits(n).len() <= k,
    decreases n,
{
    if n < 10 {
    } else {
        assert(k >= 2) by {
            reveal_with_fuel(pow10, 2);
        }
        assert(pow10(k) == 10 * pow10((k - 1) as nat));
        assert(n / 10 < pow10((k - 1) as nat)) by (nonlinear_arith)
            requires
                n >= 10,
                pow10(k) == 10 * pow10((k - 1) as nat),
                n < pow10(k),
        ;
        lemma_dec_digits_len(n / 10, (k - 1) as nat);
    }
}

/// The digit value of a digit character is the digit.
pub proof fn lemma_digit_char_val(d: int)
    requires
        0 <= d <= 9,
    ensures
        digit_val(digit_char(d)) == d,
{
}

/// Reading back a decimal rendering yields the value.
pub proof fn lemma_dec_value_of_digits(n: int)
    requires
        n >= 0,
    ensures
        dec_value(dec_digits(n)) == n,
    decreases n,
{
    if n < 10 {
        lemma_digit_char_val(n);
        assert(dec_digits(n) =~= seq![digit_char(n)]);
        assert(dec_digits(n).drop_last() =~= Seq::<char>::empty());
        assert(dec_digits(n).last() == digit_char(n));
        assert(dec_value(Seq::<char>::empty()) == 0);
        assert(dec_value(dec_digits(n)) == 0 * 10 + digit_val(digit_char(n)));
    } else {
        lemma_dec_value_of_digits(n / 10);
        lemma_digit_char_val(n % 10);
        assert(dec_digits(n).drop_last() =~= dec_digits(n / 10));
        assert(dec_digits(n).last() == digit_char(n % 10));
        assert(dec_value(dec_digits(n)) == (n / 10) * 10 + n % 10);
        assert((n / 10) * 10 + n % 10 == n) by (nonlinear_arith)
            requires
                n >= 0,
        ;
    }
}

/// Reading a number undoes decimal rendering, stopping at the first
/// non-digit, for any value the reader's digit limit admits.
pub proof fn lemma_parse_number_digits(n: int, rest: Seq<char>)
    requires
        0 <= n,
        n < pow10(MAX_NUMBER_DIGITS as nat),
        rest.len() > 0 ==> !is_digit_char(rest[0]),
    ensures
        parse_number(dec_digits(n) + rest) == Some((n, rest)),
{
    let ds = dec_digits(n);
    let input = ds + rest;
    lemma_dec_digits_all_digits(n);
    lemma_dec_digits_len(n, MAX_NUMBER_DIGITS as nat);
    assert(forall|j: int| 0 <= j < ds.len() ==> is_digit_char(#[trigger] input[j]));
    assert(ds.len() < input.len() ==> !is_digit_char(input[ds.len() as int]));
    lemma_digits_prefix_len_is(input, ds.len());
    assert(ds.len() >= 1);
    assert(input.subrange(0, ds.len() as int) =~= ds);
    lemma_dec_value_of_digits(n);
    assert(input.skip(ds.len() as int) =~= rest);
}

/// THE ROUND-TRIP LAW: reading a serialized metadata record back yields
/// the record that was written, for every record whose version tag the
/// number reader admits (every tag the framework has ever issued).
pub proof fn lemma_metadata_round_trip(m: MetadataView)
    requires
        m.requires_fho < pow10(MAX_NUMBER_DIGITS as nat),
        m.fho_details == FhoVersion::FhoVersion0,
    ensures
        parse_metadata(metadata_json(m)) == Some(m),
{
    let text = metadata_json(m);
    let after_name = json_mid_description() + escape(m.description) + seq!['"']
        + json_mid_requires() + dec_digits(m.requires_fho as int) + json_tail();
    let r1 = escape(m.name) + seq!['"'] + after_name;
    assert(text =~= json_head() + r1);
    lemma_strip_prefix_concat(json_head(), r1);
    lemma_parse_string_body_escape(m.name, after_name);
    let after_desc = json_mid_requires() + dec_digits(m.requires_fho as int) + json_tail();
    let r3 = escape(m.description) + seq!['"'] + after_desc;
    assert(after_name =~= json_mid_description() + r3);
    lemma_strip_prefix_concat(json_mid_description(), r3);
    lemma_parse_string_body_escape(m.description, after_desc);
    let r5 = dec_digits(m.requires_fho as int) + json_tail();
    assert(after_desc =~= json_mid_requires() + r5);
    lemma_strip_prefix_concat(json_mid_requires(), r5);
    assert(json_tail().len() > 0 && !is_digit_char(json_tail()[0])) by {
        reveal_strlit(",\n  \"fho_details\": {\n    \"FhoVersion0\": {}\n  }\n}");
    }
    lemma_parse_number_digits(m.requires_fho as int, json_tail());
    lemma_strip_prefix_concat(json_tail(), Seq::<char>::empty());
    assert(json_tail() + Seq::<char>::empty() =~= json_tail());
    assert(parse_metadata(text) == Some(
        MetadataView {
            name: m.name,
            description: m.description,
            requires_fho: m.requires_fho,
            fho_details: FhoVersion::FhoVersion0,
        },
    ));
    assert(MetadataView {
        name: m.name,
        description: m.description,
        requires_fho: m.requires_fho,
        fho_details: FhoVersion::FhoVersion0,
    } == m);
}

impl FhoToolMetadata {
    /// Reads a record back from its serialized text: the inverse of
    /// `to_json` on every text `to_json` can produce.
    pub fn from_json(s: &str) -> (r: Option<FhoToolMetadata>)
        ensures
            match r {
                Some(m) => parse_metadata(s@) == Some(m@),
                None => parse_metadata(s@) is None,
            },
    {
        let v = str_to_chars(s);
        proof {
            assert(v@.skip(0) =~= s@);
        }
        let i0 = match expect_lit(&v, 0, "{\n  \"name\": \"") {
            Some(j) => j,
            None => {
                return None;
            },
        };
        let (name_chars, i1) = match read_string_body(&v, i0) {
            Some(p) => p,
            None => {
                return None;
            },
        };
        let i2 = match expect_lit(&v, i1, ",\n  \"description\": \"") {
            Some(j) => j,
            None => {
                return None;
            },
        };
        let (desc_chars, i3) = match read_string_body(&v, i2) {
            Some(p) => p,
            None => {
                return None;
            },
        };
        let i4 = match expect_lit(&v, i3, ",\n  \"requires_fho\": ") {
            Some(j) => j,
            None => {
                return None;
            },
        };
        let (value, i5) = match read_number(&v, i4) {
            Some(p) => p,
            None => {
                return None;
            },
        };
        let i6 = match expect_lit(&v, i5, ",\n  \"fho_details\": {\n    \"FhoVersion0\": {}\n  }\n}") {
            Some(j) => j,
            None => {
                return None;
            },
        };
        if i6 != v.len() {
            proof {
                assert(v@.skip(i6 as int).len() != 0);
            }
            return None;
        }
        proof {
            assert(v@.skip(i6 as int).len() == 0);
        }
        let name = chars_to_string(&name_chars);
        let description = chars_to_string(&desc_chars);
        Some(
            FhoToolMetadata {
                name,
                description,
                requires_fho: value,
                fho_details: FhoVersion::FhoVersion0,
            },
        )
    }
}

} // verus!
