//! The JSON text of the claims that a session token carries, written and read
//! in the one canonical form: keys in a fixed order, no white space, strings
//! escaped as serde_json escapes them, integers in plain decimal.
use vstd::prelude::*;
use crate::entity::vo::jwt::{JWTToken, JWTTokenView};

verus! {

// ---------------------------------------------------------------------------
// Characters and strings
// ---------------------------------------------------------------------------

/// Appends one character to a string.
#[verifier::external_body]
fn string_push(s: &mut String, c: char)
    ensures
        final(s)@ == old(s)@.push(c),
{
    s.push(c);
}

/// The characters of a string slice.
pub fn chars_of(s: &str) -> (v: Vec<char>)
    ensures
        v@ == s@,
{
    let mut v: Vec<char> = Vec::new();
    for c in it: s.chars()
        invariant
            v@ == it.seq().take(it.index() as int),
    {
        v.push(c);
    }
    v
}

/// The string made of the given characters.
pub fn string_of(v: &Vec<char>) -> (s: String)
    ensures
        s@ == v@,
{
    let mut s = String::new();
    let mut i: usize = 0;
    while i < v.len()
        invariant
            i <= v.len(),
            s@ == v@.take(i as int),
        decreases v.len() - i,
    {
        string_push(&mut s, v[i]);
        assert(v@.take(i + 1) == v@.take(i as int).push(v@[i as int]));
        i = i + 1;
    }
    assert(v@.take(v.len() as int) == v@);
    s
}

/// Whether two character sequences are equal.
fn chars_equal(a: &Vec<char>, b: &Vec<char>) -> (r: bool)
    ensures
        r == (a@ == b@),
{
    if a.len() != b.len() {
        return false;
    }
    let mut i: usize = 0;
    while i < a.len()
        invariant
            a.len() == b.len(),
            i <= a.len(),
            forall|j: int| 0 <= j < i ==> a@[j] == b@[j],
        decreases a.len() - i,
    {
        if a[i] != b[i] {
            return false;
        }
        i = i + 1;
    }
    assert(a@ =~= b@);
    true
}

// ---------------------------------------------------------------------------
// The canonical text
// ---------------------------------------------------------------------------

/// The decimal digit for `d`.
pub open spec fn digit_char(d: nat) -> char {
    (48 + d) as char
}

/// The lower-case hexadecimal digit for `d`.
pub open spec fn hex_char(d: nat) -> char {
    if d < 10 {
        (48 + d) as char
    } else {
        (87 + d) as char
    }
}

/// How one character of a string appears inside a JSON string literal.
pub open spec fn escape_char(c: char) -> Seq<char> {
    if c == '"' {
        seq!['\\', '"']
    } else if c == '\\' {
        seq!['\\', '\\']
    } else if c == '\u{8}' {
        seq!['\\', 'b']
    } else if c == '\t' {
        seq!['\\', 't']
    } else if c == '\n' {
        seq!['\\', 'n']
    } else if c == '\u{c}' {
        seq!['\\', 'f']
    } else if c == '\r' {
        seq!['\\', 'r']
    } else if (c as u32) < 0x20 {
        seq!['\\', 'u', '0', '0', hex_char((c as u32) as nat / 16), hex_char((c as u32) as nat % 16)]
    } else {
        seq![c]
    }
}

/// The escaped body of a JSON string literal.
pub open spec fn escape(s: Seq<char>) -> Seq<char>
    decreases s.len(),
{
    if s.len() == 0 {
        Seq::empty()
    } else {
        escape(s.drop_last()) + escape_char(s.last())
    }
}

/// A JSON string literal.
pub open spec fn json_string(s: Seq<char>) -> Seq<char> {
    seq!['"'] + escape(s) + seq!['"']
}

/// The decimal digits of a number, without leading zeros.
pub open spec fn digits(n: nat) -> Seq<char>
    decreases n,
{
    if n < 10 {
        seq![digit_char(n)]
    } else {
        digits(n / 10).push(digit_char(n % 10))
    }
}

/// Whether a character is a decimal digit.
pub open spec fn is_digit(c: char) -> bool {
    '0' <= c && c <= '9'
}

/// The number that a string of decimal digits writes.
pub open spec fn digits_value(ds: Seq<char>) -> nat
    decreases ds.len(),
{
    if ds.len() == 0 {
        0
    } else {
        digits_value(ds.drop_last()) * 10 + ((ds.last() as u32) - 48) as nat
    }
}

// ---------------------------------------------------------------------------
// Writing
// ---------------------------------------------------------------------------

fn hex_digit(d: u32) -> (c: char)
    requires
        d < 16,
    ensures
        c == hex_char(d as nat),
{
    if d < 10 {
        ((48 + d) as u8) as char
    } else {
        ((87 + d) as u8) as char
    }
}

fn push_escaped_char(c: char, out: &mut Vec<char>)
    ensures
        final(out)@ == old(out)@ + escape_char(c),
{
    let ghost start = out@;
    if c == '"' {
        out.push('\\');
        out.push('"');
    } else if c == '\\' {
        out.push('\\');
        out.push('\\');
    } else if c == '\u{8}' {
        out.push('\\');
        out.push('b');
    } else if c == '\t' {
        out.push('\\');
        out.push('t');
    } else if c == '\n' {
        out.push('\\');
        out.push('n');
    } else if c == '\u{c}' {
        out.push('\\');
        out.push('f');
    } else if c == '\r' {
        out.push('\\');
        out.push('r');
    } else if (c as u32) < 0x20 {
        let v = c as u32;
        out.push('\\');
        out.push('u');
        out.push('0');
        out.push('0');
        out.push(hex_digit(v / 16));
        out.push(hex_digit(v % 16));
    } else {
        out.push(c);
    }
    assert(out@ =~= start + escape_char(c));
}

/// Appends the JSON string literal of `s`.
fn push_json_string(s: &str, out: &mut Vec<char>)
    ensures
        final(out)@ == old(out)@ + json_string(s@),
{
    let ghost start = out@;
    let cs = chars_of(s);
    out.push('"');
    let mut i: usize = 0;
    while i < cs.len()
        invariant
            i <= cs.len(),
            cs@ == s@,
            out@ == start + seq!['"'] + escape(cs@.take(i as int)),
        decreases cs.len() - i,
    {
        push_escaped_char(cs[i], out);
        assert(cs@.take(i + 1).drop_last() == cs@.take(i as int));
        i = i + 1;
    }
    assert(cs@.take(cs.len() as int) == cs@);
    out.push('"');
    assert(out@ =~= start + json_string(s@));
}

/// Appends the decimal digits of `n`.
fn push_digits(n: u64, out: &mut Vec<char>)
    ensures
        final(out)@ == old(out)@ + digits(n as nat),
    decreases n,
{
    let ghost start = out@;
    if n < 10 {
        out.push(((48 + n) as u8) as char);
    } else {
        push_digits(n / 10, out);
        out.push(((48 + n % 10) as u8) as char);
    }
    assert(out@ =~= start + digits(n as nat));
}

/// The decimal digits of `n`.
pub fn digits_of(n: u64) -> (r: Vec<char>)
    ensures
        r@ == digits(n as nat),
{
    let mut r: Vec<char> = Vec::new();
    push_digits(n, &mut r);
    assert(r@ =~= digits(n as nat));
    r
}

/// Appends the characters of a literal.
fn push_str(lit: &str, out: &mut Vec<char>)
    ensures
        final(out)@ == old(out)@ + lit@,
{
    let cs = chars_of(lit);
    let ghost start = out@;
    let mut i: usize = 0;
    while i < cs.len()
        invariant
            i <= cs.len(),
            cs@ == lit@,
            out@ == start + cs@.take(i as int),
        decreases cs.len() - i,
    {
        out.push(cs[i]);
        assert(cs@.take(i + 1) == cs@.take(i as int).push(cs@[i as int]));
        i = i + 1;
    }
    assert(cs@.take(cs.len() as int) == cs@);
}

// ---------------------------------------------------------------------------
// Lemmas on the canonical text
// ---------------------------------------------------------------------------

proof fn lemma_digit_char(d: nat)
    requires
        d < 10,
    ensures
        is_digit(digit_char(d)),
        (digit_char(d) as u32) - 48 == d,
{
}

proof fn lemma_escape_concat(a: Seq<char>, b: Seq<char>)
    ensures
        escape(a + b) == escape(a) + escape(b),
    decreases b.len(),
{
    if b.len() == 0 {
        assert(a + b =~= a);
        assert(escape(b) =~= Seq::<char>::empty());
        assert(escape(a) + escape(b) =~= escape(a));
    } else {
        lemma_escape_concat(a, b.drop_last());
        assert((a + b).drop_last() =~= a + b.drop_last());
        assert((a + b).last() == b.last());
        assert(escape(a + b) =~= escape(a) + escape(b));
    }
}

/// The digits of a number are digits, at least one, and read back as it.
pub proof fn lemma_digits_are_digits(n: nat)
    ensures
        digits(n).len() >= 1,
        forall|i: int| 0 <= i < digits(n).len() ==> is_digit(#[trigger] digits(n)[i]),
        digits_value(digits(n)) == n,
    decreases n,
{
    if n < 10 {
        lemma_digit_char(n);
        assert(digits(n).drop_last() =~= Seq::<char>::empty());
        assert(digits_value(Seq::<char>::empty()) == 0);
        assert(digits(n).last() == digit_char(n));
        assert(digits_value(digits(n)) == n);
    } else {
        lemma_digits_are_digits(n / 10);
        lemma_digit_char(n % 10);
        assert(digits(n).drop_last() =~= digits(n / 10));
        assert(digits(n).last() == digit_char(n % 10));
        assert(digits_value(digits(n)) == digits_value(digits(n / 10)) * 10 + n % 10);
        assert(n == (n / 10) * 10 + n % 10);
    }
}

proof fn lemma_digits_prefix_value(ds: Seq<char>, k: int)
    requires
        0 <= k <= ds.len(),
        forall|i: int| 0 <= i < ds.len() ==> is_digit(#[trigger] ds[i]),
    ensures
        digits_value(ds.take(k)) <= digits_value(ds),
    decreases ds.len() - k,
{
    if k < ds.len() {
        lemma_digits_prefix_value(ds, k + 1);
        assert(ds.take(k + 1).drop_last() =~= ds.take(k));
        assert(ds.take(k + 1).last() == ds[k]);
    } else {
        assert(ds.take(k) =~= ds);
    }
}

// ---------------------------------------------------------------------------
// The claims object
// ---------------------------------------------------------------------------

/// The canonical JSON text of the claims of a token: the fields in their
/// declared order, as serde_json writes such a struct.
pub open spec fn claims_text(c: JWTTokenView) -> Seq<char> {
    "{\"account\":"@ + json_string(c.account) + ",\"name\":"@ + json_string(c.name)
        + ",\"organize\":"@ + digits(c.organize as nat) + ",\"ip\":"@ + json_string(c.ip)
        + ",\"city\":"@ + json_string(c.city) + ",\"exp\":"@ + digits(c.exp as nat) + "}"@
}

/// Writes the canonical JSON text of the claims of a token.
pub fn claims_json(t: &JWTToken) -> (out: Vec<char>)
    ensures
        out@ == claims_text(t@),
{
    let mut out: Vec<char> = Vec::new();
    push_str("{\"account\":", &mut out);
    push_json_string(t.account.as_str(), &mut out);
    push_str(",\"name\":", &mut out);
    push_json_string(t.name.as_str(), &mut out);
    push_str(",\"organize\":", &mut out);
    push_digits(t.organize, &mut out);
    push_str(",\"ip\":", &mut out);
    push_json_string(t.ip.as_str(), &mut out);
    push_str(",\"city\":", &mut out);
    push_json_string(t.city.as_str(), &mut out);
    push_str(",\"exp\":", &mut out);
    push_digits(t.exp as u64, &mut out);
    push_str("}", &mut out);
    out
}

// ---------------------------------------------------------------------------
// Reading
// ---------------------------------------------------------------------------

/// Whether `piece` stands in `s` from position `pos` on.
pub open spec fn stands_at(s: Seq<char>, pos: int, piece: Seq<char>) -> bool {
    &&& 0 <= pos
    &&& pos + piece.len() <= s.len()
    &&& s.subrange(pos, pos + piece.len()) == piece
}

/// Whether the decimal digits of `n` stand in `s` from `pos` on, followed by
/// a character that is no digit.
pub open spec fn number_at(s: Seq<char>, pos: int, n: nat) -> bool {
    &&& stands_at(s, pos, digits(n))
    &&& pos + digits(n).len() < s.len()
    &&& !is_digit(s[pos + digits(n).len()])
}

/// Reads the literal `lit` at `pos`; returns the position after it.
fn expect_lit(s: &Vec<char>, pos: usize, lit: &str) -> (r: Option<usize>)
    ensures
        r matches Some(e) ==> e == pos + lit@.len() && stands_at(s@, pos as int, lit@),
        stands_at(s@, pos as int, lit@) ==> r == Some((pos + lit@.len()) as usize),
{
    let cs = chars_of(lit);
    if pos > s.len() || cs.len() > s.len() - pos {
        return None;
    }
    let mut i: usize = 0;
    while i < cs.len()
        invariant
            cs@ == lit@,
            pos + cs.len() <= s.len(),
            i <= cs.len(),
            forall|j: int| 0 <= j < i ==> s@[pos + j] == cs@[j],
        decreases cs.len() - i,
    {
        if s[pos + i] != cs[i] {
            assert(s@.subrange(pos as int, pos + lit@.len())[i as int] == s@[pos + i]);
            return None;
        }
        i = i + 1;
    }
    assert(s@.subrange(pos as int, pos + lit@.len()) =~= lit@);
    Some(pos + cs.len())
}

fn hex_value(c: char) -> (r: Option<u32>)
    ensures
        r matches Some(d) ==> d < 16 && c == hex_char(d as nat),
        forall|d: nat| d < 16 && c == hex_char(d) ==> r == Some(d as u32),
{
    if '0' <= c && c <= '9' {
        Some((c as u32) - 48)
    } else if 'a' <= c && c <= 'f' {
        Some((c as u32) - 87)
    } else {
        None
    }
}

proof fn lemma_char_eq(c: char, d: char)
    requires
        c as u32 == d as u32,
    ensures
        c == d,
{
}

proof fn lemma_escape_char_shape(c: char)
    ensures
        (escape_char(c).len() == 1 && escape_char(c)[0] == c && c != '"' && c != '\\') || (
        escape_char(c).len() >= 2 && escape_char(c)[0] == '\\'),
{
}

/// Where the escaped form of the `k`-th character of `x` starts, when the
/// literal of `x` starts at `pos`.
proof fn lemma_next_piece(s: Seq<char>, pos: int, x: Seq<char>, k: int)
    requires
        stands_at(s, pos, json_string(x)),
        0 <= k <= x.len(),
    ensures
        pos + 1 + escape(x.take(k)).len() < s.len(),
        k < x.len() ==> stands_at(s, pos + 1 + escape(x.take(k)).len(), escape_char(x[k])),
        k == x.len() ==> s[pos + 1 + escape(x.take(k)).len()] == '"',
{
    lemma_escape_concat(x.take(k), x.skip(k));
    assert(x.take(k) + x.skip(k) =~= x);
    let js = json_string(x);
    let i = pos + 1 + escape(x.take(k)).len();
    assert(js =~= seq!['"'] + escape(x.take(k)) + escape(x.skip(k)) + seq!['"']);
    assert(s.subrange(pos, pos + js.len()) == js);
    if k < x.len() {
        lemma_escape_concat(seq![x[k]], x.skip(k + 1));
        assert(seq![x[k]] + x.skip(k + 1) =~= x.skip(k));
        assert(seq![x[k]].drop_last() =~= Seq::<char>::empty());
        assert(seq![x[k]].last() == x[k]);
        assert(escape(Seq::<char>::empty()) =~= Seq::<char>::empty());
        assert(escape(seq![x[k]]) =~= escape_char(x[k]));
        let piece = escape_char(x[k]);
        assert forall|j: int| 0 <= j < piece.len() implies s.subrange(i, i + piece.len())[j] == piece[j] by {
            assert(s[i + j] == js[1 + escape(x.take(k)).len() as int + j]);
        }
        assert(s.subrange(i, i + piece.len()) =~= piece);
    } else {
        assert(x.skip(k) =~= Seq::<char>::empty());
        assert(s[i] == js[1 + escape(x.take(k)).len() as int]);
    }
}

/// Reads an escape sequence at `i`: the character it stands for and its width.
fn decode_escape(s: &Vec<char>, i: usize) -> (r: Option<(char, usize)>)
    ensures
        forall|c: char| #[trigger] stands_at(s@, i as int, escape_char(c)) && escape_char(c).len() >= 2
            ==> r == Some((c, escape_char(c).len() as usize)),
        r matches Some((_, w)) ==> 2 <= w <= 6,
{
    if i >= s.len() || s.len() - i < 2 || s[i] != '\\' {
        proof {
            assert forall|c: char| #[trigger] stands_at(s@, i as int, escape_char(c)) && escape_char(c).len() >= 2
                implies false by {
                lemma_escape_char_shape(c);
                assert(s@.subrange(i as int, i + escape_char(c).len())[0] == s@[i as int]);
            }
        }
        return None;
    }
    let e = s[i + 1];
    proof {
        assert forall|c: char| #[trigger] stands_at(s@, i as int, escape_char(c)) && escape_char(c).len() >= 2
            implies escape_char(c)[1] == e by {
            assert(s@.subrange(i as int, i + escape_char(c).len())[1] == s@[i + 1]);
        }
    }
    if e == '"' {
        Some(('"', 2))
    } else if e == '\\' {
        Some(('\\', 2))
    } else if e == 'b' {
        Some(('\u{8}', 2))
    } else if e == 't' {
        Some(('\t', 2))
    } else if e == 'n' {
        Some(('\n', 2))
    } else if e == 'f' {
        Some(('\u{c}', 2))
    } else if e == 'r' {
        Some(('\r', 2))
    } else if e == 'u' && s.len() - i >= 6 && s[i + 2] == '0' && s[i + 3] == '0' {
        proof {
            assert forall|c: char| #[trigger] stands_at(s@, i as int, escape_char(c)) && escape_char(c).len() >= 2
                implies escape_char(c)[4] == s@[i + 4] && escape_char(c)[5] == s@[i + 5]
                && escape_char(c).len() == 6 && (c as u32) < 0x20 by {
                assert(s@.subrange(i as int, i + escape_char(c).len())[4] == s@[i + 4]);
                assert(s@.subrange(i as int, i + escape_char(c).len())[5] == s@[i + 5]);
            }
        }
        match (hex_value(s[i + 4]), hex_value(s[i + 5])) {
            (Some(hi), Some(lo)) => {
                if hi >= 2 {
                    proof {
                        assert forall|c: char| #[trigger] stands_at(s@, i as int, escape_char(c))
                            && escape_char(c).len() >= 2 implies false by {
                            assert(((c as u32) as nat) / 16 < 2);
                        }
                    }
                    return None;
                }
                let v: u32 = hi * 16 + lo;
                let decoded = (v as u8) as char;
                proof {
                    assert forall|c: char| #[trigger] stands_at(s@, i as int, escape_char(c))
                        && escape_char(c).len() >= 2 implies c == decoded by {
                        let n = (c as u32) as nat;
                        assert(n == (n / 16) * 16 + n % 16);
                        assert(hi == n / 16 && lo == n % 16);
                        assert(v == c as u32);
                        assert((v as u8) as u32 == v);
                        assert(decoded as u32 == v);
                        lemma_char_eq(c, decoded);
                    }
                }
                Some((decoded, 6))
            },
            _ => {
                proof {
                    assert forall|c: char| #[trigger] stands_at(s@, i as int, escape_char(c))
                        && escape_char(c).len() >= 2 implies false by {
                        let n = (c as u32) as nat;
                        assert(n / 16 < 16 && n % 16 < 16);
                    }
                }
                None
            },
        }
    } else {
        proof {
            assert forall|c: char| #[trigger] stands_at(s@, i as int, escape_char(c)) && escape_char(c).len() >= 2
                implies false by {
                if escape_char(c).len() == 6 {
                    assert(s@.subrange(i as int, i + escape_char(c).len())[2] == s@[i + 2]);
                    assert(s@.subrange(i as int, i + escape_char(c).len())[3] == s@[i + 3]);
                }
            }
        }
        None
    }
}

/// Reads a JSON string literal at `pos`; returns its characters and the
/// position after it.
fn parse_string(s: &Vec<char>, pos: usize) -> (r: Option<(Vec<char>, usize)>)
    ensures
        forall|x: Seq<char>| #[trigger] stands_at(s@, pos as int, json_string(x)) ==> (r matches Some(
            (v, e),
        ) && v@ == x && e == pos + json_string(x).len()),
{
    if pos >= s.len() || s[pos] != '"' {
        proof {
            assert forall|x: Seq<char>| #[trigger] stands_at(s@, pos as int, json_string(x)) implies false by {
                assert(s@.subrange(pos as int, pos + json_string(x).len())[0] == s@[pos as int]);
            }
        }
        return None;
    }
    let mut out: Vec<char> = Vec::new();
    let mut i: usize = pos + 1;
    proof {
        assert forall|x: Seq<char>| #[trigger] stands_at(s@, pos as int, json_string(x)) implies x.take(0)
            =~= out@ by {}
        assert(escape(out@) =~= Seq::<char>::empty());
    }
    while i < s.len()
        invariant
            pos < i <= s.len(),
            forall|x: Seq<char>| #[trigger] stands_at(s@, pos as int, json_string(x)) ==> {
                &&& out@.len() <= x.len()
                &&& out@ == x.take(out@.len() as int)
                &&& i == pos + 1 + escape(out@).len()
            },
        decreases s.len() - i,
    {
        let c = s[i];
        let ghost k = out@.len() as int;
        proof {
            assert forall|x: Seq<char>| #[trigger] stands_at(s@, pos as int, json_string(x)) implies {
                &&& (k < x.len() ==> stands_at(s@, i as int, escape_char(x[k])))
                &&& (k == x.len() ==> c == '"')
            } by {
                lemma_next_piece(s@, pos as int, x, k);
            }
        }
        if c == '"' {
            proof {
                assert forall|x: Seq<char>| #[trigger] stands_at(s@, pos as int, json_string(x)) implies out@ == x
                    && i + 1 == pos + json_string(x).len() by {
                    if k < x.len() {
                        lemma_escape_char_shape(x[k]);
                        assert(s@.subrange(i as int, i + escape_char(x[k]).len())[0] == s@[i as int]);
                    }
                    assert(x.take(k) =~= x);
                }
            }
            return Some((out, i + 1));
        }
        let mut width: usize = 1;
        let mut decoded: char = c;
        if c == '\\' {
            match decode_escape(s, i) {
                Some((d, w)) => {
                    decoded = d;
                    width = w;
                },
                None => {
                    proof {
                        assert forall|x: Seq<char>| #[trigger] stands_at(s@, pos as int, json_string(x)) implies false by {
                            if k < x.len() {
                                lemma_escape_char_shape(x[k]);
                                assert(s@.subrange(i as int, i + escape_char(x[k]).len())[0] == s@[i as int]);
                                assert(stands_at(s@, i as int, escape_char(x[k])));
                            }
                        }
                    }
                    return None;
                },
            }
        }
        proof {
            assert forall|x: Seq<char>| #[trigger] stands_at(s@, pos as int, json_string(x)) implies {
                &&& k < x.len()
                &&& x[k] == decoded
                &&& escape_char(x[k]).len() == width
            } by {
                if k < x.len() {
                    lemma_escape_char_shape(x[k]);
                    assert(s@.subrange(i as int, i + escape_char(x[k]).len())[0] == s@[i as int]);
                    assert(stands_at(s@, i as int, escape_char(x[k])));
                }
            }
        }
        if width > s.len() - i {
            proof {
                assert forall|x: Seq<char>| #[trigger] stands_at(s@, pos as int, json_string(x)) implies false by {}
            }
            return None;
        }
        out.push(decoded);
        proof {
            assert forall|x: Seq<char>| #[trigger] stands_at(s@, pos as int, json_string(x)) implies {
                &&& out@.len() <= x.len()
                &&& out@ == x.take(out@.len() as int)
                &&& i + width == pos + 1 + escape(out@).len()
            } by {
                assert(out@ =~= x.take(k + 1));
                assert(x.take(k + 1).drop_last() =~= x.take(k));
            }
        }
        i = i + width;
    }
    proof {
        assert forall|x: Seq<char>| #[trigger] stands_at(s@, pos as int, json_string(x)) implies false by {
            lemma_next_piece(s@, pos as int, x, out@.len() as int);
        }
    }
    None
}

/// Reads a number in decimal digits at `pos`; returns it and the position
/// after its digits.
fn parse_number(s: &Vec<char>, pos: usize) -> (r: Option<(u64, usize)>)
    ensures
        forall|n: nat| #[trigger] number_at(s@, pos as int, n) && n <= u64::MAX ==> (r matches Some((v, e))
            && v == n && e == pos + digits(n).len()),
{
    if pos >= s.len() {
        return None;
    }
    let mut i: usize = pos;
    let mut v: u64 = 0;
    proof {
        assert forall|n: nat| #[trigger] number_at(s@, pos as int, n) && n <= u64::MAX implies digits_value(
            digits(n).take(0),
        ) == 0 by {
            assert(digits(n).take(0) =~= Seq::<char>::empty());
        }
    }
    while i < s.len() && '0' <= s[i] && s[i] <= '9'
        invariant
            pos <= i <= s.len(),
            forall|n: nat| #[trigger] number_at(s@, pos as int, n) && n <= u64::MAX ==> {
                &&& i - pos <= digits(n).len()
                &&& v == digits_value(digits(n).take(i - pos))
            },
        decreases s.len() - i,
    {
        let d: u64 = (s[i] as u32 - 48) as u64;
        let ghost k = i - pos;
        proof {
            assert forall|n: nat| #[trigger] number_at(s@, pos as int, n) && n <= u64::MAX implies {
                &&& k < digits(n).len()
                &&& v * 10 + d == digits_value(digits(n).take(k + 1))
                &&& v * 10 + d <= n
            } by {
                lemma_digits_are_digits(n);
                if k == digits(n).len() {
                    assert(is_digit(s@[i as int]));
                }
                assert(s@.subrange(pos as int, pos + digits(n).len())[k] == s@[i as int]);
                assert(digits(n).take(k + 1).drop_last() =~= digits(n).take(k));
                assert(digits(n).take(k + 1).last() == s@[i as int]);
                lemma_digits_prefix_value(digits(n), k + 1);
            }
        }
        match v.checked_mul(10) {
            Some(m) => match m.checked_add(d) {
                Some(x) => {
                    v = x;
                },
                None => {
                    return None;
                },
            },
            None => {
                return None;
            },
        }
        i = i + 1;
    }
    if i == pos {
        proof {
            assert forall|n: nat| #[trigger] number_at(s@, pos as int, n) && n <= u64::MAX implies false by {
                lemma_digits_are_digits(n);
                assert(s@.subrange(pos as int, pos + digits(n).len())[0] == s@[pos as int]);
                assert(is_digit(digits(n)[0]));
            }
        }
        return None;
    }
    proof {
        assert forall|n: nat| #[trigger] number_at(s@, pos as int, n) && n <= u64::MAX implies i - pos == digits(
            n,
        ).len() && v == n by {
            lemma_digits_are_digits(n);
            if i - pos < digits(n).len() {
                assert(s@.subrange(pos as int, pos + digits(n).len())[i - pos] == s@[i as int]);
                assert(is_digit(digits(n)[i - pos]));
            }
            assert(digits(n).take(i - pos) =~= digits(n));
        }
    }
    Some((v, i))
}

proof fn lemma_prefix_step(s: Seq<char>, x: Seq<char>, y: Seq<char>)
    requires
        (x + y).len() <= s.len(),
        s.take((x + y).len() as int) == x + y,
    ensures
        s.take(x.len() as int) == x,
        stands_at(s, x.len() as int, y),
{
    assert forall|j: int| 0 <= j < x.len() implies s.take(x.len() as int)[j] == x[j] by {
        assert(s.take((x + y).len() as int)[j] == (x + y)[j]);
    }
    assert(s.take(x.len() as int) =~= x);
    assert forall|j: int| 0 <= j < y.len() implies s.subrange(x.len() as int, (x.len() + y.len()) as int)[j] == y[j] by {
        assert(s.subrange(x.len() as int, (x.len() + y.len()) as int)[j] == s[x.len() + j]);
        assert(s.take((x + y).len() as int)[x.len() + j] == s[x.len() + j]);
        assert(s.take((x + y).len() as int)[x.len() + j] == (x + y)[x.len() + j]);
    }
    assert(s.subrange(x.len() as int, (x.len() + y.len()) as int) =~= y);
}

/// Where each piece of the canonical text of `c` stands in it.
proof fn lemma_claims_layout(s: Seq<char>, c: JWTTokenView)
    requires
        claims_text(c) == s,
    ensures
        stands_at(s, 0, ("{\"account\":"@)),
        stands_at(s, ("{\"account\":"@).len() as int, json_string(c.account)),
        stands_at(s, (("{\"account\":"@) + json_string(c.account)).len() as int, (",\"name\":"@)),
        stands_at(s, (("{\"account\":"@) + json_string(c.account) + (",\"name\":"@)).len() as int, json_string(c.name)),
        stands_at(s, (("{\"account\":"@) + json_string(c.account) + (",\"name\":"@) + json_string(c.name)).len() as int, (",\"organize\":"@)),
        number_at(s, (("{\"account\":"@) + json_string(c.account) + (",\"name\":"@) + json_string(c.name) + (",\"organize\":"@)).len() as int, c.organize as nat),
        stands_at(s, (("{\"account\":"@) + json_string(c.account) + (",\"name\":"@) + json_string(c.name) + (",\"organize\":"@) + digits(c.organize as nat)).len() as int, (",\"ip\":"@)),
        stands_at(s, (("{\"account\":"@) + json_string(c.account) + (",\"name\":"@) + json_string(c.name) + (",\"organize\":"@) + digits(c.organize as nat) + (",\"ip\":"@)).len() as int, json_string(c.ip)),
        stands_at(s, (("{\"account\":"@) + json_string(c.account) + (",\"name\":"@) + json_string(c.name) + (",\"organize\":"@) + digits(c.organize as nat) + (",\"ip\":"@) + json_string(c.ip)).len() as int, (",\"city\":"@)),
        stands_at(s, (("{\"account\":"@) + json_string(c.account) + (",\"name\":"@) + json_string(c.name) + (",\"organize\":"@) + digits(c.organize as nat) + (",\"ip\":"@) + json_string(c.ip) + (",\"city\":"@)).len() as int, json_string(c.city)),
        stands_at(s, (("{\"account\":"@) + json_string(c.account) + (",\"name\":"@) + json_string(c.name) + (",\"organize\":"@) + digits(c.organize as nat) + (",\"ip\":"@) + json_string(c.ip) + (",\"city\":"@) + json_string(c.city)).len() as int, (",\"exp\":"@)),
        number_at(s, (("{\"account\":"@) + json_string(c.account) + (",\"name\":"@) + json_string(c.name) + (",\"organize\":"@) + digits(c.organize as nat) + (",\"ip\":"@) + json_string(c.ip) + (",\"city\":"@) + json_string(c.city) + (",\"exp\":"@)).len() as int, c.exp as nat),
        stands_at(s, (("{\"account\":"@) + json_string(c.account) + (",\"name\":"@) + json_string(c.name) + (",\"organize\":"@) + digits(c.organize as nat) + (",\"ip\":"@) + json_string(c.ip) + (",\"city\":"@) + json_string(c.city) + (",\"exp\":"@) + digits(c.exp as nat)).len() as int, ("}"@)),
        s.len() == (("{\"account\":"@) + json_string(c.account) + (",\"name\":"@) + json_string(c.name) + (",\"organize\":"@) + digits(c.organize as nat) + (",\"ip\":"@) + json_string(c.ip) + (",\"city\":"@) + json_string(c.city) + (",\"exp\":"@) + digits(c.exp as nat) + ("}"@)).len(),
{
    let l1 = "{\"account\":"@;
    let l2 = ",\"name\":"@;
    let l3 = ",\"organize\":"@;
    let l4 = ",\"ip\":"@;
    let l5 = ",\"city\":"@;
    let l6 = ",\"exp\":"@;
    let l7 = "}"@;
    reveal_strlit(",\"ip\":");
    reveal_strlit("}");

            let x1 = l1;
            let x2 = x1 + json_string(c.account);
            let x3 = x2 + l2;
            let x4 = x3 + json_string(c.name);
            let x5 = x4 + l3;
            let x6 = x5 + digits(c.organize as nat);
            let x7 = x6 + l4;
            let x8 = x7 + json_string(c.ip);
            let x9 = x8 + l5;
            let x10 = x9 + json_string(c.city);
            let x11 = x10 + l6;
            let x12 = x11 + digits(c.exp as nat);
            let x13 = x12 + l7;
            assert(s.take(x13.len() as int) =~= x13);
            lemma_prefix_step(s, x12, l7);
            lemma_prefix_step(s, x11, digits(c.exp as nat));
            lemma_prefix_step(s, x10, l6);
            lemma_prefix_step(s, x9, json_string(c.city));
            lemma_prefix_step(s, x8, l5);
            lemma_prefix_step(s, x7, json_string(c.ip));
            lemma_prefix_step(s, x6, l4);
            lemma_prefix_step(s, x5, digits(c.organize as nat));
            lemma_prefix_step(s, x4, l3);
            lemma_prefix_step(s, x3, json_string(c.name));
            lemma_prefix_step(s, x2, l2);
            lemma_prefix_step(s, x1, json_string(c.account));
            assert(x1 =~= Seq::<char>::empty() + x1);
            lemma_prefix_step(s, Seq::<char>::empty(), x1);
            assert(s.subrange(x6.len() as int, (x6.len() + l4.len()) as int)[0] == s[x6.len() as int]);
            assert(s.subrange(x12.len() as int, (x12.len() + l7.len()) as int)[0] == s[x12.len() as int]);
        
}

/// Reads the canonical JSON text of the claims of a token. Exactly the texts
/// that `claims_json` writes are read, and each gives back the claims it was
/// written from.
#[verifier::rlimit(40)]
pub fn parse_claims(s: &Vec<char>) -> (r: Option<JWTToken>)
    ensures
        r matches Some(t) ==> claims_text(t@) == s@,
        forall|c: JWTTokenView| #[trigger] claims_text(c) == s@ ==> (r matches Some(t) && t@ == c),
{
    proof {
        assert forall|c: JWTTokenView| #[trigger] claims_text(c) == s@ implies stands_at(s@, 0, "{\"account\":"@) by {
            lemma_claims_layout(s@, c);
        }
    }
    let p = match expect_lit(s, 0, "{\"account\":") {
        Some(p) => p,
        None => return None,
    };
    proof {
        assert forall|c: JWTTokenView| #[trigger] claims_text(c) == s@ implies p == (("{\"account\":"@)).len() && stands_at(s@, p as int, json_string(c.account)) by {
            lemma_claims_layout(s@, c);
        }
    }
    let (account, p) = match parse_string(s, p) {
        Some(x) => x,
        None => return None,
    };
    proof {
        assert forall|c: JWTTokenView| #[trigger] claims_text(c) == s@ implies p == (("{\"account\":"@) + json_string(c.account)).len() && stands_at(s@, p as int, ",\"name\":"@) by {
            lemma_claims_layout(s@, c);
        }
    }
    let p = match expect_lit(s, p, ",\"name\":") {
        Some(p) => p,
        None => return None,
    };
    proof {
        assert forall|c: JWTTokenView| #[trigger] claims_text(c) == s@ implies p == (("{\"account\":"@) + json_string(c.account) + (",\"name\":"@)).len() && stands_at(s@, p as int, json_string(c.name)) by {
            lemma_claims_layout(s@, c);
        }
    }
    let (name, p) = match parse_string(s, p) {
        Some(x) => x,
        None => return None,
    };
    proof {
        assert forall|c: JWTTokenView| #[trigger] claims_text(c) == s@ implies p == (("{\"account\":"@) + json_string(c.account) + (",\"name\":"@) + json_string(c.name)).len() && stands_at(s@, p as int, ",\"organize\":"@) by {
            lemma_claims_layout(s@, c);
        }
    }
    let p = match expect_lit(s, p, ",\"organize\":") {
        Some(p) => p,
        None => return None,
    };
    proof {
        assert forall|c: JWTTokenView| #[trigger] claims_text(c) == s@ implies p == (("{\"account\":"@) + json_string(c.account) + (",\"name\":"@) + json_string(c.name) + (",\"organize\":"@)).len() && number_at(s@, p as int, c.organize as nat) by {
            lemma_claims_layout(s@, c);
        }
    }
    let ghost q = p;
    let (organize, p) = match parse_number(s, p) {
        Some(x) => x,
        None => return None,
    };
    proof {
        assert forall|c: JWTTokenView| #[trigger] claims_text(c) == s@ implies p == (("{\"account\":"@) + json_string(c.account) + (",\"name\":"@) + json_string(c.name) + (",\"organize\":"@) + digits(c.organize as nat)).len() && stands_at(s@, p as int, ",\"ip\":"@) by {
            lemma_claims_layout(s@, c);
            assert(number_at(s@, q as int, c.organize as nat));
        }
    }
    let p = match expect_lit(s, p, ",\"ip\":") {
        Some(p) => p,
        None => return None,
    };
    proof {
        assert forall|c: JWTTokenView| #[trigger] claims_text(c) == s@ implies p == (("{\"account\":"@) + json_string(c.account) + (",\"name\":"@) + json_string(c.name) + (",\"organize\":"@) + digits(c.organize as nat) + (",\"ip\":"@)).len() && stands_at(s@, p as int, json_string(c.ip)) by {
            lemma_claims_layout(s@, c);
        }
    }
    let (ip, p) = match parse_string(s, p) {
        Some(x) => x,
        None => return None,
    };
    proof {
        assert forall|c: JWTTokenView| #[trigger] claims_text(c) == s@ implies p == (("{\"account\":"@) + json_string(c.account) + (",\"name\":"@) + json_string(c.name) + (",\"organize\":"@) + digits(c.organize as nat) + (",\"ip\":"@) + json_string(c.ip)).len() && stands_at(s@, p as int, ",\"city\":"@) by {
            lemma_claims_layout(s@, c);
        }
    }
    let p = match expect_lit(s, p, ",\"city\":") {
        Some(p) => p,
        None => return None,
    };
    proof {
        assert forall|c: JWTTokenView| #[trigger] claims_text(c) == s@ implies p == (("{\"account\":"@) + json_string(c.account) + (",\"name\":"@) + json_string(c.name) + (",\"organize\":"@) + digits(c.organize as nat) + (",\"ip\":"@) + json_string(c.ip) + (",\"city\":"@)).len() && stands_at(s@, p as int, json_string(c.city)) by {
            lemma_claims_layout(s@, c);
        }
    }
    let (city, p) = match parse_string(s, p) {
        Some(x) => x,
        None => return None,
    };
    proof {
        assert forall|c: JWTTokenView| #[trigger] claims_text(c) == s@ implies p == (("{\"account\":"@) + json_string(c.account) + (",\"name\":"@) + json_string(c.name) + (",\"organize\":"@) + digits(c.organize as nat) + (",\"ip\":"@) + json_string(c.ip) + (",\"city\":"@) + json_string(c.city)).len() && stands_at(s@, p as int, ",\"exp\":"@) by {
            lemma_claims_layout(s@, c);
        }
    }
    let p = match expect_lit(s, p, ",\"exp\":") {
        Some(p) => p,
        None => return None,
    };
    proof {
        assert forall|c: JWTTokenView| #[trigger] claims_text(c) == s@ implies p == (("{\"account\":"@) + json_string(c.account) + (",\"name\":"@) + json_string(c.name) + (",\"organize\":"@) + digits(c.organize as nat) + (",\"ip\":"@) + json_string(c.ip) + (",\"city\":"@) + json_string(c.city) + (",\"exp\":"@)).len() && number_at(s@, p as int, c.exp as nat) by {
            lemma_claims_layout(s@, c);
        }
    }
    let ghost q = p;
    let (exp, p) = match parse_number(s, p) {
        Some(x) => x,
        None => return None,
    };
    proof {
        assert forall|c: JWTTokenView| #[trigger] claims_text(c) == s@ implies p == (("{\"account\":"@) + json_string(c.account) + (",\"name\":"@) + json_string(c.name) + (",\"organize\":"@) + digits(c.organize as nat) + (",\"ip\":"@) + json_string(c.ip) + (",\"city\":"@) + json_string(c.city) + (",\"exp\":"@) + digits(c.exp as nat)).len() && stands_at(s@, p as int, "}"@) by {
            lemma_claims_layout(s@, c);
            assert(number_at(s@, q as int, c.exp as nat));
        }
    }
    let p = match expect_lit(s, p, "}") {
        Some(p) => p,
        None => return None,
    };
    proof {
        assert forall|c: JWTTokenView| #[trigger] claims_text(c) == s@ implies p == (("{\"account\":"@) + json_string(c.account) + (",\"name\":"@) + json_string(c.name) + (",\"organize\":"@) + digits(c.organize as nat) + (",\"ip\":"@) + json_string(c.ip) + (",\"city\":"@) + json_string(c.city) + (",\"exp\":"@) + digits(c.exp as nat) + ("}"@)).len() by {
            lemma_claims_layout(s@, c);
        }
    }
    if p != s.len() || exp > usize::MAX as u64 {
        return None;
    }
    let t = JWTToken {
        account: string_of(&account),
        name: string_of(&name),
        organize: organize,
        ip: string_of(&ip),
        city: string_of(&city),
        exp: exp as usize,
    };
    let text = claims_json(&t);
    if chars_equal(&text, s) {
        Some(t)
    } else {
        None
    }
}

proof fn lemma_hex_char_injective(a: nat, b: nat)
    requires
        a < 16,
        b < 16,
        hex_char(a) == hex_char(b),
    ensures
        a == b,
{
    assert(hex_char(a) as u32 == hex_char(b) as u32);
}

/// Two characters whose escaped forms both stand at `i` are the same.
proof fn lemma_escape_char_unique(s: Seq<char>, i: int, c1: char, c2: char)
    requires
        stands_at(s, i, escape_char(c1)),
        stands_at(s, i, escape_char(c2)),
    ensures
        c1 == c2,
{
    let e1 = escape_char(c1);
    let e2 = escape_char(c2);
    lemma_escape_char_shape(c1);
    lemma_escape_char_shape(c2);
    assert(s.subrange(i, i + e1.len())[0] == s[i]);
    assert(s.subrange(i, i + e2.len())[0] == s[i]);
    if e1.len() >= 2 && e2.len() >= 2 {
        assert(s.subrange(i, i + e1.len())[1] == s[i + 1]);
        assert(s.subrange(i, i + e2.len())[1] == s[i + 1]);
        if e1.len() == 6 && e2.len() == 6 {
            assert(s.subrange(i, i + e1.len())[4] == s[i + 4]);
            assert(s.subrange(i, i + e2.len())[4] == s[i + 4]);
            assert(s.subrange(i, i + e1.len())[5] == s[i + 5]);
            assert(s.subrange(i, i + e2.len())[5] == s[i + 5]);
            let n1 = (c1 as u32) as nat;
            let n2 = (c2 as u32) as nat;
            lemma_hex_char_injective(n1 / 16, n2 / 16);
            lemma_hex_char_injective(n1 % 16, n2 % 16);
            assert(n1 == (n1 / 16) * 16 + n1 % 16);
            assert(n2 == (n2 / 16) * 16 + n2 % 16);
            lemma_char_eq(c1, c2);
        }
    }
}

/// The string literal standing at `pos` determines the string.
proof fn lemma_json_string_unique(s: Seq<char>, pos: int, x: Seq<char>, y: Seq<char>, k: int)
    requires
        stands_at(s, pos, json_string(x)),
        stands_at(s, pos, json_string(y)),
        0 <= k <= x.len(),
        k <= y.len(),
        x.take(k) == y.take(k),
    ensures
        x == y,
    decreases x.len() - k,
{
    lemma_next_piece(s, pos, x, k);
    lemma_next_piece(s, pos, y, k);
    let i = pos + 1 + escape(x.take(k)).len();
    if k < x.len() && k < y.len() {
        lemma_escape_char_unique(s, i, x[k], y[k]);
        assert(x.take(k + 1) =~= x.take(k).push(x[k]));
        assert(y.take(k + 1) =~= y.take(k).push(y[k]));
        lemma_json_string_unique(s, pos, x, y, k + 1);
    } else if k < x.len() {
        lemma_escape_char_shape(x[k]);
        assert(s.subrange(i, i + escape_char(x[k]).len())[0] == s[i]);
    } else if k < y.len() {
        lemma_escape_char_shape(y[k]);
        assert(s.subrange(i, i + escape_char(y[k]).len())[0] == s[i]);
    } else {
        assert(x =~= x.take(k));
        assert(y =~= y.take(k));
    }
}

/// The number standing at `pos` is determined.
proof fn lemma_number_unique(s: Seq<char>, pos: int, n: nat, m: nat)
    requires
        number_at(s, pos, n),
        number_at(s, pos, m),
    ensures
        n == m,
{
    lemma_digits_are_digits(n);
    lemma_digits_are_digits(m);
    let dn = digits(n);
    let dm = digits(m);
    if dn.len() < dm.len() {
        assert(s.subrange(pos, pos + dm.len())[dn.len() as int] == s[pos + dn.len()]);
        assert(is_digit(dm[dn.len() as int]));
    } else if dm.len() < dn.len() {
        assert(s.subrange(pos, pos + dn.len())[dm.len() as int] == s[pos + dm.len()]);
        assert(is_digit(dn[dm.len() as int]));
    } else {
        assert(dn =~= dm) by {
            assert forall|j: int| 0 <= j < dn.len() implies dn[j] == dm[j] by {
                assert(s.subrange(pos, pos + dn.len())[j] == s[pos + j]);
                assert(s.subrange(pos, pos + dm.len())[j] == s[pos + j]);
            }
        }
    }
}

/// Two texts written as JSON strings at the same place are the same text.
proof fn lemma_same_string_at(s: Seq<char>, pos: int, x: Seq<char>, y: Seq<char>)
    requires
        stands_at(s, pos, json_string(x)),
        stands_at(s, pos, json_string(y)),
    ensures
        x == y,
{
    assert(x.take(0) =~= y.take(0));
    lemma_json_string_unique(s, pos, x, y, 0);
}

/// The canonical text of claims determines the claims: field by field, each
/// starts where the ones before it, already shown equal, end.
pub proof fn lemma_claims_text_determines(s: Seq<char>, a: JWTTokenView, b: JWTTokenView)
    requires
        claims_text(a) == s,
        claims_text(b) == s,
    ensures
        a == b,
{
    lemma_claims_layout(s, a);
    lemma_claims_layout(s, b);
    let before_account = "{\"account\":"@;
    lemma_same_string_at(s, before_account.len() as int, a.account, b.account);
    let before_name = before_account + json_string(a.account) + ",\"name\":"@;
    lemma_same_string_at(s, before_name.len() as int, a.name, b.name);
    let before_organize = before_name + json_string(a.name) + ",\"organize\":"@;
    lemma_number_unique(s, before_organize.len() as int, a.organize as nat, b.organize as nat);
    let before_ip = before_organize + digits(a.organize as nat) + ",\"ip\":"@;
    lemma_same_string_at(s, before_ip.len() as int, a.ip, b.ip);
    let before_city = before_ip + json_string(a.ip) + ",\"city\":"@;
    lemma_same_string_at(s, before_city.len() as int, a.city, b.city);
    let before_exp = before_city + json_string(a.city) + ",\"exp\":"@;
    lemma_number_unique(s, before_exp.len() as int, a.exp as nat, b.exp as nat);
}

} // verus!
