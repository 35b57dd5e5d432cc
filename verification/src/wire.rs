//! The wire framing layer: building the JSON texts the connectors accept
//! and reading the JSON texts they reply with.
//!
//! The grammar is the small JSON subset the connectors' schemas use: objects
//! with fixed keys, unescaped printable-ASCII strings, and unsigned decimal
//! numbers. Encoders state the produced text exactly; parsers return
//! exactly what a deterministic specification-level reading of the text
//! gives, so encode/decode round trips are provable facts.

use vstd::prelude::*;
use vstd::string::StrSliceExecFns;
use vstd::string::StringExecFns;

verus! {

/// A character that may stand inside a wire string: printable ASCII with
/// the two JSON meta characters, the quote and the backslash, excluded.
pub open spec fn clean_char(c: char) -> bool {
    &&& c != '"'
    &&& c != '\\'
    &&& 32 <= (c as u32)
    &&& (c as u32) < 127
}

/// A text fit for a wire string: every character clean.
pub open spec fn clean_text(s: Seq<char>) -> bool {
    forall|i: int| 0 <= i < s.len() ==> clean_char(s[i])
}

/// A decimal digit.
pub open spec fn is_digit(c: char) -> bool {
    48 <= (c as u32) && (c as u32) <= 57
}

/// The value of a decimal digit.
pub open spec fn digit_val(c: char) -> int {
    c as u32 - 48
}

/// The digit character of a value below ten.
pub open spec fn dec_digit(d: int) -> char {
    if d == 0 {
        '0'
    } else if d == 1 {
        '1'
    } else if d == 2 {
        '2'
    } else if d == 3 {
        '3'
    } else if d == 4 {
        '4'
    } else if d == 5 {
        '5'
    } else if d == 6 {
        '6'
    } else if d == 7 {
        '7'
    } else if d == 8 {
        '8'
    } else {
        '9'
    }
}

/// The decimal representation of a natural number, most significant digit
/// first.
pub open spec fn dec_rep_nat(n: nat) -> Seq<char>
    decreases n,
{
    if n < 10 {
        seq![dec_digit(n as int)]
    } else {
        dec_rep_nat(n / 10).push(dec_digit((n % 10) as int))
    }
}

/// The decimal representation of an integer: a leading minus sign for a
/// negative value.
pub open spec fn dec_rep_int(n: int) -> Seq<char> {
    if n < 0 {
        seq!['-'] + dec_rep_nat((-n) as nat)
    } else {
        dec_rep_nat(n as nat)
    }
}

/// A quoted wire string.
pub open spec fn json_str(s: Seq<char>) -> Seq<char> {
    seq!['"'] + s + seq!['"']
}

/// The value of a digit sequence, most significant digit first.
pub open spec fn digits_val(t: Seq<char>) -> int
    decreases t.len(),
{
    if t.len() == 0 {
        0
    } else {
        digits_val(t.drop_last()) * 10 + digit_val(t.last())
    }
}

/// The first position at or after `i` holding a character that is not
/// clean, or the end of the text.
pub open spec fn clean_end(s: Seq<char>, i: int) -> int
    decreases s.len() - i,
{
    if 0 <= i < s.len() && clean_char(s[i]) {
        clean_end(s, i + 1)
    } else {
        i
    }
}

/// The first position at or after `i` holding a character that is not a
/// digit, or the end of the text.
pub open spec fn digits_end(s: Seq<char>, i: int) -> int
    decreases s.len() - i,
{
    if 0 <= i < s.len() && is_digit(s[i]) {
        digits_end(s, i + 1)
    } else {
        i
    }
}

/// Whether the text `lit` stands in `s` at position `i`.
pub open spec fn lit_at(s: Seq<char>, i: int, lit: Seq<char>) -> bool {
    &&& 0 <= i
    &&& i + lit.len() <= s.len()
    &&& s.subrange(i, i + lit.len()) == lit
}

/// The reading of a wire string token at position `i`: an opening quote, a
/// run of clean characters, and the first following quote. The content and
/// the position after the closing quote, or nothing where no such token
/// stands at `i`.
pub open spec fn string_token(s: Seq<char>, i: int) -> Option<(Seq<char>, int)> {
    if 0 <= i < s.len() && s[i] == '"' {
        let e = clean_end(s, i + 1);
        if e < s.len() && s[e] == '"' {
            Some((s.subrange(i + 1, e), e + 1))
        } else {
            None
        }
    } else {
        None
    }
}

/// The reading of an unsigned number token at position `i`: the maximal
/// digit run, rejected when empty or when its value does not fit `u16`.
pub open spec fn u16_token(s: Seq<char>, i: int) -> Option<(u16, int)> {
    if 0 <= i < s.len() && is_digit(s[i]) {
        let e = digits_end(s, i);
        let v = digits_val(s.subrange(i, e));
        if v <= 65535 {
            Some((v as u16, e))
        } else {
            None
        }
    } else {
        None
    }
}

/// Two texts are equal exactly when their characters are.
pub fn str_eq(a: &str, b: &str) -> (r: bool)
    ensures
        r == (a@ == b@),
{
    let a_len = a.unicode_len();
    let b_len = b.unicode_len();
    if a_len != b_len {
        assert(a@ != b@) by {
            assert(a@.len() != b@.len());
        }
        return false;
    }
    let mut j: usize = 0;
    while j < a_len
        invariant
            a_len == a@.len(),
            b_len == b@.len(),
            a_len == b_len,
            0 <= j <= a_len,
            forall|k: int| 0 <= k < j ==> a@[k] == b@[k],
        decreases a_len - j,
    {
        if a.get_char(j) != b.get_char(j) {
            return false;
        }
        j += 1;
    }
    proof {
        assert(a@ =~= b@);
    }
    true
}

/// Whether a character may stand inside a wire string.
pub fn is_clean_char(c: char) -> (r: bool)
    ensures
        r == clean_char(c),
{
    let cu = c as u32;
    c != '"' && c != '\\' && 32 <= cu && cu < 127
}

/// Whether every character of a text may stand inside a wire string.
pub fn is_clean_str(s: &str) -> (r: bool)
    ensures
        r == clean_text(s@),
{
    let n = s.unicode_len();
    let mut i: usize = 0;
    while i < n
        invariant
            n == s@.len(),
            0 <= i <= n,
            forall|k: int| 0 <= k < i ==> clean_char(s@[k]),
        decreases n - i,
    {
        if !is_clean_char(s.get_char(i)) {
            assert(!clean_char(s@[i as int]));
            return false;
        }
        i += 1;
    }
    true
}

/// Whether a character is a decimal digit.
pub fn is_digit_char(c: char) -> (r: bool)
    ensures
        r == is_digit(c),
{
    let cu = c as u32;
    48 <= cu && cu <= 57
}

/// Whether the text `lit` stands in `s` at position `i`.
pub fn match_lit(s: &str, i: usize, lit: &str) -> (r: bool)
    requires
        s@.len() <= usize::MAX,
        i <= s@.len(),
        vstd::string::is_ascii(s),
    ensures
        r == lit_at(s@, i as int, lit@),
{
    let l = lit.unicode_len();
    let n = s.unicode_len();
    if l > n - i {
        return false;
    }
    let piece = s.substring_ascii(i, i + l);
    str_eq(piece, lit)
}

/// The digit character of a value below ten.
pub fn digit_str(d: u64) -> (r: &'static str)
    requires
        d < 10,
    ensures
        r@ == seq![dec_digit(d as int)],
{
    if d == 0 {
        proof {
            reveal_strlit("0");
            assert("0"@ =~= seq![dec_digit(0)]);
        }
        "0"
    } else if d == 1 {
        proof {
            reveal_strlit("1");
            assert("1"@ =~= seq![dec_digit(1)]);
        }
        "1"
    } else if d == 2 {
        proof {
            reveal_strlit("2");
            assert("2"@ =~= seq![dec_digit(2)]);
        }
        "2"
    } else if d == 3 {
        proof {
            reveal_strlit("3");
            assert("3"@ =~= seq![dec_digit(3)]);
        }
        "3"
    } else if d == 4 {
        proof {
            reveal_strlit("4");
            assert("4"@ =~= seq![dec_digit(4)]);
        }
        "4"
    } else if d == 5 {
        proof {
            reveal_strlit("5");
            assert("5"@ =~= seq![dec_digit(5)]);
        }
        "5"
    } else if d == 6 {
        proof {
            reveal_strlit("6");
            assert("6"@ =~= seq![dec_digit(6)]);
        }
        "6"
    } else if d == 7 {
        proof {
            reveal_strlit("7");
            assert("7"@ =~= seq![dec_digit(7)]);
        }
        "7"
    } else if d == 8 {
        proof {
            reveal_strlit("8");
            assert("8"@ =~= seq![dec_digit(8)]);
        }
        "8"
    } else {
        proof {
            reveal_strlit("9");
            assert("9"@ =~= seq![dec_digit(9)]);
        }
        "9"
    }
}

/// Append the decimal representation of a natural number.
pub fn push_u64(out: &mut String, n: u64)
    ensures
        final(out)@ == old(out)@ + dec_rep_nat(n as nat),
    decreases n,
{
    if n < 10 {
        out.append(digit_str(n));
        proof {
            assert(out@ =~= old(out)@ + dec_rep_nat(n as nat));
        }
    } else {
        push_u64(out, n / 10);
        out.append(digit_str(n % 10));
        proof {
            assert(out@ =~= old(out)@ + dec_rep_nat(n as nat));
        }
    }
}

/// Append the decimal representation of an integer, minus sign included.
pub fn push_i64(out: &mut String, n: i64)
    ensures
        final(out)@ == old(out)@ + dec_rep_int(n as int),
{
    if n >= 0 {
        push_u64(out, n as u64);
    } else {
        out.append("-");
        let mag: u64 = ((-(n + 1)) as u64) + 1;
        proof {
            reveal_strlit("-");
            assert(mag as int == -(n as int));
        }
        push_u64(out, mag);
        proof {
            assert("-"@ =~= seq!['-']);
            assert(out@ =~= old(out)@ + dec_rep_int(n as int));
        }
    }
}

/// Append a quoted wire string.
pub fn push_quoted(out: &mut String, s: &str)
    ensures
        final(out)@ == old(out)@ + json_str(s@),
{
    out.append("\"");
    out.append(s);
    out.append("\"");
    proof {
        reveal_strlit("\"");
        assert("\""@ =~= seq!['"']);
        assert(out@ =~= old(out)@ + json_str(s@));
    }
}

/// The view of an optional text.
pub open spec fn opt_text_view(o: Option<String>) -> Option<Seq<char>> {
    match o {
        Some(t) => Some(t@),
        None => None,
    }
}

/// The wire text of a boolean.
pub open spec fn bool_text(b: bool) -> Seq<char> {
    if b {
        "true"@
    } else {
        "false"@
    }
}

/// Append the wire text of a boolean.
pub fn push_bool(out: &mut String, b: bool)
    ensures
        final(out)@ == old(out)@ + bool_text(b),
{
    if b {
        out.append("true");
    } else {
        out.append("false");
    }
}

/// Read a wire string token at position `i`, exactly as the
/// specification-level reading does.
pub fn parse_string_token(s: &str, i: usize) -> (r: Option<(String, usize)>)
    requires
        vstd::string::is_ascii(s),
        i <= s@.len(),
    ensures
        (match (r, string_token(s@, i as int)) {
            (Some((v, j)), Some((sv, sj))) => v@ == sv && j as int == sj && j <= s@.len(),
            (None, None) => true,
            _ => false,
        }),
{
    let n = s.unicode_len();
    if i >= n {
        return None;
    }
    if s.get_char(i) != '"' {
        return None;
    }
    let mut e = i + 1;
    while e < n && is_clean_char(s.get_char(e))
        invariant
            n == s@.len(),
            i + 1 <= e <= n,
            vstd::string::is_ascii(s),
            clean_end(s@, i + 1) == clean_end(s@, e as int),
        decreases n - e,
    {
        e += 1;
    }
    proof {
        assert(clean_end(s@, e as int) == e as int);
    }
    if e < n && s.get_char(e) == '"' {
        let content = s.substring_ascii(i + 1, e).to_owned();
        Some((content, e + 1))
    } else {
        None
    }
}

/// Read an unsigned number token at position `i`, exactly as the
/// specification-level reading does.
pub fn parse_u16_token(s: &str, i: usize) -> (r: Option<(u16, usize)>)
    requires
        vstd::string::is_ascii(s),
        i <= s@.len(),
    ensures
        (match (r, u16_token(s@, i as int)) {
            (Some((v, j)), Some((sv, sj))) => v == sv && j as int == sj && j <= s@.len(),
            (None, None) => true,
            _ => false,
        }),
{
    let n = s.unicode_len();
    if i >= n {
        return None;
    }
    if !is_digit_char(s.get_char(i)) {
        return None;
    }
    let mut e = i;
    let mut acc: u32 = 0;
    let mut over = false;
    while e < n && is_digit_char(s.get_char(e))
        invariant
            n == s@.len(),
            i <= e <= n,
            vstd::string::is_ascii(s),
            digits_end(s@, i as int) == digits_end(s@, e as int),
            !over ==> acc == digits_val(s@.subrange(i as int, e as int)) && acc <= 65535,
            over ==> digits_val(s@.subrange(i as int, e as int)) > 65535,
        decreases n - e,
    {
        let d = (s.get_char(e) as u32) - 48;
        proof {
            assert(s@.subrange(i as int, e + 1).drop_last() =~= s@.subrange(i as int, e as int));
            assert(s@.subrange(i as int, e + 1).last() == s@[e as int]);
        }
        if over {
            assert(digits_val(s@.subrange(i as int, e + 1)) > 65535) by {
                assert(digits_val(s@.subrange(i as int, e as int)) * 10 > 65535 * 10);
            }
        } else if acc > 6553 || (acc == 6553 && d > 5) {
            assert(digits_val(s@.subrange(i as int, e + 1)) > 65535);
            over = true;
        } else {
            acc = acc * 10 + d;
        }
        e += 1;
    }
    proof {
        assert(digits_end(s@, e as int) == e as int);
    }
    if over {
        return None;
    }
    Some((acc as u16, e))
}

} // verus!
