//! Readers and canonical texts for the connectors' wire objects.
//!
//! Each wire object has three faces: a specification-level reader that says
//! exactly which texts are accepted and what they carry, an executable
//! parser proved to return exactly what the reader says, and a canonical
//! text the round-trip lemmas evaluate the reader on.

use vstd::prelude::*;
use vstd::string::StrSliceExecFns;

use crate::wire::{
    bool_text, clean_char, clean_end, clean_text, dec_rep_int, dec_rep_nat, digit_val, digits_end,
    digits_val, dec_digit, is_digit, json_str, lit_at, match_lit, parse_string_token, parse_u16_token,
    push_bool, push_i64, push_quoted, string_token, u16_token,
};
use vstd::string::StringExecFns;

verus! {

/// `clean_end` from `from` stops exactly at `to` when everything before
/// `to` is clean and `to` is the end or unclean.
pub proof fn lemma_clean_end_is(s: Seq<char>, from: int, to: int)
    requires
        0 <= from <= to <= s.len(),
        forall|k: int| from <= k < to ==> clean_char(s[k]),
        to == s.len() || !clean_char(s[to]),
    ensures
        clean_end(s, from) == to,
    decreases to - from,
{
    if from < to {
        lemma_clean_end_is(s, from + 1, to);
    }
}

/// Reading a string token out of a text that holds a quoted clean content
/// at position `i` gives exactly that content.
pub proof fn lemma_string_token_at(s: Seq<char>, i: int, content: Seq<char>)
    requires
        0 <= i,
        i + content.len() + 2 <= s.len(),
        clean_text(content),
        s[i] == '"',
        s[i + content.len() + 1] == '"',
        forall|k: int| 0 <= k < content.len() ==> s[i + 1 + k] == content[k],
    ensures
        string_token(s, i) == Some((content, i + content.len() + 2)),
{
    let e = i + 1 + content.len();
    assert forall|k: int| i + 1 <= k < e implies clean_char(s[k]) by {
        assert(s[k] == content[k - i - 1]);
    }
    lemma_clean_end_is(s, i + 1, e);
    assert(s.subrange(i + 1, e) =~= content);
}

/// What a payments-response text carries: the status token where one
/// stands, and the transaction id.
pub open spec fn payments_response_read(s: Seq<char>) -> Option<(Option<Seq<char>>, Seq<char>)> {
    let key_status = "{\"status\":"@;
    let key_id = ",\"id\":"@;
    let key_id_only = "{\"id\":"@;
    if lit_at(s, 0, key_status) {
        match string_token(s, key_status.len() as int) {
            Some((tok, j)) => if lit_at(s, j, key_id) {
                match string_token(s, j + key_id.len()) {
                    Some((id, k)) => if k + 1 == s.len() && s[k] == '}' {
                        Some((Some(tok), id))
                    } else {
                        None
                    },
                    None => None,
                }
            } else {
                None
            },
            None => None,
        }
    } else if lit_at(s, 0, key_id_only) {
        match string_token(s, key_id_only.len() as int) {
            Some((id, k)) => if k + 1 == s.len() && s[k] == '}' {
                Some((None, id))
            } else {
                None
            },
            None => None,
        }
    } else {
        None
    }
}

/// The canonical payments-response text for a status token and an id.
pub open spec fn payments_response_wire(tok: Option<Seq<char>>, id: Seq<char>) -> Seq<char> {
    match tok {
        Some(t) => "{\"status\":"@ + json_str(t) + ",\"id\":"@ + json_str(id) + "}"@,
        None => "{\"id\":"@ + json_str(id) + "}"@,
    }
}

/// Parse a payments-response text, exactly as the reader reads it.
pub fn parse_payments_response(s: &str) -> (r: Option<(Option<String>, String)>)
    requires
        vstd::string::is_ascii(s),
    ensures
        (match (r, payments_response_read(s@)) {
            (Some((tok, id)), Some((stok, sid))) => id@ == sid && (match (tok, stok) {
                (Some(t), Some(st)) => t@ == st,
                (None, None) => true,
                _ => false,
            }),
            (None, None) => true,
            _ => false,
        }),
{
    let n = s.unicode_len();
    proof {
        reveal_strlit("{\"status\":");
        reveal_strlit(",\"id\":");
        reveal_strlit("{\"id\":");
    }
    if match_lit(s, 0, "{\"status\":") {
        match parse_string_token(s, 10) {
            Some((tok, j)) => {
                if match_lit(s, j, ",\"id\":") {
                    match parse_string_token(s, j + 6) {
                        Some((id, k)) => {
                            if k < n && k + 1 == n && s.get_char(k) == '}' {
                                Some((Some(tok), id))
                            } else {
                                None
                            }
                        },
                        None => None,
                    }
                } else {
                    None
                }
            },
            None => None,
        }
    } else if match_lit(s, 0, "{\"id\":") {
        match parse_string_token(s, 6) {
            Some((id, k)) => {
                if k < n && k + 1 == n && s.get_char(k) == '}' {
                    Some((None, id))
                } else {
                    None
                }
            },
            None => None,
        }
    } else {
        None
    }
}

/// Round trip: reading the canonical payments-response text gives back the
/// status token and the id it was built from.
pub proof fn lemma_payments_response_round_trip(tok: Option<Seq<char>>, id: Seq<char>)
    requires
        clean_text(id),
        tok matches Some(t) ==> clean_text(t),
    ensures
        payments_response_read(payments_response_wire(tok, id)) == Some((tok, id)),
{
    reveal_strlit("{\"status\":");
    reveal_strlit(",\"id\":");
    reveal_strlit("{\"id\":");
    reveal_strlit("}");
    let s = payments_response_wire(tok, id);
    match tok {
        Some(t) => {
            let key_status = "{\"status\":"@;
            let key_id = ",\"id\":"@;
            assert(s.subrange(0, 10) =~= key_status);
            assert(s[10] == '"');
            assert(s[10 + t.len() as int + 1] == '"');
            assert forall|k: int| 0 <= k < t.len() implies s[10 + 1 + k] == t[k] by {}
            lemma_string_token_at(s, 10, t);
            let j: int = 10 + t.len() as int + 2;
            assert(s.subrange(j, j + 6) =~= key_id);
            let i2: int = j + 6;
            assert(s[i2] == '"');
            assert(s[i2 + id.len() as int + 1] == '"');
            assert forall|k: int| 0 <= k < id.len() implies s[i2 + 1 + k] == id[k] by {}
            lemma_string_token_at(s, i2, id);
            let k2: int = i2 + id.len() as int + 2;
            assert(k2 + 1 == s.len() && s[k2] == '}');
        },
        None => {
            let key_id_only = "{\"id\":"@;
            assert(!lit_at(s, 0, "{\"status\":"@)) by {
                if lit_at(s, 0, "{\"status\":"@) {
                    assert(s.subrange(0, 10)[2] == s[2]);
                    assert(s[2] == 'i');
                }
            }
            assert(s.subrange(0, 6) =~= key_id_only);
            assert(s[6] == '"');
            assert(s[6 + id.len() as int + 1] == '"');
            assert forall|k: int| 0 <= k < id.len() implies s[6 + 1 + k] == id[k] by {}
            lemma_string_token_at(s, 6, id);
            let k2: int = 6 + id.len() as int + 2;
            assert(k2 + 1 == s.len() && s[k2] == '}');
        },
    }
}

/// The digit character of a value below ten is a digit and reads back as
/// that value.
pub proof fn lemma_digit_val_dec_digit(d: int)
    requires
        0 <= d < 10,
    ensures
        is_digit(dec_digit(d)),
        digit_val(dec_digit(d)) == d,
{
    if d == 0 {
        assert('0' as u32 == 48);
    } else if d == 1 {
        assert('1' as u32 == 49);
    } else if d == 2 {
        assert('2' as u32 == 50);
    } else if d == 3 {
        assert('3' as u32 == 51);
    } else if d == 4 {
        assert('4' as u32 == 52);
    } else if d == 5 {
        assert('5' as u32 == 53);
    } else if d == 6 {
        assert('6' as u32 == 54);
    } else if d == 7 {
        assert('7' as u32 == 55);
    } else if d == 8 {
        assert('8' as u32 == 56);
    } else {
        assert('9' as u32 == 57);
    }
}

/// The acceptance gate of every reply body: valid UTF-8 whose decoding is
/// ASCII-only text, the alphabet the connectors' schemas are declared
/// over.
pub open spec fn decodable_body(b: Seq<u8>) -> bool {
    vstd::utf8::valid_utf8(b) && vstd::utf8::is_ascii_chars(vstd::utf8::decode_utf8(b))
}

/// The text a reply body decodes to.
pub open spec fn body_text(b: Seq<u8>) -> Seq<char> {
    vstd::utf8::decode_utf8(b)
}

/// Relies on std's `str::from_utf8`: it yields text exactly when the bytes
/// are valid UTF-8, and that text is their UTF-8 decoding.
#[verifier::external_body]
fn utf8_text(bytes: &[u8]) -> (r: Option<String>)
    ensures
        r matches Some(t) ==> vstd::utf8::valid_utf8(bytes@) && t@ == vstd::utf8::decode_utf8(
            bytes@,
        ),
        r is None ==> !vstd::utf8::valid_utf8(bytes@),
{
    match core::str::from_utf8(bytes) {
        Ok(s) => Some(s.to_owned()),
        Err(_) => None,
    }
}

/// Decode a reply body into text, exactly when the body passes the
/// acceptance gate.
pub fn body_to_text(body: &Vec<u8>) -> (r: Option<String>)
    ensures
        r matches Some(t) ==> decodable_body(body@) && t@ == body_text(body@) && t.is_ascii(),
        r is None ==> !decodable_body(body@),
{
    match utf8_text(body.as_slice()) {
        Some(t) => {
            if t.is_ascii() {
                Some(t)
            } else {
                None
            }
        },
        None => None,
    }
}

/// Everything strictly before `clean_end` is clean, and `clean_end` stays
/// within the text.
pub proof fn lemma_clean_end_bounds(s: Seq<char>, i: int)
    requires
        0 <= i <= s.len(),
    ensures
        i <= clean_end(s, i) <= s.len(),
        forall|k: int| i <= k < clean_end(s, i) ==> clean_char(s[k]),
    decreases s.len() - i,
{
    if i < s.len() && clean_char(s[i]) {
        lemma_clean_end_bounds(s, i + 1);
    }
}

/// Soundness of the payments-response reader: every accepted text is the
/// canonical wire text of what was read, with clean contents — the reader
/// accepts nothing else.
pub proof fn lemma_payments_response_read_sound(s: Seq<char>)
    ensures
        payments_response_read(s) matches Some((tok, id)) ==> {
            &&& s == payments_response_wire(tok, id)
            &&& clean_text(id)
            &&& (tok matches Some(t) ==> clean_text(t))
        },
{
    reveal_strlit("{\"status\":");
    reveal_strlit(",\"id\":");
    reveal_strlit("{\"id\":");
    reveal_strlit("}");
    if payments_response_read(s) is Some {
        if lit_at(s, 0, "{\"status\":"@) {
            let e1 = clean_end(s, 11);
            lemma_clean_end_bounds(s, 11);
            let tok = s.subrange(11, e1);
            let e2 = clean_end(s, e1 + 8);
            lemma_clean_end_bounds(s, e1 + 8);
            let id = s.subrange(e1 + 8, e2);
            assert(clean_text(tok));
            assert(clean_text(id));
            let w = payments_response_wire(Some(tok), id);
            assert(w.len() == s.len());
            assert forall|i: int| 0 <= i < s.len() implies w[i] == s[i] by {
                if i < 10 {
                    assert(s.subrange(0, 10)[i] == s[i]);
                } else if 11 <= i < e1 {
                    assert(tok[i - 11] == s[i]);
                } else if e1 + 1 <= i < e1 + 7 {
                    assert(s.subrange(e1 + 1, e1 + 7)[i - e1 - 1] == s[i]);
                } else if e1 + 8 <= i < e2 {
                    assert(id[i - e1 - 8] == s[i]);
                }
            }
            assert(s =~= w);
        } else {
            let e2 = clean_end(s, 7);
            lemma_clean_end_bounds(s, 7);
            let id = s.subrange(7, e2);
            assert(clean_text(id));
            let w = payments_response_wire(None, id);
            assert(w.len() == s.len());
            assert forall|i: int| 0 <= i < s.len() implies w[i] == s[i] by {
                if i < 6 {
                    assert(s.subrange(0, 6)[i] == s[i]);
                } else if 7 <= i < e2 {
                    assert(id[i - 7] == s[i]);
                }
            }
            assert(s =~= w);
        }
    }
}

/// Soundness of the refund-response reader: every accepted text is the
/// canonical wire text of what was read, with clean contents.
pub proof fn lemma_refund_response_read_sound(s: Seq<char>)
    ensures
        refund_response_read(s) matches Some((id, tok)) ==> {
            &&& s == refund_response_wire(id, tok)
            &&& clean_text(id)
            &&& (tok matches Some(t) ==> clean_text(t))
        },
{
    reveal_strlit("{\"id\":");
    reveal_strlit(",\"status\":");
    reveal_strlit("}");
    if refund_response_read(s) is Some {
        let e1 = clean_end(s, 7);
        lemma_clean_end_bounds(s, 7);
        let id = s.subrange(7, e1);
        let j = e1 + 1;
        assert(clean_text(id));
        if j < s.len() && j + 1 == s.len() && s[j] == '}' {
            let w = refund_response_wire(id, None);
            assert(w.len() == s.len());
            assert forall|i: int| 0 <= i < s.len() implies w[i] == s[i] by {
                if i < 6 {
                    assert(s.subrange(0, 6)[i] == s[i]);
                } else if 7 <= i < e1 {
                    assert(id[i - 7] == s[i]);
                }
            }
            assert(s =~= w);
        } else {
            let e2 = clean_end(s, j + 11);
            lemma_clean_end_bounds(s, j + 11);
            let tok = s.subrange(j + 11, e2);
            assert(clean_text(tok));
            let w = refund_response_wire(id, Some(tok));
            assert(w.len() == s.len());
            assert forall|i: int| 0 <= i < s.len() implies w[i] == s[i] by {
                if i < 6 {
                    assert(s.subrange(0, 6)[i] == s[i]);
                } else if 7 <= i < e1 {
                    assert(id[i - 7] == s[i]);
                } else if j <= i < j + 10 {
                    assert(s.subrange(j, j + 10)[i - j] == s[i]);
                } else if j + 11 <= i < e2 {
                    assert(tok[i - j - 11] == s[i]);
                }
            }
            assert(s =~= w);
        }
    }
}

/// The decimal representation of a natural number is a non-empty digit
/// run whose value is the number itself.
pub proof fn lemma_dec_rep_nat_digits(n: nat)
    ensures
        dec_rep_nat(n).len() >= 1,
        forall|i: int| 0 <= i < dec_rep_nat(n).len() ==> is_digit(#[trigger] dec_rep_nat(n)[i]),
        digits_val(dec_rep_nat(n)) == n,
    decreases n,
{
    if n < 10 {
        lemma_digit_val_dec_digit(n as int);
        let rep = dec_rep_nat(n);
        assert(rep == seq![dec_digit(n as int)]);
        assert(rep.len() == 1);
        assert(rep.last() == dec_digit(n as int));
        assert(rep.drop_last() =~= Seq::<char>::empty());
        assert(digits_val(rep.drop_last()) == 0);
        assert(digits_val(rep) == digits_val(rep.drop_last()) * 10 + digit_val(rep.last()));
        assert(digits_val(dec_rep_nat(n)) == n);
    } else {
        lemma_digit_val_dec_digit((n % 10) as int);
        lemma_dec_rep_nat_digits(n / 10);
        assert(dec_rep_nat(n).drop_last() =~= dec_rep_nat(n / 10));
        assert(digits_val(dec_rep_nat(n)) == n) by {
            assert(digits_val(dec_rep_nat(n / 10)) == n / 10);
        }
    }
}

/// `digits_end` from `from` stops exactly at `to` when everything before
/// `to` is a digit and `to` is the end or no digit.
pub proof fn lemma_digits_end_is(s: Seq<char>, from: int, to: int)
    requires
        0 <= from <= to <= s.len(),
        forall|k: int| from <= k < to ==> is_digit(s[k]),
        to == s.len() || !is_digit(s[to]),
    ensures
        digits_end(s, from) == to,
    decreases to - from,
{
    if from < to {
        lemma_digits_end_is(s, from + 1, to);
    }
}

/// Reading a number token out of a text that holds the decimal
/// representation of `v` at position `i` gives exactly `v`.
pub proof fn lemma_u16_token_at(s: Seq<char>, i: int, v: u16)
    requires
        0 <= i,
        i + dec_rep_nat(v as nat).len() <= s.len(),
        forall|k: int|
            0 <= k < dec_rep_nat(v as nat).len() ==> s[i + k] == dec_rep_nat(v as nat)[k],
        i + dec_rep_nat(v as nat).len() == s.len() || !is_digit(
            s[i + dec_rep_nat(v as nat).len()],
        ),
    ensures
        u16_token(s, i) == Some((v, i + dec_rep_nat(v as nat).len() as int)),
{
    let rep = dec_rep_nat(v as nat);
    lemma_dec_rep_nat_digits(v as nat);
    let e = i + rep.len() as int;
    assert forall|k: int| i <= k < e implies is_digit(s[k]) by {
        assert(s[k] == rep[k - i]);
    }
    lemma_digits_end_is(s, i, e);
    assert(s.subrange(i, e) =~= rep);
}

/// What a refund-response text carries: the refund id, and the status
/// token where one stands.
pub open spec fn refund_response_read(s: Seq<char>) -> Option<(Seq<char>, Option<Seq<char>>)> {
    let key_id = "{\"id\":"@;
    let key_status = ",\"status\":"@;
    if lit_at(s, 0, key_id) {
        match string_token(s, key_id.len() as int) {
            Some((id, j)) => if j < s.len() && j + 1 == s.len() && s[j] == '}' {
                Some((id, None))
            } else if lit_at(s, j, key_status) {
                match string_token(s, j + key_status.len()) {
                    Some((tok, k)) => if k < s.len() && k + 1 == s.len() && s[k] == '}' {
                        Some((id, Some(tok)))
                    } else {
                        None
                    },
                    None => None,
                }
            } else {
                None
            },
            None => None,
        }
    } else {
        None
    }
}

/// The canonical refund-response text for an id and a status token.
pub open spec fn refund_response_wire(id: Seq<char>, tok: Option<Seq<char>>) -> Seq<char> {
    match tok {
        Some(t) => "{\"id\":"@ + json_str(id) + ",\"status\":"@ + json_str(t) + "}"@,
        None => "{\"id\":"@ + json_str(id) + "}"@,
    }
}

/// Parse a refund-response text, exactly as the reader reads it.
pub fn parse_refund_response(s: &str) -> (r: Option<(String, Option<String>)>)
    requires
        vstd::string::is_ascii(s),
    ensures
        (match (r, refund_response_read(s@)) {
            (Some((id, tok)), Some((sid, stok))) => id@ == sid && (match (tok, stok) {
                (Some(t), Some(st)) => t@ == st,
                (None, None) => true,
                _ => false,
            }),
            (None, None) => true,
            _ => false,
        }),
{
    let n = s.unicode_len();
    proof {
        reveal_strlit("{\"id\":");
        reveal_strlit(",\"status\":");
    }
    if match_lit(s, 0, "{\"id\":") {
        match parse_string_token(s, 6) {
            Some((id, j)) => {
                if j < n && j + 1 == n && s.get_char(j) == '}' {
                    Some((id, None))
                } else if match_lit(s, j, ",\"status\":") {
                    match parse_string_token(s, j + 10) {
                        Some((tok, k)) => {
                            if k < n && k + 1 == n && s.get_char(k) == '}' {
                                Some((id, Some(tok)))
                            } else {
                                None
                            }
                        },
                        None => None,
                    }
                } else {
                    None
                }
            },
            None => None,
        }
    } else {
        None
    }
}

/// Round trip: reading the canonical refund-response text gives back the
/// id and the status token it was built from.
pub proof fn lemma_refund_response_round_trip(id: Seq<char>, tok: Option<Seq<char>>)
    requires
        clean_text(id),
        tok matches Some(t) ==> clean_text(t),
    ensures
        refund_response_read(refund_response_wire(id, tok)) == Some((id, tok)),
{
    reveal_strlit("{\"id\":");
    reveal_strlit(",\"status\":");
    reveal_strlit("}");
    let s = refund_response_wire(id, tok);
    assert(s.subrange(0, 6) =~= "{\"id\":"@);
    assert(s[6] == '"');
    assert(s[6 + id.len() as int + 1] == '"');
    assert forall|k: int| 0 <= k < id.len() implies s[6 + 1 + k] == id[k] by {}
    lemma_string_token_at(s, 6, id);
    let j: int = 6 + id.len() as int + 2;
    match tok {
        Some(t) => {
            assert(s[j] == ',');
            assert(s.subrange(j, j + 10) =~= ",\"status\":"@);
            let i2: int = j + 10;
            assert(s[i2] == '"');
            assert(s[i2 + t.len() as int + 1] == '"');
            assert forall|k: int| 0 <= k < t.len() implies s[i2 + 1 + k] == t[k] by {}
            lemma_string_token_at(s, i2, t);
            let k2: int = i2 + t.len() as int + 2;
            assert(k2 + 1 == s.len() && s[k2] == '}');
        },
        None => {
            assert(j + 1 == s.len() && s[j] == '}');
        },
    }
}

/// What an error text of the flat shape carries: a numeric status code, a
/// code, a message, and the reason where one stands.
pub open spec fn flat_error_read(s: Seq<char>) -> Option<(u16, Seq<char>, Seq<char>, Option<Seq<char>>)> {
    let key_sc = "{\"status_code\":"@;
    let key_code = ",\"code\":"@;
    let key_msg = ",\"message\":"@;
    let key_reason = ",\"reason\":"@;
    if lit_at(s, 0, key_sc) {
        match u16_token(s, key_sc.len() as int) {
            Some((v, j)) => if lit_at(s, j, key_code) {
                match string_token(s, j + key_code.len()) {
                    Some((code, k)) => if lit_at(s, k, key_msg) {
                        match string_token(s, k + key_msg.len()) {
                            Some((msg, m)) => if m < s.len() && m + 1 == s.len() && s[m] == '}' {
                                Some((v, code, msg, None))
                            } else if lit_at(s, m, key_reason) {
                                match string_token(s, m + key_reason.len()) {
                                    Some((rsn, p)) => if p < s.len() && p + 1 == s.len() && s[p]
                                        == '}' {
                                        Some((v, code, msg, Some(rsn)))
                                    } else {
                                        None
                                    },
                                    None => None,
                                }
                            } else {
                                None
                            },
                            None => None,
                        }
                    } else {
                        None
                    },
                    None => None,
                }
            } else {
                None
            },
            None => None,
        }
    } else {
        None
    }
}

/// The canonical flat error text.
pub open spec fn flat_error_wire(
    v: u16,
    code: Seq<char>,
    msg: Seq<char>,
    rsn: Option<Seq<char>>,
) -> Seq<char> {
    let head = "{\"status_code\":"@ + dec_rep_nat(v as nat) + ",\"code\":"@ + json_str(code)
        + ",\"message\":"@ + json_str(msg);
    match rsn {
        Some(r) => head + ",\"reason\":"@ + json_str(r) + "}"@,
        None => head + "}"@,
    }
}

/// Parse a flat error text, exactly as the reader reads it.
pub fn parse_flat_error(s: &str) -> (r: Option<(u16, String, String, Option<String>)>)
    requires
        vstd::string::is_ascii(s),
    ensures
        (match (r, flat_error_read(s@)) {
            (Some((v, code, msg, rsn)), Some((sv, scode, smsg, srsn))) => v == sv && code@
                == scode && msg@ == smsg && (match (rsn, srsn) {
                (Some(a), Some(b)) => a@ == b,
                (None, None) => true,
                _ => false,
            }),
            (None, None) => true,
            _ => false,
        }),
{
    let n = s.unicode_len();
    proof {
        reveal_strlit("{\"status_code\":");
        reveal_strlit(",\"code\":");
        reveal_strlit(",\"message\":");
        reveal_strlit(",\"reason\":");
    }
    if match_lit(s, 0, "{\"status_code\":") {
        match parse_u16_token(s, 15) {
            Some((v, j)) => {
                if match_lit(s, j, ",\"code\":") {
                    match parse_string_token(s, j + 8) {
                        Some((code, k)) => {
                            if match_lit(s, k, ",\"message\":") {
                                match parse_string_token(s, k + 11) {
                                    Some((msg, m)) => {
                                        if m < n && m + 1 == n && s.get_char(m) == '}' {
                                            Some((v, code, msg, None))
                                        } else if match_lit(s, m, ",\"reason\":") {
                                            match parse_string_token(s, m + 10) {
                                                Some((rsn, p)) => {
                                                    if p < n && p + 1 == n && s.get_char(p)
                                                        == '}' {
                                                        Some((v, code, msg, Some(rsn)))
                                                    } else {
                                                        None
                                                    }
                                                },
                                                None => None,
                                            }
                                        } else {
                                            None
                                        }
                                    },
                                    None => None,
                                }
                            } else {
                                None
                            }
                        },
                        None => None,
                    }
                } else {
                    None
                }
            },
            None => None,
        }
    } else {
        None
    }
}

/// Round trip: reading the canonical flat error text gives back what it
/// was built from.
pub proof fn lemma_flat_error_round_trip(
    v: u16,
    code: Seq<char>,
    msg: Seq<char>,
    rsn: Option<Seq<char>>,
)
    requires
        clean_text(code),
        clean_text(msg),
        rsn matches Some(t) ==> clean_text(t),
    ensures
        flat_error_read(flat_error_wire(v, code, msg, rsn)) == Some((v, code, msg, rsn)),
{
    reveal_strlit("{\"status_code\":");
    reveal_strlit(",\"code\":");
    reveal_strlit(",\"message\":");
    reveal_strlit(",\"reason\":");
    reveal_strlit("}");
    let s = flat_error_wire(v, code, msg, rsn);
    let rep = dec_rep_nat(v as nat);
    lemma_dec_rep_nat_digits(v as nat);
    assert(s.subrange(0, 15) =~= "{\"status_code\":"@);
    assert forall|k: int| 0 <= k < rep.len() implies s[15 + k] == rep[k] by {}
    assert(s[15 + rep.len() as int] == ',');
    assert(!is_digit(s[15 + rep.len() as int]));
    lemma_u16_token_at(s, 15, v);
    let j: int = 15 + rep.len() as int;
    assert(s.subrange(j, j + 8) =~= ",\"code\":"@);
    let i2: int = j + 8;
    assert(s[i2] == '"');
    assert(s[i2 + code.len() as int + 1] == '"');
    assert forall|k: int| 0 <= k < code.len() implies s[i2 + 1 + k] == code[k] by {}
    lemma_string_token_at(s, i2, code);
    let k2: int = i2 + code.len() as int + 2;
    assert(s.subrange(k2, k2 + 11) =~= ",\"message\":"@);
    let i3: int = k2 + 11;
    assert(s[i3] == '"');
    assert(s[i3 + msg.len() as int + 1] == '"');
    assert forall|k: int| 0 <= k < msg.len() implies s[i3 + 1 + k] == msg[k] by {}
    lemma_string_token_at(s, i3, msg);
    let m2: int = i3 + msg.len() as int + 2;
    match rsn {
        Some(t) => {
            assert(s[m2] == ',');
            assert(s.subrange(m2, m2 + 10) =~= ",\"reason\":"@);
            let i4: int = m2 + 10;
            assert(s[i4] == '"');
            assert(s[i4 + t.len() as int + 1] == '"');
            assert forall|k: int| 0 <= k < t.len() implies s[i4 + 1 + k] == t[k] by {}
            lemma_string_token_at(s, i4, t);
            let p2: int = i4 + t.len() as int + 2;
            assert(p2 + 1 == s.len() && s[p2] == '}');
        },
        None => {
            assert(m2 + 1 == s.len() && s[m2] == '}');
        },
    }
}

/// What an error text of the nested shape carries: a status object with a
/// textual status code, a description, and the code literal where one
/// stands.
pub open spec fn status_error_read(s: Seq<char>) -> Option<(Seq<char>, Seq<char>, Option<Seq<char>>)> {
    let key_open = "{\"status\":{\"status_code\":"@;
    let key_desc = ",\"status_desc\":"@;
    let key_lit = ",\"code_literal\":"@;
    if lit_at(s, 0, key_open) {
        match string_token(s, key_open.len() as int) {
            Some((code, j)) => if lit_at(s, j, key_desc) {
                match string_token(s, j + key_desc.len()) {
                    Some((desc, k)) => if k + 2 == s.len() && k + 1 < s.len() && s[k] == '}'
                        && s[k + 1] == '}' {
                        Some((code, desc, None))
                    } else if lit_at(s, k, key_lit) {
                        match string_token(s, k + key_lit.len()) {
                            Some((lit, p)) => if p + 2 == s.len() && p + 1 < s.len() && s[p]
                                == '}' && s[p + 1] == '}' {
                                Some((code, desc, Some(lit)))
                            } else {
                                None
                            },
                            None => None,
                        }
                    } else {
                        None
                    },
                    None => None,
                }
            } else {
                None
            },
            None => None,
        }
    } else {
        None
    }
}

/// The canonical nested error text.
pub open spec fn status_error_wire(
    code: Seq<char>,
    desc: Seq<char>,
    lit: Option<Seq<char>>,
) -> Seq<char> {
    let head = "{\"status\":{\"status_code\":"@ + json_str(code) + ",\"status_desc\":"@ + json_str(
        desc,
    );
    match lit {
        Some(l) => head + ",\"code_literal\":"@ + json_str(l) + "}}"@,
        None => head + "}}"@,
    }
}

/// Parse a nested error text, exactly as the reader reads it.
pub fn parse_status_error(s: &str) -> (r: Option<(String, String, Option<String>)>)
    requires
        vstd::string::is_ascii(s),
    ensures
        (match (r, status_error_read(s@)) {
            (Some((code, desc, lit)), Some((scode, sdesc, slit))) => code@ == scode && desc@
                == sdesc && (match (lit, slit) {
                (Some(a), Some(b)) => a@ == b,
                (None, None) => true,
                _ => false,
            }),
            (None, None) => true,
            _ => false,
        }),
{
    let n = s.unicode_len();
    proof {
        reveal_strlit("{\"status\":{\"status_code\":");
        reveal_strlit(",\"status_desc\":");
        reveal_strlit(",\"code_literal\":");
    }
    if match_lit(s, 0, "{\"status\":{\"status_code\":") {
        match parse_string_token(s, 25) {
            Some((code, j)) => {
                if match_lit(s, j, ",\"status_desc\":") {
                    match parse_string_token(s, j + 15) {
                        Some((desc, k)) => {
                            if k < n && k + 1 < n && k + 2 == n && s.get_char(k) == '}'
                                && s.get_char(k + 1) == '}' {
                                Some((code, desc, None))
                            } else if match_lit(s, k, ",\"code_literal\":") {
                                match parse_string_token(s, k + 16) {
                                    Some((lit, p)) => {
                                        if p < n && p + 1 < n && p + 2 == n && s.get_char(p)
                                            == '}' && s.get_char(p + 1) == '}' {
                                            Some((code, desc, Some(lit)))
                                        } else {
                                            None
                                        }
                                    },
                                    None => None,
                                }
                            } else {
                                None
                            }
                        },
                        None => None,
                    }
                } else {
                    None
                }
            },
            None => None,
        }
    } else {
        None
    }
}

/// Round trip: reading the canonical nested error text gives back what it
/// was built from.
pub proof fn lemma_status_error_round_trip(code: Seq<char>, desc: Seq<char>, lit: Option<Seq<char>>)
    requires
        clean_text(code),
        clean_text(desc),
        lit matches Some(l) ==> clean_text(l),
    ensures
        status_error_read(status_error_wire(code, desc, lit)) == Some((code, desc, lit)),
{
    reveal_strlit("{\"status\":{\"status_code\":");
    reveal_strlit(",\"status_desc\":");
    reveal_strlit(",\"code_literal\":");
    reveal_strlit("}}");
    let s = status_error_wire(code, desc, lit);
    assert(s.subrange(0, 25) =~= "{\"status\":{\"status_code\":"@);
    assert(s[25] == '"');
    assert(s[25 + code.len() as int + 1] == '"');
    assert forall|k: int| 0 <= k < code.len() implies s[25 + 1 + k] == code[k] by {}
    lemma_string_token_at(s, 25, code);
    let j: int = 25 + code.len() as int + 2;
    assert(s.subrange(j, j + 15) =~= ",\"status_desc\":"@);
    let i2: int = j + 15;
    assert(s[i2] == '"');
    assert(s[i2 + desc.len() as int + 1] == '"');
    assert forall|k: int| 0 <= k < desc.len() implies s[i2 + 1 + k] == desc[k] by {}
    lemma_string_token_at(s, i2, desc);
    let k2: int = i2 + desc.len() as int + 2;
    match lit {
        Some(l) => {
            assert(s[k2] == ',');
            assert(s.subrange(k2, k2 + 16) =~= ",\"code_literal\":"@);
            let i3: int = k2 + 16;
            assert(s[i3] == '"');
            assert(s[i3 + l.len() as int + 1] == '"');
            assert forall|k: int| 0 <= k < l.len() implies s[i3 + 1 + k] == l[k] by {}
            lemma_string_token_at(s, i3, l);
            let p2: int = i3 + l.len() as int + 2;
            assert(p2 + 2 == s.len() && s[p2] == '}' && s[p2 + 1] == '}');
        },
        None => {
            assert(k2 + 2 == s.len() && s[k2] == '}' && s[k2 + 1] == '}');
        },
    }
}

/// Soundness of the nested-error reader: every accepted text is the
/// canonical wire text of what was read, with clean contents.
pub proof fn lemma_status_error_read_sound(s: Seq<char>)
    ensures
        status_error_read(s) matches Some((code, desc, lit)) ==> {
            &&& s == status_error_wire(code, desc, lit)
            &&& clean_text(code)
            &&& clean_text(desc)
            &&& (lit matches Some(l) ==> clean_text(l))
        },
{
    reveal_strlit("{\"status\":{\"status_code\":");
    reveal_strlit(",\"status_desc\":");
    reveal_strlit(",\"code_literal\":");
    reveal_strlit("}}");
    if status_error_read(s) is Some {
        let e1 = clean_end(s, 26);
        lemma_clean_end_bounds(s, 26);
        let code = s.subrange(26, e1);
        let j = e1 + 1;
        let e2 = clean_end(s, j + 16);
        lemma_clean_end_bounds(s, j + 16);
        let desc = s.subrange(j + 16, e2);
        let k = e2 + 1;
        assert(clean_text(code));
        assert(clean_text(desc));
        if k + 2 == s.len() && k + 1 < s.len() && s[k] == '}' && s[k + 1] == '}' {
            let w = status_error_wire(code, desc, None);
            assert(w.len() == s.len());
            assert forall|i: int| 0 <= i < s.len() implies w[i] == s[i] by {
                if i < 25 {
                    assert(s.subrange(0, 25)[i] == s[i]);
                } else if 26 <= i < e1 {
                    assert(code[i - 26] == s[i]);
                } else if j <= i < j + 15 {
                    assert(s.subrange(j, j + 15)[i - j] == s[i]);
                } else if j + 16 <= i < e2 {
                    assert(desc[i - j - 16] == s[i]);
                }
            }
            assert(s =~= w);
        } else {
            let e3 = clean_end(s, k + 17);
            lemma_clean_end_bounds(s, k + 17);
            let lit = s.subrange(k + 17, e3);
            assert(clean_text(lit));
            let w = status_error_wire(code, desc, Some(lit));
            assert(w.len() == s.len());
            assert forall|i: int| 0 <= i < s.len() implies w[i] == s[i] by {
                if i < 25 {
                    assert(s.subrange(0, 25)[i] == s[i]);
                } else if 26 <= i < e1 {
                    assert(code[i - 26] == s[i]);
                } else if j <= i < j + 15 {
                    assert(s.subrange(j, j + 15)[i - j] == s[i]);
                } else if j + 16 <= i < e2 {
                    assert(desc[i - j - 16] == s[i]);
                } else if k <= i < k + 16 {
                    assert(s.subrange(k, k + 16)[i - k] == s[i]);
                } else if k + 17 <= i < e3 {
                    assert(lit[i - k - 17] == s[i]);
                }
            }
            assert(s =~= w);
        }
    }
}

/// The canonical card-payment request text: the amount and the card
/// section, the auto-capture flag written as `complete`.
pub open spec fn card_request_wire(
    amount: int,
    number: Seq<char>,
    em: Seq<char>,
    ey: Seq<char>,
    cvc: Seq<char>,
    complete: bool,
) -> Seq<char> {
    "{\"amount\":"@ + dec_rep_int(amount) + ",\"card\":{\"number\":"@ + json_str(number)
        + ",\"expiry_month\":"@ + json_str(em) + ",\"expiry_year\":"@ + json_str(ey) + ",\"cvc\":"@
        + json_str(cvc) + ",\"complete\":"@ + bool_text(complete) + "}}"@
}

/// Build the canonical card-payment request text.
pub fn build_card_request_text(
    amount: i64,
    number: &str,
    em: &str,
    ey: &str,
    cvc: &str,
    complete: bool,
) -> (r: String)
    ensures
        r@ == card_request_wire(amount as int, number@, em@, ey@, cvc@, complete),
{
    let mut out = String::new();
    out.append("{\"amount\":");
    push_i64(&mut out, amount);
    out.append(",\"card\":{\"number\":");
    push_quoted(&mut out, number);
    out.append(",\"expiry_month\":");
    push_quoted(&mut out, em);
    out.append(",\"expiry_year\":");
    push_quoted(&mut out, ey);
    out.append(",\"cvc\":");
    push_quoted(&mut out, cvc);
    out.append(",\"complete\":");
    push_bool(&mut out, complete);
    out.append("}}");
    proof {
        assert(out@ =~= card_request_wire(amount as int, number@, em@, ey@, cvc@, complete));
    }
    out
}

/// The canonical amount-only request text.
pub open spec fn amount_request_wire(amount: int) -> Seq<char> {
    "{\"amount\":"@ + dec_rep_int(amount) + "}"@
}

/// Build the canonical amount-only request text.
pub fn build_amount_request_text(amount: i64) -> (r: String)
    ensures
        r@ == amount_request_wire(amount as int),
{
    let mut out = String::new();
    out.append("{\"amount\":");
    push_i64(&mut out, amount);
    out.append("}");
    proof {
        assert(out@ =~= amount_request_wire(amount as int));
    }
    out
}

/// The canonical capture request text: the transaction id and the amount.
pub open spec fn capture_request_wire(txn: Seq<char>, amount: int) -> Seq<char> {
    "{\"transaction_id\":"@ + json_str(txn) + ",\"amount\":"@ + dec_rep_int(amount) + "}"@
}

/// Build the canonical capture request text.
pub fn build_capture_request_text(txn: &str, amount: i64) -> (r: String)
    ensures
        r@ == capture_request_wire(txn@, amount as int),
{
    let mut out = String::new();
    out.append("{\"transaction_id\":");
    push_quoted(&mut out, txn);
    out.append(",\"amount\":");
    push_i64(&mut out, amount);
    out.append("}");
    proof {
        assert(out@ =~= capture_request_wire(txn@, amount as int));
    }
    out
}

} // verus!
