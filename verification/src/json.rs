//! JSON encoding of response bodies: a cat as an object `{"id":…,"name":"…"}`
//! and a list of cats as an array of such objects.
//!
//! The encoding is defined by spec functions over sequences of characters and
//! implemented by verified executable functions that meet them exactly.

use vstd::prelude::*;
use vstd::string::StrSliceExecFns;
use vstd::string::StringExecFns;

use crate::models::Cat;
use crate::models::CatModel;

verus! {

/// Relies on `String::push` of std: it appends the given character to the
/// end of the string.
pub assume_specification[ String::push ](s: &mut String, c: char)
    ensures
        final(s)@ == old(s)@.push(c),
;

/// The character for a single decimal digit.
pub open spec fn dec_digit_char(d: int) -> char
    recommends
        0 <= d < 10,
{
    ((d + 48) as u8) as char
}

/// The decimal digits of a natural number, most significant first.
pub open spec fn dec_nat(n: nat) -> Seq<char>
    decreases n,
{
    if n < 10 {
        seq![dec_digit_char(n as int)]
    } else {
        dec_nat(n / 10) + seq![dec_digit_char((n % 10) as int)]
    }
}

/// The decimal rendering of an integer: a minus sign for negative values,
/// then the digits of the magnitude.
pub open spec fn dec_int(i: int) -> Seq<char> {
    if i < 0 {
        seq!['-'] + dec_nat((-i) as nat)
    } else {
        dec_nat(i as nat)
    }
}

fn dec_digit(d: u32) -> (c: char)
    requires
        d < 10,
    ensures
        c == dec_digit_char(d as int),
{
    (48 + d as u8) as char
}

fn dec_of_u32(n: u32) -> (s: String)
    ensures
        s@ == dec_nat(n as nat),
    decreases n,
{
    if n < 10 {
        let mut s = String::new();
        s.push(dec_digit(n));
        proof {
            assert(s@ =~= seq![dec_digit_char(n as int)]);
        }
        s
    } else {
        let mut s = dec_of_u32(n / 10);
        s.push(dec_digit(n % 10));
        proof {
            assert(s@ =~= dec_nat((n / 10) as nat) + seq![dec_digit_char((n % 10) as int)]);
        }
        s
    }
}

/// Renders an id in decimal, exactly as [`dec_int`] describes.
pub fn dec_of_i32(i: i32) -> (s: String)
    ensures
        s@ == dec_int(i as int),
{
    if i >= 0 {
        dec_of_u32(i as u32)
    } else {
        let mag: u32 = (-(i as i64)) as u32;
        proof {
            assert(mag as nat == (-(i as int)) as nat);
        }
        let mut s = String::from_str("-");
        proof {
            reveal_strlit("-");
            assert(s@ =~= seq!['-']);
        }
        let digits = dec_of_u32(mag);
        s.append(digits.as_str());
        proof {
            assert(s@ =~= seq!['-'] + dec_nat((-(i as int)) as nat));
        }
        s
    }
}

/// The character for a single hexadecimal digit, lower case.
pub open spec fn hex_digit_char(d: int) -> char
    recommends
        0 <= d < 16,
{
    if d < 10 {
        ((d + 48) as u8) as char
    } else {
        ((d + 87) as u8) as char
    }
}

/// How one character appears inside a JSON string literal: quote, backslash
/// and the named control characters get a two-character escape, any other
/// control character a `\u00..` escape, and everything else stands as it is.
pub open spec fn escape_char(c: char) -> Seq<char> {
    if c == '"' {
        seq!['\\', '"']
    } else if c == '\\' {
        seq!['\\', '\\']
    } else if c == '\u{8}' {
        seq!['\\', 'b']
    } else if c == '\u{c}' {
        seq!['\\', 'f']
    } else if c == '\n' {
        seq!['\\', 'n']
    } else if c == '\r' {
        seq!['\\', 'r']
    } else if c == '\t' {
        seq!['\\', 't']
    } else if (c as u32) < 32 {
        seq!['\\', 'u', '0', '0', hex_digit_char((c as u32) as int / 16), hex_digit_char(
            (c as u32) as int % 16,
        )]
    } else {
        seq![c]
    }
}

/// A whole string escaped for a JSON string literal, character by character.
pub open spec fn escape_string(s: Seq<char>) -> Seq<char>
    decreases s.len(),
{
    if s.len() == 0 {
        Seq::empty()
    } else {
        escape_char(s[0]) + escape_string(s.skip(1))
    }
}

proof fn lemma_escape_string_snoc(s: Seq<char>, c: char)
    ensures
        escape_string(s.push(c)) == escape_string(s) + escape_char(c),
    decreases s.len(),
{
    if s.len() == 0 {
        assert(s.push(c)[0] == c);
        assert(s.push(c).skip(1) =~= Seq::<char>::empty());
        assert(escape_string(s.push(c)) == escape_char(c) + escape_string(Seq::<char>::empty()));
        assert(escape_string(s.push(c)) =~= escape_string(s) + escape_char(c));
    } else {
        assert(s.push(c)[0] == s[0]);
        assert(s.push(c).skip(1) =~= s.skip(1).push(c));
        lemma_escape_string_snoc(s.skip(1), c);
        assert(escape_string(s.push(c)) == escape_char(s[0]) + (escape_string(s.skip(1))
            + escape_char(c)));
        assert(escape_string(s.push(c)) =~= escape_string(s) + escape_char(c));
    }
}

fn hex_digit(d: u32) -> (c: char)
    requires
        d < 16,
    ensures
        c == hex_digit_char(d as int),
{
    if d < 10 {
        (48 + d as u8) as char
    } else {
        (87 + d as u8) as char
    }
}

fn append_escaped_char(out: &mut String, c: char)
    ensures
        final(out)@ == old(out)@ + escape_char(c),
{
    if c == '"' {
        out.append("\\\"");
        proof {
            reveal_strlit("\\\"");
            assert("\\\""@ =~= seq!['\\', '"']);
        }
    } else if c == '\\' {
        out.append("\\\\");
        proof {
            reveal_strlit("\\\\");
            assert("\\\\"@ =~= seq!['\\', '\\']);
        }
    } else if c == '\u{8}' {
        out.append("\\b");
        proof {
            reveal_strlit("\\b");
            assert("\\b"@ =~= seq!['\\', 'b']);
        }
    } else if c == '\u{c}' {
        out.append("\\f");
        proof {
            reveal_strlit("\\f");
            assert("\\f"@ =~= seq!['\\', 'f']);
        }
    } else if c == '\n' {
        out.append("\\n");
        proof {
            reveal_strlit("\\n");
            assert("\\n"@ =~= seq!['\\', 'n']);
        }
    } else if c == '\r' {
        out.append("\\r");
        proof {
            reveal_strlit("\\r");
            assert("\\r"@ =~= seq!['\\', 'r']);
        }
    } else if c == '\t' {
        out.append("\\t");
        proof {
            reveal_strlit("\\t");
            assert("\\t"@ =~= seq!['\\', 't']);
        }
    } else if (c as u32) < 32 {
        let code: u32 = c as u32;
        out.append("\\u00");
        out.push(hex_digit(code / 16));
        out.push(hex_digit(code % 16));
        proof {
            reveal_strlit("\\u00");
            assert("\\u00"@ =~= seq!['\\', 'u', '0', '0']);
            assert(final(out)@ =~= old(out)@ + escape_char(c));
        }
    } else {
        out.push(c);
        proof {
            assert(final(out)@ =~= old(out)@ + seq![c]);
        }
    }
}

/// Escapes a string for use inside a JSON string literal, exactly as
/// [`escape_string`] describes.
pub fn escape_json_string(s: &str) -> (r: String)
    ensures
        r@ == escape_string(s@),
{
    let len = s.unicode_len();
    let mut out = String::new();
    let mut i: usize = 0;
    while i < len
        invariant
            i <= len,
            len == s@.len(),
            out@ == escape_string(s@.take(i as int)),
        decreases len - i,
    {
        let c = s.get_char(i);
        append_escaped_char(&mut out, c);
        proof {
            assert(s@.take(i + 1 as int) =~= s@.take(i as int).push(c));
            lemma_escape_string_snoc(s@.take(i as int), c);
        }
        i += 1;
    }
    proof {
        assert(s@.take(len as int) =~= s@);
    }
    out
}

/// The JSON object for one cat: `{"id":<id>,"name":"<escaped name>"}`.
pub open spec fn json_of_cat(c: CatModel) -> Seq<char> {
    seq!['{', '"', 'i', 'd', '"', ':'] + dec_int(c.id) + seq![',', '"', 'n', 'a', 'm', 'e', '"', ':', '"']
        + escape_string(c.name) + seq!['"', '}']
}

/// The elements of the JSON array for a list of cats, separated by commas.
pub open spec fn json_of_cat_items(s: Seq<Cat>) -> Seq<char>
    decreases s.len(),
{
    if s.len() == 0 {
        Seq::empty()
    } else if s.len() == 1 {
        json_of_cat(s[0]@)
    } else {
        json_of_cat(s[0]@) + seq![','] + json_of_cat_items(s.skip(1))
    }
}

/// The JSON array for a list of cats: `[` the comma-separated objects `]`.
pub open spec fn json_of_cats(s: Seq<Cat>) -> Seq<char> {
    seq!['['] + json_of_cat_items(s) + seq![']']
}

/// Encodes one cat as a JSON object, exactly as [`json_of_cat`] describes.
pub fn cat_to_json(c: &Cat) -> (r: String)
    ensures
        r@ == json_of_cat(c@),
{
    let mut out = String::from_str("{\"id\":");
    proof {
        reveal_strlit("{\"id\":");
        assert(out@ =~= seq!['{', '"', 'i', 'd', '"', ':']);
    }
    let id_digits = dec_of_i32(c.id);
    out.append(id_digits.as_str());
    out.append(",\"name\":\"");
    proof {
        reveal_strlit(",\"name\":\"");
        assert(",\"name\":\""@ =~= seq![',', '"', 'n', 'a', 'm', 'e', '"', ':', '"']);
    }
    let escaped = escape_json_string(c.name.as_str());
    out.append(escaped.as_str());
    out.append("\"}");
    proof {
        reveal_strlit("\"}");
        assert("\"}"@ =~= seq!['"', '}']);
        assert(out@ =~= json_of_cat(c@));
    }
    out
}

proof fn lemma_json_items_snoc(s: Seq<Cat>, c: Cat)
    ensures
        json_of_cat_items(s.push(c)) == if s.len() == 0 {
            json_of_cat(c@)
        } else {
            (json_of_cat_items(s) + seq![','] + json_of_cat(c@))
        },
    decreases s.len(),
{
    if s.len() == 0 {
        assert(s.push(c)[0] == c);
        assert(json_of_cat_items(s.push(c)) == json_of_cat(c@));
    } else {
        assert(s.push(c)[0] == s[0]);
        assert(s.push(c).skip(1) =~= s.skip(1).push(c));
        lemma_json_items_snoc(s.skip(1), c);
        if s.len() == 1 {
            assert(json_of_cat_items(s.push(c)) == json_of_cat(s[0]@) + seq![','] + json_of_cat(
                c@,
            ));
            assert(json_of_cat_items(s.push(c)) =~= json_of_cat_items(s) + seq![','] + json_of_cat(
                c@,
            ));
        } else {
            assert(json_of_cat_items(s.push(c)) == json_of_cat(s[0]@) + seq![','] + (
            json_of_cat_items(s.skip(1)) + seq![','] + json_of_cat(c@)));
            assert(json_of_cat_items(s.push(c)) =~= json_of_cat_items(s) + seq![','] + json_of_cat(
                c@,
            ));
        }
    }
}

/// Encodes a list of cats as a JSON array, exactly as [`json_of_cats`]
/// describes.
pub fn cats_to_json(rows: &Vec<Cat>) -> (r: String)
    ensures
        r@ == json_of_cats(rows@),
{
    let mut out = String::from_str("[");
    proof {
        reveal_strlit("[");
        assert(out@ =~= seq!['[']);
    }
    let mut i: usize = 0;
    while i < rows.len()
        invariant
            i <= rows@.len(),
            out@ == seq!['['] + json_of_cat_items(rows@.take(i as int)),
        decreases rows@.len() - i,
    {
        if i > 0 {
            out.append(",");
            proof {
                reveal_strlit(",");
                assert(","@ =~= seq![',']);
            }
        }
        let item = cat_to_json(&rows[i]);
        out.append(item.as_str());
        proof {
            assert(rows@.take(i + 1 as int) =~= rows@.take(i as int).push(rows@[i as int]));
            lemma_json_items_snoc(rows@.take(i as int), rows@[i as int]);
            assert(out@ =~= seq!['['] + json_of_cat_items(rows@.take(i + 1 as int)));
        }
        i += 1;
    }
    out.append("]");
    proof {
        reveal_strlit("]");
        assert("]"@ =~= seq![']']);
        assert(rows@.take(rows@.len() as int) =~= rows@);
        assert(out@ =~= json_of_cats(rows@));
    }
    out
}

} // verus!
