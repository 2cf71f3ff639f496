//! JSON text of request bodies: string escaping, arrays, objects and
//! the scalar forms the Gmail resources use.
//!
//! Strings are escaped the way `serde_json` writes them: `"` and `\`
//! are backslash-escaped, the control characters backspace, form feed,
//! line feed, carriage return and tab get their short escapes, the
//! other characters below U+0020 are written `\u00XX` with lowercase
//! hexadecimal digits, and every other character is kept as is.

use vstd::prelude::*;
use vstd::string::*;

use crate::text::{decimal, push_char, push_str, str_chars, u64_decimal};

verus! {

/// The lowercase hexadecimal digit of a value below sixteen.
pub open spec fn hex_digit(d: u32) -> char {
    if d < 10 {
        (d + 48) as char
    } else {
        (d + 87) as char
    }
}

/// The escaped form of one character inside a JSON string.
pub open spec fn escape_char(c: char) -> Seq<char> {
    if c == '"' {
        seq!['\\', '"']
    } else if c == '\\' {
        seq!['\\', '\\']
    } else if c == '\x08' {
        seq!['\\', 'b']
    } else if c == '\x0C' {
        seq!['\\', 'f']
    } else if c == '\n' {
        seq!['\\', 'n']
    } else if c == '\r' {
        seq!['\\', 'r']
    } else if c == '\t' {
        seq!['\\', 't']
    } else if (c as u32) < 0x20 {
        seq!['\\', 'u', '0', '0', hex_digit((c as u32) / 16), hex_digit((c as u32) % 16)]
    } else {
        seq![c]
    }
}

/// The escaped form of a character sequence inside a JSON string.
pub open spec fn escape(s: Seq<char>) -> Seq<char>
    decreases s.len(),
{
    if s.len() == 0 {
        Seq::empty()
    } else {
        escape(s.drop_last()) + escape_char(s.last())
    }
}

/// A JSON string literal holding the given characters.
pub open spec fn json_str(s: Seq<char>) -> Seq<char> {
    seq!['"'] + escape(s) + seq!['"']
}

/// Joins JSON texts with commas.
pub open spec fn join_commas(items: Seq<Seq<char>>) -> Seq<char>
    decreases items.len(),
{
    if items.len() == 0 {
        Seq::empty()
    } else if items.len() == 1 {
        items[0]
    } else {
        join_commas(items.drop_last()) + seq![','] + items.last()
    }
}

/// A JSON array of already encoded values.
pub open spec fn json_array(items: Seq<Seq<char>>) -> Seq<char> {
    seq!['['] + join_commas(items) + seq![']']
}

/// One member of a JSON object: the quoted key, a colon, the value.
pub open spec fn json_member(field: (Seq<char>, Seq<char>)) -> Seq<char> {
    json_str(field.0) + seq![':'] + field.1
}

/// A JSON object whose members are the given keys and encoded values,
/// in order.
pub open spec fn json_object(fields: Seq<(Seq<char>, Seq<char>)>) -> Seq<char> {
    seq!['{'] + join_commas(fields.map_values(|f: (Seq<char>, Seq<char>)| json_member(f))) + seq![
        '}',
    ]
}

/// The values of the first `n` pairs that are named `key`, in order.
pub open spec fn values_upto(pairs: Seq<(Seq<char>, Seq<char>)>, key: Seq<char>, n: nat) -> Seq<Seq<char>>
    decreases n,
{
    if n == 0 {
        Seq::empty()
    } else {
        values_upto(pairs, key, (n - 1) as nat) + if pairs[n - 1].0 == key {
            seq![pairs[n - 1].1]
        } else {
            Seq::empty()
        }
    }
}

/// The values of the pairs named `key`, in order: the members of that
/// name in an object's member list, or the values of a query key.
pub open spec fn values_of(pairs: Seq<(Seq<char>, Seq<char>)>, key: Seq<char>) -> Seq<Seq<char>> {
    values_upto(pairs, key, pairs.len())
}

/// Whether `text` is a JSON object whose members named `key` have
/// exactly the encoded `values`, in order.
pub open spec fn object_has(text: Seq<char>, key: Seq<char>, values: Seq<Seq<char>>) -> bool {
    exists|fields: Seq<(Seq<char>, Seq<char>)>|
        #![trigger json_object(fields), values_of(fields, key)]
        text == json_object(fields) && values_of(fields, key) == values
}

proof fn lemma_values_upto_concat(a: Seq<(Seq<char>, Seq<char>)>, b: Seq<(Seq<char>, Seq<char>)>, key: Seq<char>, n: nat)
    requires
        n <= a.len() + b.len(),
    ensures
        n <= a.len() ==> values_upto(a + b, key, n) == values_upto(a, key, n),
        n >= a.len() ==> values_upto(a + b, key, n) == values_of(a, key) + values_upto(
            b,
            key,
            (n - a.len()) as nat,
        ),
    decreases n,
{
    if n > 0 {
        lemma_values_upto_concat(a, b, key, (n - 1) as nat);
        if n > a.len() {
            assert((a + b)[n - 1] == b[n - 1 - a.len()]);
            if n - 1 == a.len() {
                assert(values_upto(b, key, 0) =~= Seq::<Seq<char>>::empty());
            }
        } else {
            assert((a + b)[n - 1] == a[n - 1]);
        }
    } else {
        assert(values_of(a, key) + values_upto(b, key, 0) =~= values_of(a, key)) by {
            if a.len() == 0 {
            }
        }
    }
}

/// The values of all pairs but the last are the values of the list
/// without it.
pub proof fn lemma_values_upto_drop_last(pairs: Seq<(Seq<char>, Seq<char>)>, key: Seq<char>)
    requires
        pairs.len() > 0,
    ensures
        values_upto(pairs, key, (pairs.len() - 1) as nat) == values_of(pairs.drop_last(), key),
{
    lemma_values_upto_concat(pairs.drop_last(), seq![pairs.last()], key, (pairs.len() - 1) as nat);
    assert(pairs.drop_last() + seq![pairs.last()] =~= pairs);
}

/// The values of a concatenation are those of each part, in order.
pub proof fn lemma_values_of_concat(a: Seq<(Seq<char>, Seq<char>)>, b: Seq<(Seq<char>, Seq<char>)>, key: Seq<char>)
    ensures
        values_of(a + b, key) == values_of(a, key) + values_of(b, key),
{
    lemma_values_upto_concat(a, b, key, (a.len() + b.len()) as nat);
}

/// The JSON array of the given strings.
pub open spec fn json_str_array(items: Seq<Seq<char>>) -> Seq<char> {
    json_array(items.map_values(|s: Seq<char>| json_str(s)))
}

/// A JSON array with no items is `[]`; one more item goes before the
/// closing bracket, after a comma when there are items already.
pub proof fn law_json_array_push(items: Seq<Seq<char>>, item: Seq<char>)
    ensures
        json_array(Seq::empty()) == seq!['[', ']'],
        json_array(items.push(item)) == json_array(items).drop_last() + (if items.len() == 0 {
            Seq::<char>::empty()
        } else {
            seq![',']
        }) + item + seq![']'],
{
    assert(items.push(item).drop_last() =~= items);
    assert(json_array(Seq::empty()) =~= seq!['[', ']']);
    assert(json_array(items).drop_last() =~= seq!['['] + join_commas(items));
    assert(json_array(items.push(item)) =~= json_array(items).drop_last() + (if items.len() == 0 {
        Seq::<char>::empty()
    } else {
        seq![',']
    }) + item + seq![']']);
}

/// A JSON object with no members is `{}`; one more member goes before
/// the closing brace, after a comma when there are members already, as
/// its quoted key, a colon and its value.
pub proof fn law_json_object_push(fields: Seq<(Seq<char>, Seq<char>)>, key: Seq<char>, value: Seq<char>)
    ensures
        json_object(Seq::empty()) == seq!['{', '}'],
        json_object(fields.push((key, value))) == json_object(fields).drop_last() + (if fields.len() == 0 {
            Seq::<char>::empty()
        } else {
            seq![',']
        }) + seq!['"'] + escape(key) + seq!['"', ':'] + value + seq!['}'],
{
    let ms = fields.map_values(|f: (Seq<char>, Seq<char>)| json_member(f));
    let ms2 = fields.push((key, value)).map_values(|f: (Seq<char>, Seq<char>)| json_member(f));
    assert(ms2 =~= ms.push(json_member((key, value))));
    assert(ms2.drop_last() =~= ms);
    assert(Seq::<(Seq<char>, Seq<char>)>::empty().map_values(|f: (Seq<char>, Seq<char>)| json_member(f)) =~= Seq::<Seq<char>>::empty());
    assert(json_object(Seq::empty()) =~= seq!['{', '}']);
    assert(json_object(fields).drop_last() =~= seq!['{'] + join_commas(ms));
    if fields.len() == 0 {
        assert(join_commas(ms2) == json_member((key, value)));
    }
    assert(json_object(fields.push((key, value))) =~= json_object(fields).drop_last() + (if fields.len() == 0 {
        Seq::<char>::empty()
    } else {
        seq![',']
    }) + seq!['"'] + escape(key) + seq!['"', ':'] + value + seq!['}']);
}

/// A JSON array of strings with no items is `[]`; one more string goes
/// before the closing bracket, after a comma when there are items
/// already, as its JSON string literal.
pub proof fn law_json_str_array_push(items: Seq<Seq<char>>, s: Seq<char>)
    ensures
        json_str_array(Seq::empty()) == seq!['[', ']'],
        json_str_array(items.push(s)) == json_str_array(items).drop_last() + (if items.len() == 0 {
            Seq::<char>::empty()
        } else {
            seq![',']
        }) + json_str(s) + seq![']'],
{
    let js = items.map_values(|t: Seq<char>| json_str(t));
    let js2 = items.push(s).map_values(|t: Seq<char>| json_str(t));
    assert(js2 =~= js.push(json_str(s)));
    assert(js2.drop_last() =~= js);
    assert(Seq::<Seq<char>>::empty().map_values(|t: Seq<char>| json_str(t)) =~= Seq::<Seq<char>>::empty());
    assert(json_str_array(Seq::empty()) =~= seq!['[', ']']);
    assert(json_str_array(items).drop_last() =~= seq!['['] + join_commas(js));
    if items.len() == 0 {
        assert(join_commas(js2) == json_str(s));
    }
    assert(json_str_array(items.push(s)) =~= json_str_array(items).drop_last() + (if items.len() == 0 {
        Seq::<char>::empty()
    } else {
        seq![',']
    }) + json_str(s) + seq![']']);
}


/// `null`.
pub open spec fn json_null() -> Seq<char> {
    seq!['n', 'u', 'l', 'l']
}

/// A JSON string, or `null` for `None`.
pub open spec fn json_opt_str(o: Option<Seq<char>>) -> Seq<char> {
    match o {
        Some(s) => json_str(s),
        None => json_null(),
    }
}

/// A JSON number, or `null` for `None`.
pub open spec fn json_opt_u64(o: Option<u64>) -> Seq<char> {
    match o {
        Some(n) => decimal(n as nat),
        None => json_null(),
    }
}

/// The views of a vector of strings.
pub open spec fn strings_view(v: Seq<String>) -> Seq<Seq<char>> {
    v.map_values(|s: String| s@)
}

/// The views of a vector of key and encoded value pairs.
pub open spec fn fields_view(v: Seq<(String, String)>) -> Seq<(Seq<char>, Seq<char>)> {
    v.map_values(|f: (String, String)| (f.0@, f.1@))
}

/// The view of an optional string.
pub open spec fn opt_view(o: Option<String>) -> Option<Seq<char>> {
    match o {
        Some(s) => Some(s@),
        None => None,
    }
}

/// The value of a hexadecimal digit, either case; `None` for other
/// characters.
pub open spec fn hex_value(c: char) -> Option<int> {
    if '0' <= c && c <= '9' {
        Some((c as u32) - 48)
    } else if 'a' <= c && c <= 'f' {
        Some((c as u32) - 87)
    } else if 'A' <= c && c <= 'F' {
        Some((c as u32) - 55)
    } else {
        None
    }
}

/// The code point written by four hexadecimal digits, if they are.
pub open spec fn hex4(t: Seq<char>) -> Option<int> {
    match (hex_value(t[0]), hex_value(t[1]), hex_value(t[2]), hex_value(t[3])) {
        (Some(a), Some(b), Some(c), Some(d)) => Some(a * 4096 + b * 256 + c * 16 + d),
        _ => None,
    }
}

/// Prepends a character to a decoded text, if there is one.
pub open spec fn prepend(c: char, rest: Option<Seq<char>>) -> Option<Seq<char>> {
    match rest {
        Some(r) => Some(seq![c] + r),
        None => None,
    }
}

/// Reads the inside of a JSON string literal (RFC 8259, section 7):
/// the characters it stands for, or `None` when it holds an unescaped
/// quote or control character, or an escape that is not well formed.
/// A `\u` escape of a surrogate code point is not read.
pub open spec fn unescape(t: Seq<char>) -> Option<Seq<char>>
    decreases t.len(),
{
    if t.len() == 0 {
        Some(Seq::empty())
    } else if t[0] == '\\' {
        if t.len() < 2 {
            None
        } else {
            let e = t[1];
            if e == '"' || e == '\\' || e == '/' {
                prepend(e, unescape(t.skip(2)))
            } else if e == 'b' {
                prepend('\x08', unescape(t.skip(2)))
            } else if e == 'f' {
                prepend('\x0C', unescape(t.skip(2)))
            } else if e == 'n' {
                prepend('\n', unescape(t.skip(2)))
            } else if e == 'r' {
                prepend('\r', unescape(t.skip(2)))
            } else if e == 't' {
                prepend('\t', unescape(t.skip(2)))
            } else if e == 'u' && t.len() >= 6 {
                match hex4(t.subrange(2, 6)) {
                    Some(v) => if v < 0xD800 || (0xE000 <= v && v < 0x10000) {
                        prepend(v as char, unescape(t.skip(6)))
                    } else {
                        None
                    },
                    None => None,
                }
            } else {
                None
            }
        }
    } else if t[0] == '"' || (t[0] as u32) < 0x20 {
        None
    } else {
        prepend(t[0], unescape(t.skip(1)))
    }
}

/// A JSON string literal as RFC 8259 reads it: the text between the
/// quotes, unescaped.
pub open spec fn read_json_str(t: Seq<char>) -> Option<Seq<char>> {
    if t.len() >= 2 && t[0] == '"' && t.last() == '"' {
        unescape(t.subrange(1, t.len() - 1))
    } else {
        None
    }
}

proof fn lemma_escape_append(a: Seq<char>, b: Seq<char>)
    ensures
        escape(a + b) == escape(a) + escape(b),
    decreases b.len(),
{
    if b.len() == 0 {
        assert(a + b == a);
    } else {
        lemma_escape_append(a, b.drop_last());
        assert((a + b).drop_last() == a + b.drop_last());
        assert((a + b).last() == b.last());
    }
}

proof fn lemma_escape_char_read(c: char, rest: Seq<char>)
    ensures
        unescape(escape_char(c) + rest) == prepend(c, unescape(rest)),
{
    let t = escape_char(c) + rest;
    let k = escape_char(c).len() as int;
    assert(t.skip(k) == rest);
    if (c as u32) < 0x20 && c != '\x08' && c != '\x0C' && c != '\n' && c != '\r' && c != '\t' {
        let u = c as u32;
        assert(t.subrange(2, 6) == seq!['0', '0', hex_digit(u / 16), hex_digit(u % 16)]);
        assert(hex_value(hex_digit(u / 16)) == Some((u / 16) as int));
        assert(hex_value(hex_digit(u % 16)) == Some((u % 16) as int));
        assert(hex4(t.subrange(2, 6)) == Some(u as int));
        assert((u as char) == c);
    }
}

/// Reading back what `json_str` writes gives the text again: escaping
/// loses nothing, and no text can end the literal early.
pub proof fn law_json_str_reads_back(s: Seq<char>)
    ensures
        read_json_str(json_str(s)) == Some(s),
    decreases s.len(),
{
    lemma_unescape_escape(s);
    let t = json_str(s);
    assert(t.subrange(1, t.len() - 1) == escape(s));
}

proof fn lemma_unescape_escape(s: Seq<char>)
    ensures
        unescape(escape(s)) == Some(s),
    decreases s.len(),
{
    if s.len() == 0 {
    } else {
        let c = s[0];
        let rest = s.drop_first();
        assert(s == seq![c] + rest);
        lemma_escape_append(seq![c], rest);
        assert(seq![c].drop_last() == Seq::<char>::empty());
        assert(seq![c].last() == c);
        assert(escape(Seq::<char>::empty()) == Seq::<char>::empty());
        assert(Seq::<char>::empty() + escape_char(c) =~= escape_char(c));
        assert(escape(seq![c]) == escape_char(c));
        lemma_unescape_escape(rest);
        lemma_escape_char_read(c, escape(rest));
        assert(seq![c] + rest == s);
    }
}

fn hex_digit_char(d: u32) -> (c: char)
    requires
        d < 16,
    ensures
        c == hex_digit(d),
{
    let b: u8 = if d < 10 {
        (d + 48) as u8
    } else {
        (d + 87) as u8
    };
    b as char
}

/// Appends the escaped form of one character.
fn push_escaped(out: &mut String, c: char)
    ensures
        final(out)@ == old(out)@ + escape_char(c),
{
    let ghost start = out@;
    if c == '"' {
        push_char(out, '\\');
        push_char(out, '"');
    } else if c == '\\' {
        push_char(out, '\\');
        push_char(out, '\\');
    } else if c == '\x08' {
        push_char(out, '\\');
        push_char(out, 'b');
    } else if c == '\x0C' {
        push_char(out, '\\');
        push_char(out, 'f');
    } else if c == '\n' {
        push_char(out, '\\');
        push_char(out, 'n');
    } else if c == '\r' {
        push_char(out, '\\');
        push_char(out, 'r');
    } else if c == '\t' {
        push_char(out, '\\');
        push_char(out, 't');
    } else if (c as u32) < 0x20 {
        let u: u32 = c as u32;
        push_char(out, '\\');
        push_char(out, 'u');
        push_char(out, '0');
        push_char(out, '0');
        push_char(out, hex_digit_char(u / 16));
        push_char(out, hex_digit_char(u % 16));
    } else {
        push_char(out, c);
    }
    assert(out@ =~= start + escape_char(c));
}

/// Appends a JSON string literal holding `s`.
pub fn push_json_str(out: &mut String, s: &str)
    ensures
        final(out)@ == old(out)@ + json_str(s@),
{
    let ghost start = out@;
    let chars = str_chars(s);
    push_char(out, '"');
    let mut i: usize = 0;
    while i < chars.len()
        invariant
            chars@ == s@,
            i <= chars.len(),
            out@ == start + seq!['"'] + escape(chars@.take(i as int)),
        decreases chars.len() - i,
    {
        push_escaped(out, chars[i]);
        proof {
            let t = chars@.take(i + 1);
            assert(t.drop_last() == chars@.take(i as int));
            assert(t.last() == chars@[i as int]);
        }
        i += 1;
    }
    assert(chars@.take(chars.len() as int) == chars@);
    push_char(out, '"');
    assert(out@ =~= start + json_str(s@));
}

/// The JSON string literal holding `s`.
pub fn json_string(s: &str) -> (r: String)
    ensures
        r@ == json_str(s@),
{
    let mut out = String::new();
    push_json_str(&mut out, s);
    assert(out@ =~= json_str(s@));
    out
}

/// The JSON array of already encoded values.
pub fn json_array_of(items: &Vec<String>) -> (r: String)
    ensures
        r@ == json_array(strings_view(items@)),
{
    let ghost view = strings_view(items@);
    let mut out = String::new();
    push_char(&mut out, '[');
    let mut i: usize = 0;
    while i < items.len()
        invariant
            view == strings_view(items@),
            i <= items.len(),
            out@ == seq!['['] + join_commas(view.take(i as int)),
        decreases items.len() - i,
    {
        let ghost before = out@;
        if i > 0 {
            push_char(&mut out, ',');
        }
        push_str(&mut out, items[i].as_str());
        proof {
            let t = view.take(i + 1);
            assert(t.drop_last() == view.take(i as int));
            assert(t.last() == items@[i as int]@);
            if i == 0 {
                assert(t.len() == 1);
                assert(out@ =~= seq!['['] + join_commas(t));
            } else {
                assert(out@ =~= seq!['['] + join_commas(t));
            }
        }
        i += 1;
    }
    assert(view.take(items.len() as int) == view);
    push_char(&mut out, ']');
    assert(out@ =~= json_array(view));
    out
}

/// The JSON array of the given strings.
pub fn json_string_array(items: &[String]) -> (r: String)
    ensures
        r@ == json_str_array(strings_view(items@)),
{
    let mut encoded: Vec<String> = Vec::new();
    let mut i: usize = 0;
    while i < items.len()
        invariant
            i <= items.len(),
            encoded@.len() == i,
            forall|k: int| 0 <= k < i ==> (#[trigger] encoded@[k])@ == json_str(items@[k]@),
        decreases items.len() - i,
    {
        let e = json_string(items[i].as_str());
        encoded.push(e);
        i += 1;
    }
    assert(strings_view(encoded@) =~= strings_view(items@).map_values(|s: Seq<char>| json_str(s)));
    json_array_of(&encoded)
}

/// The JSON object of the given keys and encoded values, in order.
pub fn json_object_of(fields: &Vec<(String, String)>) -> (r: String)
    ensures
        r@ == json_object(fields_view(fields@)),
{
    let ghost members = fields_view(fields@).map_values(
        |f: (Seq<char>, Seq<char>)| json_member(f),
    );
    let mut out = String::new();
    push_char(&mut out, '{');
    let mut i: usize = 0;
    while i < fields.len()
        invariant
            members == fields_view(fields@).map_values(|f: (Seq<char>, Seq<char>)| json_member(f)),
            i <= fields.len(),
            out@ == seq!['{'] + join_commas(members.take(i as int)),
        decreases fields.len() - i,
    {
        if i > 0 {
            push_char(&mut out, ',');
        }
        push_json_str(&mut out, fields[i].0.as_str());
        push_char(&mut out, ':');
        push_str(&mut out, fields[i].1.as_str());
        proof {
            let t = members.take(i + 1);
            assert(t.drop_last() == members.take(i as int));
            assert(t.last() == json_member((fields@[i as int].0@, fields@[i as int].1@)));
            assert(out@ =~= seq!['{'] + join_commas(t));
        }
        i += 1;
    }
    assert(members.take(fields.len() as int) == members);
    push_char(&mut out, '}');
    assert(out@ =~= json_object(fields_view(fields@)));
    out
}

/// `null`.
pub fn json_null_text() -> (r: String)
    ensures
        r@ == json_null(),
{
    let mut out = String::new();
    push_char(&mut out, 'n');
    push_char(&mut out, 'u');
    push_char(&mut out, 'l');
    push_char(&mut out, 'l');
    assert(out@ =~= json_null());
    out
}

/// A JSON string, or `null` for `None`.
pub fn json_opt_string(o: &Option<String>) -> (r: String)
    ensures
        r@ == json_opt_str(opt_view(*o)),
{
    match o {
        Some(s) => json_string(s.as_str()),
        None => json_null_text(),
    }
}

/// A JSON number, or `null` for `None`.
pub fn json_opt_number(o: Option<u64>) -> (r: String)
    ensures
        r@ == json_opt_u64(o),
{
    match o {
        Some(n) => u64_decimal(n),
        None => json_null_text(),
    }
}

/// Appends a member to a list of object fields.
pub fn push_field(fields: &mut Vec<(String, String)>, key: &str, value: String)
    ensures
        fields_view(final(fields)@) == fields_view(old(fields)@).push((key@, value@)),
{
    fields.push((String::from_str(key), value));
    assert(fields_view(fields@) =~= fields_view(old(fields)@).push((key@, value@)));
}

/// The member for an optional value: none for `None`.
pub open spec fn opt_field(key: Seq<char>, value: Option<Seq<char>>) -> Seq<(Seq<char>, Seq<char>)> {
    match value {
        Some(v) => seq![(key, v)],
        None => Seq::empty(),
    }
}

/// Appends the member of an optional encoded value.
pub fn push_opt_field(fields: &mut Vec<(String, String)>, key: &str, value: Option<String>)
    ensures
        fields_view(final(fields)@) == fields_view(old(fields)@) + opt_field(key@, opt_view(value)),
{
    match value {
        Some(v) => {
            let ghost vv = v@;
            push_field(fields, key, v);
            assert(fields_view(old(fields)@).push((key@, vv)) =~= fields_view(old(fields)@)
                + seq![(key@, vv)]);
        },
        None => {
            assert(fields_view(old(fields)@) =~= fields_view(old(fields)@) + Seq::<
                (Seq<char>, Seq<char>),
            >::empty());
        },
    }
}

/// A JSON string for a non-empty text, none for an empty one.
pub open spec fn nonempty_str(s: Seq<char>) -> Option<Seq<char>> {
    if s.len() == 0 {
        None
    } else {
        Some(json_str(s))
    }
}

/// Exec form of `nonempty_str`.
pub fn nonempty_string(s: &str) -> (r: Option<String>)
    ensures
        opt_view(r) == nonempty_str(s@),
{
    if s.is_empty() {
        None
    } else {
        Some(json_string(s))
    }
}

/// A JSON string for `Some`, none for `None`.
pub open spec fn some_str(o: Option<Seq<char>>) -> Option<Seq<char>> {
    match o {
        Some(s) => Some(json_str(s)),
        None => None,
    }
}

/// Exec form of `some_str`.
pub fn some_string(o: &Option<String>) -> (r: Option<String>)
    ensures
        opt_view(r) == some_str(opt_view(*o)),
{
    match o {
        Some(s) => Some(json_string(s.as_str())),
        None => None,
    }
}

/// A JSON number for `Some`, none for `None`.
pub open spec fn some_u64(o: Option<u64>) -> Option<Seq<char>> {
    match o {
        Some(n) => Some(decimal(n as nat)),
        None => None,
    }
}

/// Exec form of `some_u64`.
pub fn some_number(o: Option<u64>) -> (r: Option<String>)
    ensures
        opt_view(r) == some_u64(o),
{
    match o {
        Some(n) => Some(u64_decimal(n)),
        None => None,
    }
}

} // verus!
