//! A JSON document model and its compact text rendering.
//!
//! Request parameters and response bodies are held as [`JsonValue`]. Numbers
//! keep the three shapes a JSON number can be read into: a non-negative
//! integer, a negative integer, or any other number, which is kept as the
//! decimal text it was read from.
use vstd::prelude::*;

use crate::text::{decimal, push_char, push_decimal};

verus! {

/// A JSON number.
#[derive(Debug, Clone, PartialEq, Eq)]
pub enum JsonNumber {
    /// A non-negative integer.
    PosInt(u64),
    /// A negative integer.
    NegInt(i64),
    /// Any other number, as its decimal text.
    Float(String),
}

/// One member of a JSON object.
#[derive(Debug, PartialEq, Eq)]
pub struct JsonMember {
    /// The member name.
    pub key: String,
    /// The member value.
    pub value: JsonValue,
}

/// A JSON value.
#[derive(Debug, PartialEq, Eq)]
pub enum JsonValue {
    /// `null`.
    Null,
    /// `true` or `false`.
    Bool(bool),
    /// A number.
    Number(JsonNumber),
    /// A string.
    String(String),
    /// An array.
    Array(Vec<JsonValue>),
    /// An object, with its members in order.
    Object(Vec<JsonMember>),
}

/// The text of the literal `null`.
pub open spec fn null_text() -> Seq<char> {
    seq!['n', 'u', 'l', 'l']
}

/// The text of a boolean.
pub open spec fn bool_text(b: bool) -> Seq<char> {
    if b {
        seq!['t', 'r', 'u', 'e']
    } else {
        seq!['f', 'a', 'l', 's', 'e']
    }
}

/// The decimal text of a number.
pub open spec fn number_text(n: JsonNumber) -> Seq<char> {
    match n {
        JsonNumber::PosInt(u) => decimal(u as nat),
        JsonNumber::NegInt(i) => if i < 0 {
            seq!['-'] + decimal((-i) as nat)
        } else {
            decimal(i as nat)
        },
        JsonNumber::Float(t) => t@,
    }
}

/// The lowercase hexadecimal digit for `d < 16`.
pub open spec fn hex_char(d: nat) -> char {
    if d < 10 {
        crate::text::digit_char(d)
    } else if d == 10 {
        'a'
    } else if d == 11 {
        'b'
    } else if d == 12 {
        'c'
    } else if d == 13 {
        'd'
    } else if d == 14 {
        'e'
    } else {
        'f'
    }
}

/// How one character of a string is written inside JSON quotes.
pub open spec fn escape_char(c: char) -> Seq<char> {
    if c == '"' {
        seq!['\\', '"']
    } else if c == '\\' {
        seq!['\\', '\\']
    } else if c == '\x08' {
        seq!['\\', 'b']
    } else if c == '\x0c' {
        seq!['\\', 'f']
    } else if c == '\n' {
        seq!['\\', 'n']
    } else if c == '\r' {
        seq!['\\', 'r']
    } else if c == '\t' {
        seq!['\\', 't']
    } else if (c as u32) < 0x20 {
        seq!['\\', 'u', '0', '0', hex_char((c as u32 / 16) as nat), hex_char((c as u32 % 16) as nat)]
    } else {
        seq![c]
    }
}

/// The escaped characters of `s`.
pub open spec fn escaped(s: Seq<char>) -> Seq<char>
    decreases s.len(),
{
    if s.len() == 0 {
        Seq::empty()
    } else {
        escaped(s.drop_last()) + escape_char(s.last())
    }
}

/// `s` as a JSON string literal.
pub open spec fn quoted(s: Seq<char>) -> Seq<char> {
    seq!['"'] + escaped(s) + seq!['"']
}

/// The value of a hexadecimal digit (either case), if `c` is one.
pub open spec fn hex_value(c: char) -> Option<int> {
    if '0' <= c && c <= '9' {
        Some(c as int - '0' as int)
    } else if 'a' <= c && c <= 'f' {
        Some(c as int - 'a' as int + 10)
    } else if 'A' <= c && c <= 'F' {
        Some(c as int - 'A' as int + 10)
    } else {
        None
    }
}

/// The character of a two-character escape `\e`, if `e` names one.
pub open spec fn short_escape(e: char) -> Option<char> {
    if e == '"' {
        Some('"')
    } else if e == '\\' {
        Some('\\')
    } else if e == '/' {
        Some('/')
    } else if e == 'b' {
        Some('\x08')
    } else if e == 'f' {
        Some('\x0c')
    } else if e == 'n' {
        Some('\n')
    } else if e == 'r' {
        Some('\r')
    } else if e == 't' {
        Some('\t')
    } else {
        None
    }
}

/// `c` in front of the characters of `r`, when there are any.
pub open spec fn prepend(c: char, r: Option<Seq<char>>) -> Option<Seq<char>> {
    match r {
        Some(x) => Some(seq![c] + x),
        None => None,
    }
}

/// The characters that the inside of a JSON string literal stands for
/// (RFC 8259, section 7), or none when it is not valid: characters other
/// than `"`, `\\` and controls stand for themselves, and `\"`, `\\\\`,
/// `\/`, `\b`, `\f`, `\n`, `\r`, `\t` and `\uXXXX` (outside surrogates)
/// each stand for one character.
pub open spec fn unescaped(t: Seq<char>) -> Option<Seq<char>>
    decreases t.len(),
{
    if t.len() == 0 {
        Some(Seq::empty())
    } else if t[0] != '\\' {
        if t[0] == '"' || (t[0] as u32) < 0x20 {
            None
        } else {
            prepend(t[0], unescaped(t.drop_first()))
        }
    } else if t.len() < 2 {
        None
    } else {
        match short_escape(t[1]) {
            Some(c) => prepend(c, unescaped(t.skip(2))),
            None => if t[1] == 'u' && t.len() >= 6 && hex_value(t[2]) is Some && hex_value(t[3]) is Some
                && hex_value(t[4]) is Some && hex_value(t[5]) is Some {
                let v = hex_value(t[2])->0 * 4096 + hex_value(t[3])->0 * 256 + hex_value(t[4])->0 * 16
                    + hex_value(t[5])->0;
                if 0xD800 <= v && v <= 0xDFFF {
                    None
                } else {
                    prepend(v as char, unescaped(t.skip(6)))
                }
            } else {
                None
            },
        }
    }
}

proof fn lemma_escaped_front(c: char, s: Seq<char>)
    ensures
        escaped(seq![c] + s) == escape_char(c) + escaped(s),
    decreases s.len(),
{
    let t = seq![c] + s;
    if s.len() == 0 {
        assert(s =~= Seq::<char>::empty());
        assert(t =~= seq![c]);
        assert(t.drop_last() =~= Seq::<char>::empty());
        assert(escaped(t) == escaped(t.drop_last()) + escape_char(t.last()));
        assert(escaped(Seq::<char>::empty()) =~= Seq::<char>::empty());
        assert(escaped(t) =~= escape_char(c));
        assert(escape_char(c) + escaped(s) =~= escape_char(c));
    } else {
        assert(t.drop_last() =~= seq![c] + s.drop_last());
        assert(t.last() == s.last());
        lemma_escaped_front(c, s.drop_last());
        assert(escaped(t) == escaped(t.drop_last()) + escape_char(t.last()));
        assert(escaped(s) == escaped(s.drop_last()) + escape_char(s.last()));
        assert(escape_char(c) + escaped(s.drop_last()) + escape_char(s.last()) =~= escape_char(c) + escaped(s));
    }
}

proof fn lemma_hex_value(d: nat)
    requires
        d < 16,
    ensures
        hex_value(hex_char(d)) == Some(d as int),
{
    if d < 10 {
        if d == 0 {
        } else if d == 1 {
        } else if d == 2 {
        } else if d == 3 {
        } else if d == 4 {
        } else if d == 5 {
        } else if d == 6 {
        } else if d == 7 {
        } else if d == 8 {
        } else {
        }
    }
}

proof fn lemma_escape_char_reads_back(c: char, rest: Seq<char>)
    ensures
        unescaped(escape_char(c) + rest) == prepend(c, unescaped(rest)),
{
    let t = escape_char(c) + rest;
    if c == '"' || c == '\\' || c == '\x08' || c == '\x0c' || c == '\n' || c == '\r' || c == '\t' {
        assert(t[0] == '\\');
        assert(t.skip(2) =~= rest);
    } else if (c as u32) < 0x20 {
        let hi = (c as u32 / 16) as nat;
        let lo = (c as u32 % 16) as nat;
        lemma_hex_value(0);
        lemma_hex_value(hi);
        lemma_hex_value(lo);
        assert(t[0] == '\\');
        assert(t[1] == 'u');
        assert(t[2] == '0' && t[3] == '0');
        assert(t[4] == hex_char(hi) && t[5] == hex_char(lo));
        assert(short_escape(t[1]) is None);
        let v = hex_value(t[2])->0 * 4096 + hex_value(t[3])->0 * 256 + hex_value(t[4])->0 * 16 + hex_value(
            t[5],
        )->0;
        assert(v == c as u32);
        assert((v as u32) as char == c);
        assert(t.skip(6) =~= rest);
    } else {
        assert(t[0] == c);
        assert(t.drop_first() =~= rest);
    }
}

/// A string written as JSON reads back as itself: its text is a quote, the
/// escaped characters, and a quote, and the escaped characters stand for
/// exactly the string's characters under the JSON rules.
pub proof fn lemma_quoted_reads_back(s: Seq<char>)
    ensures
        quoted(s).len() >= 2,
        quoted(s)[0] == '"',
        quoted(s).last() == '"',
        unescaped(quoted(s).subrange(1, quoted(s).len() - 1)) == Some(s),
{
    lemma_escaped_reads_back(s);
    assert(quoted(s).subrange(1, quoted(s).len() - 1) =~= escaped(s));
}

proof fn lemma_escaped_reads_back(s: Seq<char>)
    ensures
        unescaped(escaped(s)) == Some(s),
    decreases s.len(),
{
    if s.len() > 0 {
        let rest = s.drop_first();
        assert(s =~= seq![s[0]] + rest);
        lemma_escaped_front(s[0], rest);
        lemma_escaped_reads_back(rest);
        lemma_escape_char_reads_back(s[0], escaped(rest));
        assert(seq![s[0]] + rest =~= s);
    }
}

/// The compact JSON text of `v`: no whitespace, members in order.
pub open spec fn json_text(v: JsonValue) -> Seq<char>
    decreases v, 0nat,
{
    match v {
        JsonValue::Null => null_text(),
        JsonValue::Bool(b) => bool_text(b),
        JsonValue::Number(n) => number_text(n),
        JsonValue::String(s) => quoted(s@),
        JsonValue::Array(items) => seq!['['] + items_text(items@) + seq![']'],
        JsonValue::Object(members) => seq!['{'] + members_text(members@) + seq!['}'],
    }
}

/// The texts of `items` separated by commas.
pub open spec fn items_text(items: Seq<JsonValue>) -> Seq<char>
    decreases items, 1nat,
{
    if items.len() == 0 {
        Seq::empty()
    } else if items.len() == 1 {
        json_text(items[0])
    } else {
        items_text(items.drop_last()) + seq![','] + json_text(items.last())
    }
}

/// The text of one object member: its quoted name, a colon, its value.
pub open spec fn member_text(m: JsonMember) -> Seq<char>
    decreases m, 0nat,
{
    quoted(m.key@) + seq![':'] + json_text(m.value)
}

/// The texts of `members` separated by commas.
pub open spec fn members_text(members: Seq<JsonMember>) -> Seq<char>
    decreases members, 1nat,
{
    if members.len() == 0 {
        Seq::empty()
    } else if members.len() == 1 {
        member_text(members[0])
    } else {
        members_text(members.drop_last()) + seq![','] + member_text(members.last())
    }
}

/// The member of an object named `key`: the first one, where names repeat.
/// Anything but an object has no members.
pub open spec fn json_get(v: JsonValue, key: Seq<char>) -> Option<JsonValue> {
    match v {
        JsonValue::Object(members) => match first_member(members@, key) {
            Some(i) => Some(members@[i].value),
            None => None,
        },
        _ => None,
    }
}

/// The index of the first member named `key`.
pub open spec fn first_member(members: Seq<JsonMember>, key: Seq<char>) -> Option<int>
    decreases members.len(),
{
    if members.len() == 0 {
        None
    } else if members[0].key@ == key {
        Some(0)
    } else {
        match first_member(members.drop_first(), key) {
            Some(i) => Some(i + 1),
            None => None,
        }
    }
}

proof fn lemma_first_member_bounds(members: Seq<JsonMember>, key: Seq<char>)
    ensures
        first_member(members, key) matches Some(i) ==> 0 <= i < members.len()
            && members[i].key@ == key && forall|j: int| 0 <= j < i ==> members[j].key@ != key,
        first_member(members, key) is None ==> forall|j: int|
            0 <= j < members.len() ==> members[j].key@ != key,
    decreases members.len(),
{
    if members.len() > 0 {
        lemma_first_member_bounds(members.drop_first(), key);
        if members[0].key@ != key {
            assert forall|j: int| 0 < j < members.len() implies members[j] == members.drop_first()[j
                - 1] by {}
        }
    }
}

fn push_str_chars(out: &mut String, s: &str)
    ensures
        final(out)@ == old(out)@ + s@,
{
    out.append(s);
}

fn hex_digit(d: u32) -> (c: char)
    requires
        d < 16,
    ensures
        c == hex_char(d as nat),
{
    if d < 10 {
        if d == 0 {
            '0'
        } else if d == 1 {
            '1'
        } else if d == 2 {
            '2'
        } else if d == 3 {
            '3'
        } else if d == 4 {
            '4'
        } else if d == 5 {
            '5'
        } else if d == 6 {
            '6'
        } else if d == 7 {
            '7'
        } else if d == 8 {
            '8'
        } else {
            '9'
        }
    } else if d == 10 {
        'a'
    } else if d == 11 {
        'b'
    } else if d == 12 {
        'c'
    } else if d == 13 {
        'd'
    } else if d == 14 {
        'e'
    } else {
        'f'
    }
}

fn push_escaped_char(out: &mut String, c: char)
    ensures
        final(out)@ == old(out)@ + escape_char(c),
{
    let ghost start = out@;
    if c == '"' {
        push_char(out, '\\');
        push_char(out, '"');
    } else if c == '\\' {
        push_char(out, '\\');
        push_char(out, '\\');
    } else if c == '\x08' {
        push_char(out, '\\');
        push_char(out, 'b');
    } else if c == '\x0c' {
        push_char(out, '\\');
        push_char(out, 'f');
    } else if c == '\n' {
        push_char(out, '\\');
        push_char(out, 'n');
    } else if c == '\r' {
        push_char(out, '\\');
        push_char(out, 'r');
    } else if c == '\t' {
        push_char(out, '\\');
        push_char(out, 't');
    } else if (c as u32) < 0x20 {
        let code = c as u32;
        push_char(out, '\\');
        push_char(out, 'u');
        push_char(out, '0');
        push_char(out, '0');
        push_char(out, hex_digit(code / 16));
        push_char(out, hex_digit(code % 16));
    } else {
        push_char(out, c);
    }
    assert(out@ == start + escape_char(c));
}

/// Appends `s` as a JSON string literal to `out`.
pub fn push_quoted(out: &mut String, s: &str)
    ensures
        final(out)@ == old(out)@ + quoted(s@),
{
    let v = crate::text::chars_of(s);
    let ghost start = out@;
    push_char(out, '"');
    let mut i: usize = 0;
    while i < v.len()
        invariant
            v@ == s@,
            i <= v@.len(),
            out@ == start + seq!['"'] + escaped(v@.take(i as int)),
        decreases v.len() - i,
    {
        push_escaped_char(out, v[i]);
        i = i + 1;
        assert(v@.take(i as int).drop_last() == v@.take(i - 1));
    }
    assert(v@.take(v@.len() as int) == v@);
    push_char(out, '"');
    assert(out@ == start + quoted(s@));
}

/// Appends the decimal text of `n` to `out`.
pub fn push_number(out: &mut String, n: &JsonNumber)
    ensures
        final(out)@ == old(out)@ + number_text(*n),
{
    match n {
        JsonNumber::PosInt(u) => push_decimal(out, *u),
        JsonNumber::NegInt(i) => {
            let i = *i;
            if i < 0 {
                let ghost start = out@;
                push_char(out, '-');
                let magnitude: u64 = if i == i64::MIN {
                    9223372036854775808u64
                } else {
                    (-i) as u64
                };
                push_decimal(out, magnitude);
                assert(out@ == start + (seq!['-'] + decimal((-i) as nat)));
            } else {
                push_decimal(out, i as u64);
            }
        },
        JsonNumber::Float(t) => push_str_chars(out, t.as_str()),
    }
}

/// Appends the compact JSON text of `v` to `out`.
pub fn push_json(out: &mut String, v: &JsonValue)
    ensures
        final(out)@ == old(out)@ + json_text(*v),
    decreases v,
{
    let ghost start = out@;
    match v {
        JsonValue::Null => {
            push_str_chars(out, "null");
            proof {
                reveal_strlit("null");
            }
        },
        JsonValue::Bool(b) => {
            if *b {
                push_str_chars(out, "true");
                proof {
                    reveal_strlit("true");
                }
            } else {
                push_str_chars(out, "false");
                proof {
                    reveal_strlit("false");
                }
            }
        },
        JsonValue::Number(n) => push_number(out, n),
        JsonValue::String(s) => push_quoted(out, s.as_str()),
        JsonValue::Array(items) => {
            push_char(out, '[');
            let mut i: usize = 0;
            while i < items.len()
                invariant
                    *v == JsonValue::Array(*items),
                    i <= items@.len(),
                    out@ == start + seq!['['] + items_text(items@.take(i as int)),
                decreases items.len() - i,
            {
                if i != 0 {
                    push_char(out, ',');
                }
                proof {
                    assert(decreases_to!(*v => v->Array_0));
                    assert(decreases_to!(*items => items@));
                    assert(decreases_to!(items@ => items@[i as int]));
                }
                push_json(out, &items[i]);
                i = i + 1;
                assert(items@.take(i as int).drop_last() == items@.take(i - 1));
                if i == 1 {
                    assert(items@.take(1)[0] == items@[0]);
                }
            }
            assert(items@.take(items@.len() as int) == items@);
            push_char(out, ']');
        },
        JsonValue::Object(members) => {
            push_char(out, '{');
            let mut i: usize = 0;
            while i < members.len()
                invariant
                    *v == JsonValue::Object(*members),
                    i <= members@.len(),
                    out@ == start + seq!['{'] + members_text(members@.take(i as int)),
                decreases members.len() - i,
            {
                let ghost before = out@;
                if i != 0 {
                    push_char(out, ',');
                }
                let ghost sep = out@;
                let m = &members[i];
                push_quoted(out, m.key.as_str());
                push_char(out, ':');
                proof {
                    assert(decreases_to!(*v => v->Object_0));
                    assert(decreases_to!(*members => members@));
                    assert(decreases_to!(members@ => members@[i as int]));
                    assert(decreases_to!(members@[i as int] => members@[i as int].value));
                }
                push_json(out, &m.value);
                assert(out@ == sep + member_text(members@[i as int]));
                i = i + 1;
                assert(members@.take(i as int).drop_last() == members@.take(i - 1));
                if i == 1 {
                    assert(members@.take(1)[0] == members@[0]);
                }
            }
            assert(members@.take(members@.len() as int) == members@);
            push_char(out, '}');
        },
    }
}

impl JsonValue {
    /// The compact JSON text of this value.
    pub fn to_json_string(&self) -> (s: String)
        ensures
            s@ == json_text(*self),
    {
        let mut s = String::new();
        push_json(&mut s, self);
        s
    }

    /// The member named `key`, if this is an object that has one.
    pub fn get(&self, key: &str) -> (r: Option<&JsonValue>)
        ensures
            r is Some <==> json_get(*self, key@) is Some,
            r is Some ==> *r->0 == json_get(*self, key@)->0,
    {
        match self {
            JsonValue::Object(members) => {
                let mut i: usize = 0;
                while i < members.len()
                    invariant
                        *self == JsonValue::Object(*members),
                        i <= members@.len(),
                        forall|j: int| 0 <= j < i ==> members@[j].key@ != key@,
                    decreases members.len() - i,
                {
                    if crate::text::str_eq(members[i].key.as_str(), key) {
                        proof {
                            lemma_first_member_bounds(members@, key@);
                        }
                        return Some(&members[i].value);
                    }
                    i = i + 1;
                }
                proof {
                    lemma_first_member_bounds(members@, key@);
                }
                None
            },
            _ => None,
        }
    }

    /// The value as an unsigned integer, if it is a non-negative integer number.
    pub fn as_u64(&self) -> (r: Option<u64>)
        ensures
            r == (match *self {
                JsonValue::Number(JsonNumber::PosInt(n)) => Some(n),
                _ => None,
            }),
    {
        match self {
            JsonValue::Number(JsonNumber::PosInt(n)) => Some(*n),
            _ => None,
        }
    }

    /// The value as text, if it is a string.
    pub fn as_str(&self) -> (r: Option<&str>)
        ensures
            r is Some <==> *self is String,
            r is Some ==> r->0@ == self->String_0@,
    {
        match self {
            JsonValue::String(s) => Some(s.as_str()),
            _ => None,
        }
    }

    /// A string value.
    pub fn text(s: &str) -> (v: JsonValue)
        ensures
            v is String && v->String_0@ == s@,
    {
        JsonValue::String(s.to_string())
    }

    /// A non-negative integer value.
    pub fn uint(n: u64) -> (v: JsonValue)
        ensures
            v == JsonValue::Number(JsonNumber::PosInt(n)),
    {
        JsonValue::Number(JsonNumber::PosInt(n))
    }

    /// The JSON number of a signed integer: negative numbers are negative
    /// integers, others non-negative integers.
    pub open spec fn signed_spec(i: i64) -> JsonValue {
        if i < 0 {
            JsonValue::Number(JsonNumber::NegInt(i))
        } else {
            JsonValue::Number(JsonNumber::PosInt(i as u64))
        }
    }

    /// A signed integer value, negative numbers being negative integers.
    pub fn signed(i: i64) -> (v: JsonValue)
        ensures
            v == JsonValue::signed_spec(i),
    {
        if i < 0 {
            JsonValue::Number(JsonNumber::NegInt(i))
        } else {
            JsonValue::Number(JsonNumber::PosInt(i as u64))
        }
    }

    /// An object with no members.
    pub fn empty_object() -> (v: JsonValue)
        ensures
            v is Object && v->Object_0@.len() == 0,
    {
        JsonValue::Object(Vec::new())
    }

    /// Appends a member to an object; any other value is left as it is.
    pub fn push_member(&mut self, key: &str, value: JsonValue)
        ensures
            match *old(self) {
                JsonValue::Object(ms) => *final(self) is Object && final(self)->Object_0@
                    == ms@.push(JsonMember { key: final(self)->Object_0@.last().key, value })
                    && final(self)->Object_0@.last().key@ == key@,
                _ => *final(self) == *old(self),
            },
    {
        match self {
            JsonValue::Object(members) => {
                members.push(JsonMember { key: key.to_string(), value });
            },
            _ => {},
        }
    }
}

} // verus!
