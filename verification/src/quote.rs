//! JSON string literals.
use crate::text::{chars_of, control, is_control};
use vstd::prelude::*;
use vstd::string::*;

verus! {

/// The lower-case hexadecimal digit with the given value.
pub open spec fn hex_char(d: int) -> char {
    if d < 10 {
        (48 + d) as char
    } else {
        (87 + d) as char
    }
}

/// The four lower-case hexadecimal digits of a number below 65536.
pub open spec fn hex4(n: int) -> Seq<char> {
    seq![
        hex_char(n / 4096 % 16),
        hex_char(n / 256 % 16),
        hex_char(n / 16 % 16),
        hex_char(n % 16),
    ]
}

/// How a character is written inside a JSON string literal.
pub open spec fn escape_char(c: char) -> Seq<char> {
    if c == '"' {
        seq!['\\', '"']
    } else if c == '\\' {
        seq!['\\', '\\']
    } else if c == '\n' {
        seq!['\\', 'n']
    } else if c == '\r' {
        seq!['\\', 'r']
    } else if c == '\t' {
        seq!['\\', 't']
    } else if is_control(c) {
        seq!['\\', 'u'] + hex4(c as int)
    } else {
        seq![c]
    }
}

/// How a text is written inside a JSON string literal: character by character.
pub open spec fn escaped(s: Seq<char>) -> Seq<char>
    decreases s.len(),
{
    if s.len() == 0 {
        Seq::empty()
    } else {
        escaped(s.drop_last()) + escape_char(s.last())
    }
}

/// The JSON string literal of a text.
pub open spec fn quoted(s: Seq<char>) -> Seq<char> {
    seq!['"'] + escaped(s) + seq!['"']
}

/// The hexadecimal digit of a value below 16.
fn hex_digit(d: u32) -> (r: char)
    requires
        d < 16,
    ensures
        r == hex_char(d as int),
{
    if d < 10 {
        (48 + d as u8) as char
    } else {
        (87 + d as u8) as char
    }
}

/// Appends a character as it is written inside a JSON string literal.
fn push_escaped(out: &mut String, c: char)
    ensures
        final(out)@ == old(out)@ + escape_char(c),
{
    let ghost before = out@;
    let n: u32 = c as u32;
    if c == '"' {
        out.push('\\');
        out.push('"');
    } else if c == '\\' {
        out.push('\\');
        out.push('\\');
    } else if c == '\n' {
        out.push('\\');
        out.push('n');
    } else if c == '\r' {
        out.push('\\');
        out.push('r');
    } else if c == '\t' {
        out.push('\\');
        out.push('t');
    } else if control(c) {
        out.push('\\');
        out.push('u');
        out.push(hex_digit(n / 4096 % 16));
        out.push(hex_digit(n / 256 % 16));
        out.push(hex_digit(n / 16 % 16));
        out.push(hex_digit(n % 16));
    } else {
        out.push(c);
    }
    assert(out@ =~= before + escape_char(c));
}

/// Writes a text as a JSON string literal.
pub fn json_string(value: &str) -> (r: String)
    ensures
        r@ == quoted(value@),
{
    let chars = chars_of(value);
    let mut quoted = String::new();
    quoted.push('"');
    let mut i: usize = 0;
    assert(quoted@ =~= seq!['"'] + escaped(value@.take(0)));
    while i < chars.len()
        invariant
            chars@ == value@,
            i <= chars@.len(),
            quoted@ == seq!['"'] + escaped(value@.take(i as int)),
        decreases chars@.len() - i,
    {
        push_escaped(&mut quoted, chars[i]);
        proof {
            assert(value@.take(i + 1).drop_last() =~= value@.take(i as int));
            assert(seq!['"'] + escaped(value@.take(i as int)) + escape_char(value@[i as int])
                =~= seq!['"'] + (escaped(value@.take(i as int)) + escape_char(value@[i as int])));
        }
        i = i + 1;
    }
    quoted.push('"');
    proof {
        assert(value@.take(value@.len() as int) =~= value@);
        assert(quoted@ =~= seq!['"'] + escaped(value@) + seq!['"']);
    }
    quoted
}

// ---------------------------------------------------------------------------------------------
// Reading a literal back
// ---------------------------------------------------------------------------------------------
/// The value of a hexadecimal digit in either case.
pub open spec fn hex_value(c: char) -> Option<int> {
    if '0' <= c <= '9' {
        Some(c as int - 48)
    } else if 'a' <= c <= 'f' {
        Some(c as int - 87)
    } else if 'A' <= c <= 'F' {
        Some(c as int - 55)
    } else {
        None
    }
}

/// The code unit that the four hexadecimal digits at the start of `t` stand for.
pub open spec fn hex4_value(t: Seq<char>) -> Option<int> {
    if t.len() < 4 {
        None
    } else {
        match (hex_value(t[0]), hex_value(t[1]), hex_value(t[2]), hex_value(t[3])) {
            (Some(a), Some(b), Some(c), Some(d)) => Some(a * 4096 + b * 256 + c * 16 + d),
            _ => None,
        }
    }
}

/// The character that a two-character escape of a JSON string literal stands for.
pub open spec fn short_escape(c: char) -> Option<char> {
    if c == '"' || c == '\\' || c == '/' {
        Some(c)
    } else if c == 'b' {
        Some('\u{8}')
    } else if c == 'f' {
        Some('\u{c}')
    } else if c == 'n' {
        Some('\n')
    } else if c == 'r' {
        Some('\r')
    } else if c == 't' {
        Some('\t')
    } else {
        None
    }
}

/// A character before a text that may be unreadable.
pub open spec fn prepend(c: char, rest: Option<Seq<char>>) -> Option<Seq<char>> {
    match rest {
        Some(rest) => Some(seq![c] + rest),
        None => None,
    }
}

/// The text that the inside of a JSON string literal stands for, as far as it is written
/// without surrogate escapes.
pub open spec fn unescaped(t: Seq<char>) -> Option<Seq<char>>
    decreases t.len(),
{
    if t.len() == 0 {
        Some(Seq::empty())
    } else if t[0] == '\\' {
        if t.len() < 2 {
            None
        } else if t[1] == 'u' {
            match hex4_value(t.skip(2)) {
                Some(n) => if 0xd800 <= n <= 0xdfff {
                    None
                } else {
                    prepend(n as char, unescaped(t.skip(6)))
                },
                None => None,
            }
        } else {
            match short_escape(t[1]) {
                Some(c) => prepend(c, unescaped(t.skip(2))),
                None => None,
            }
        }
    } else if t[0] == '"' || (t[0] as int) < 0x20 {
        None
    } else {
        prepend(t[0], unescaped(t.drop_first()))
    }
}

/// The text that a JSON string literal stands for.
pub open spec fn unquoted(t: Seq<char>) -> Option<Seq<char>> {
    if t.len() >= 2 && t[0] == '"' && t.last() == '"' {
        unescaped(t.subrange(1, t.len() - 1))
    } else {
        None
    }
}

proof fn lemma_escaped_first(s: Seq<char>)
    requires
        s.len() > 0,
    ensures
        escaped(s) == escape_char(s[0]) + escaped(s.drop_first()),
    decreases s.len(),
{
    if s.len() == 1 {
        assert(s.drop_last() =~= Seq::<char>::empty());
        assert(s.drop_first() =~= Seq::<char>::empty());
        assert(escaped(s) =~= escape_char(s[0]) + escaped(s.drop_first()));
    } else {
        lemma_escaped_first(s.drop_last());
        assert(s.drop_last().drop_first() =~= s.drop_first().drop_last());
        assert(escaped(s) =~= escape_char(s[0]) + (escaped(s.drop_first().drop_last())
            + escape_char(s.last())));
    }
}

proof fn lemma_hex4(n: int)
    requires
        0 <= n < 0xa0,
    ensures
        hex4_value(hex4(n)) == Some(n),
{
    assert(n / 4096 % 16 == 0);
    assert(n / 256 % 16 == 0);
    assert(n / 16 < 10);
    assert(n / 16 * 16 + n % 16 == n);
}

proof fn lemma_unescape_char(c: char, rest: Seq<char>)
    ensures
        unescaped(escape_char(c) + rest) == prepend(c, unescaped(rest)),
{
    let t = escape_char(c) + rest;
    if c == '"' || c == '\\' || c == '\n' || c == '\r' || c == '\t' {
        assert(t.skip(2) =~= rest);
    } else if is_control(c) {
        lemma_hex4(c as int);
        assert(t.skip(2) =~= hex4(c as int) + rest);
        assert(hex4_value(t.skip(2)) == hex4_value(hex4(c as int)));
        assert(t.skip(6) =~= rest);
    } else {
        assert(t.drop_first() =~= rest);
    }
}

proof fn lemma_unescape(s: Seq<char>)
    ensures
        unescaped(escaped(s)) == Some(s),
    decreases s.len(),
{
    if s.len() > 0 {
        lemma_escaped_first(s);
        lemma_unescape_char(s[0], escaped(s.drop_first()));
        lemma_unescape(s.drop_first());
        assert(seq![s[0]] + s.drop_first() =~= s);
    } else {
        assert(s =~= Seq::<char>::empty());
    }
}

/// A literal stands for the text that it was written for.
pub proof fn quoted_reads_back(s: Seq<char>)
    ensures
        unquoted(quoted(s)) == Some(s),
{
    lemma_unescape(s);
    assert(quoted(s).subrange(1, quoted(s).len() - 1) =~= escaped(s));
}

/// Different texts have different literals.
pub proof fn quoted_is_injective(a: Seq<char>, b: Seq<char>)
    requires
        quoted(a) == quoted(b),
    ensures
        a == b,
{
    quoted_reads_back(a);
    quoted_reads_back(b);
}

/// Whether a text is free of control characters, line breaks among them.
pub open spec fn control_free(s: Seq<char>) -> bool {
    forall|i: int| 0 <= i < s.len() ==> !is_control(#[trigger] s[i])
}

proof fn lemma_escape_char_control_free(c: char)
    ensures
        control_free(escape_char(c)),
{
    if is_control(c) {
        let n = c as int;
        assert(0 <= n / 16 % 16 < 16 && 0 <= n % 16 < 16 && n / 4096 % 16 == 0 && n / 256 % 16
            == 0);
    }
}

proof fn lemma_escaped_control_free(s: Seq<char>)
    ensures
        control_free(escaped(s)),
    decreases s.len(),
{
    if s.len() > 0 {
        lemma_escaped_control_free(s.drop_last());
        lemma_escape_char_control_free(s.last());
    }
}

/// A literal holds no control character, whatever the text that it stands for.
pub proof fn quoted_is_control_free(s: Seq<char>)
    ensures
        control_free(quoted(s)),
{
    lemma_escaped_control_free(s);
}

}
