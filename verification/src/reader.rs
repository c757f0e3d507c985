//! What a JSON text stands for.
//!
//! The host writes JSON without white space between the tokens. The reader of such texts that is
//! modelled here knows nothing of how they are written: the laws about what is written say what
//! a reader finds in it.
use crate::quote::{escape_char, escaped, hex4, hex4_value, quoted, short_escape};
use crate::text::{is_control, is_white_space, joined};
use vstd::prelude::*;
use vstd::string::*;

verus! {

/// What a JSON text stands for. A number is its numeral, and the members of an object come in
/// the order in which they are written.
#[verifier::ext_equal]
pub enum Tree {
    Null,
    Bool(bool),
    Number(Seq<char>),
    Text(Seq<char>),
    Array(Seq<Tree>),
    Object(Seq<(Seq<char>, Tree)>),
}

// ---------------------------------------------------------------------------------------------
// The reader
// ---------------------------------------------------------------------------------------------
/// A character before a text, whose literal is followed by something.
pub open spec fn after(c: char, read: Option<(Seq<char>, Seq<char>)>) -> Option<
    (Seq<char>, Seq<char>),
> {
    match read {
        Some((text, rest)) => Some((seq![c] + text, rest)),
        None => None,
    }
}

/// Reads a string literal, from behind its opening quote: the text, and what follows the closing
/// quote. Surrogate escapes are not read.
pub open spec fn read_text(t: Seq<char>) -> Option<(Seq<char>, Seq<char>)>
    decreases t.len(),
{
    if t.len() == 0 {
        None
    } else if t[0] == '"' {
        Some((Seq::empty(), t.drop_first()))
    } else if t[0] == '\\' {
        if t.len() < 2 {
            None
        } else if t[1] == 'u' {
            match hex4_value(t.skip(2)) {
                Some(n) => if 0xd800 <= n <= 0xdfff {
                    None
                } else {
                    after(n as char, read_text(t.skip(6)))
                },
                None => None,
            }
        } else {
            match short_escape(t[1]) {
                Some(c) => after(c, read_text(t.skip(2))),
                None => None,
            }
        }
    } else if (t[0] as int) < 0x20 {
        None
    } else {
        after(t[0], read_text(t.drop_first()))
    }
}

/// Whether a character can stand in a numeral.
pub open spec fn in_numeral(c: char) -> bool {
    '0' <= c <= '9' || c == '-' || c == '+' || c == '.' || c == 'e' || c == 'E'
}

/// How many characters of a numeral stand at the start of a text.
pub open spec fn numeral_length(t: Seq<char>) -> nat
    decreases t.len(),
{
    if t.len() > 0 && in_numeral(t[0]) {
        1 + numeral_length(t.drop_first())
    } else {
        0
    }
}

/// Reads a value: what it is, and what follows it.
#[verifier::opaque]
pub open spec fn read_value(t: Seq<char>) -> Option<(Tree, Seq<char>)>
    decreases t.len(), 0nat,
{
    if t.len() == 0 {
        None
    } else if t[0] == '"' {
        match read_text(t.drop_first()) {
            Some((text, rest)) => Some((Tree::Text(text), rest)),
            None => None,
        }
    } else if t[0] == '[' {
        if t.len() > 1 && t[1] == ']' {
            Some((Tree::Array(Seq::empty()), t.skip(2)))
        } else {
            match read_items(t.drop_first()) {
                Some((items, rest)) => Some((Tree::Array(items), rest)),
                None => None,
            }
        }
    } else if t[0] == '{' {
        if t.len() > 1 && t[1] == '}' {
            Some((Tree::Object(Seq::empty()), t.skip(2)))
        } else {
            match read_members(t.drop_first()) {
                Some((members, rest)) => Some((Tree::Object(members), rest)),
                None => None,
            }
        }
    } else if t.len() >= 4 && t.take(4) == "null"@ {
        Some((Tree::Null, t.skip(4)))
    } else if t.len() >= 4 && t.take(4) == "true"@ {
        Some((Tree::Bool(true), t.skip(4)))
    } else if t.len() >= 5 && t.take(5) == "false"@ {
        Some((Tree::Bool(false), t.skip(5)))
    } else if '0' <= t[0] <= '9' || t[0] == '-' {
        Some((Tree::Number(t.take(numeral_length(t) as int)), t.skip(numeral_length(t) as int)))
    } else {
        None
    }
}

/// Reads the items of an array, from the first one to the closing bracket.
#[verifier::opaque]
pub open spec fn read_items(t: Seq<char>) -> Option<(Seq<Tree>, Seq<char>)>
    decreases t.len(), 1nat,
{
    match read_value(t) {
        None => None,
        Some((item, rest)) => if rest.len() == 0 || rest.len() >= t.len() {
            None
        } else if rest[0] == ',' {
            match read_items(rest.drop_first()) {
                Some((items, end)) => Some((seq![item] + items, end)),
                None => None,
            }
        } else if rest[0] == ']' {
            Some((seq![item], rest.drop_first()))
        } else {
            None
        },
    }
}

/// Reads the members of an object, from the first one to the closing brace.
#[verifier::opaque]
pub open spec fn read_members(t: Seq<char>) -> Option<(Seq<(Seq<char>, Tree)>, Seq<char>)>
    decreases t.len(), 1nat,
{
    if t.len() == 0 || t[0] != '"' {
        None
    } else {
        match read_text(t.drop_first()) {
            None => None,
            Some((name, next)) => if next.len() == 0 || next.len() >= t.len() || next[0] != ':' {
                None
            } else {
                match read_value(next.drop_first()) {
                    None => None,
                    Some((value, rest)) => if rest.len() == 0 || rest.len() >= t.len() {
                        None
                    } else if rest[0] == ',' {
                        match read_members(rest.drop_first()) {
                            Some((members, end)) => Some((seq![(name, value)] + members, end)),
                            None => None,
                        }
                    } else if rest[0] == '}' {
                        Some((seq![(name, value)], rest.drop_first()))
                    } else {
                        None
                    },
                }
            },
        }
    }
}

/// What a JSON text stands for, if it is one.
pub open spec fn read_json(t: Seq<char>) -> Option<Tree> {
    match read_value(t) {
        Some((value, rest)) => if rest.len() == 0 {
            Some(value)
        } else {
            None
        },
        None => None,
    }
}

/// Whether a text stands for a value wherever it is written: by itself, and before anything that
/// does not go on with its last numeral.
#[verifier::opaque]
pub open spec fn stands_for(text: Seq<char>, value: Tree) -> bool {
    forall|rest: Seq<char>|
        rest.len() == 0 || !in_numeral(rest[0]) ==> #[trigger] read_value(text + rest) == Some(
            (value, rest),
        )
}

// ---------------------------------------------------------------------------------------------
// Reading what is written
// ---------------------------------------------------------------------------------------------
proof fn lemma_value_of_text(t: Seq<char>, text: Seq<char>, rest: Seq<char>)
    requires
        t.len() > 0,
        t[0] == '"',
        read_text(t.drop_first()) == Some((text, rest)),
    ensures
        read_value(t) == Some((Tree::Text(text), rest)),
{
    reveal(read_value);
    reveal(read_items);
    reveal(read_members);
}

pub(crate) proof fn lemma_value_of_items(t: Seq<char>, items: Seq<Tree>, rest: Seq<char>)
    requires
        t.len() > 1,
        t[0] == '[',
        t[1] != ']',
    ensures
        read_value(t) == Some((Tree::Array(items), rest)) <==> read_items(t.drop_first()) == Some(
            (items, rest),
        ),
{
    reveal(read_value);
    reveal(read_items);
    reveal(read_members);
}

proof fn lemma_value_of_members(
    t: Seq<char>,
    members: Seq<(Seq<char>, Tree)>,
    rest: Seq<char>,
)
    requires
        t.len() > 1,
        t[0] == '{',
        t[1] != '}',
        read_members(t.drop_first()) == Some((members, rest)),
    ensures
        read_value(t) == Some((Tree::Object(members), rest)),
{
    reveal(read_value);
    reveal(read_items);
    reveal(read_members);
}

pub(crate) proof fn lemma_empty_value(t: Seq<char>)
    requires
        t.len() > 1,
    ensures
        t[0] == '[' && t[1] == ']' ==> read_value(t) == Some(
            (Tree::Array(Seq::empty()), t.skip(2)),
        ),
        t[0] == '{' && t[1] == '}' ==> read_value(t) == Some(
            (Tree::Object(Seq::empty()), t.skip(2)),
        ),
{
    reveal(read_value);
    reveal(read_items);
    reveal(read_members);
}

/// A value does not begin with white space or with the end of something else, and an array begins
/// with a bracket.
pub(crate) proof fn lemma_value_begins(t: Seq<char>, value: Tree, rest: Seq<char>)
    requires
        read_value(t) == Some((value, rest)),
    ensures
        t.len() > 0,
        t[0] != ']',
        t[0] != '}',
        !is_white_space(t[0]),
        value is Array ==> t.len() > 1 && t[0] == '[',
{
    reveal(read_value);
    reveal(read_items);
    reveal(read_members);
    reveal_strlit("null");
    reveal_strlit("true");
    reveal_strlit("false");
    if t.len() >= 4 {
        assert(t.take(4)[0] == t[0]);
    }
    if t.len() >= 5 {
        assert(t.take(5)[0] == t[0]);
    }
    if t.len() == 1 && t[0] == '[' {
        assert(t.drop_first().len() == 0);
        assert(read_value(t.drop_first()) is None);
    }
}

pub(crate) proof fn lemma_another_item(
    t: Seq<char>,
    item: Tree,
    rest: Seq<char>,
    items: Seq<Tree>,
    end: Seq<char>,
)
    requires
        read_value(t) == Some((item, rest)),
        0 < rest.len() < t.len(),
        rest[0] == ',',
        read_items(rest.drop_first()) == Some((items, end)),
    ensures
        read_items(t) == Some((seq![item] + items, end)),
{
    reveal(read_value);
    reveal(read_items);
    reveal(read_members);
}

proof fn lemma_last_item(t: Seq<char>, item: Tree, rest: Seq<char>)
    requires
        read_value(t) == Some((item, rest)),
        0 < rest.len() < t.len(),
        rest[0] == ']',
    ensures
        read_items(t) == Some((seq![item], rest.drop_first())),
{
    reveal(read_value);
    reveal(read_items);
    reveal(read_members);
}

proof fn lemma_another_member(
    t: Seq<char>,
    name: Seq<char>,
    next: Seq<char>,
    value: Tree,
    rest: Seq<char>,
    members: Seq<(Seq<char>, Tree)>,
    end: Seq<char>,
)
    requires
        t.len() > 0,
        t[0] == '"',
        read_text(t.drop_first()) == Some((name, next)),
        0 < next.len() < t.len(),
        next[0] == ':',
        read_value(next.drop_first()) == Some((value, rest)),
        0 < rest.len() < t.len(),
        rest[0] == ',',
        read_members(rest.drop_first()) == Some((members, end)),
    ensures
        read_members(t) == Some((seq![(name, value)] + members, end)),
{
    reveal(read_value);
    reveal(read_items);
    reveal(read_members);
}

proof fn lemma_last_member(
    t: Seq<char>,
    name: Seq<char>,
    next: Seq<char>,
    value: Tree,
    rest: Seq<char>,
)
    requires
        t.len() > 0,
        t[0] == '"',
        read_text(t.drop_first()) == Some((name, next)),
        0 < next.len() < t.len(),
        next[0] == ':',
        read_value(next.drop_first()) == Some((value, rest)),
        0 < rest.len() < t.len(),
        rest[0] == '}',
    ensures
        read_members(t) == Some((seq![(name, value)], rest.drop_first())),
{
    reveal(read_value);
    reveal(read_items);
    reveal(read_members);
}

/// What stands for a value is read as that value before anything that follows it.
pub(crate) proof fn lemma_read_before(text: Seq<char>, value: Tree, rest: Seq<char>)
    requires
        stands_for(text, value),
        rest.len() == 0 || !in_numeral(rest[0]),
    ensures
        read_value(text + rest) == Some((value, rest)),
{
    reveal(stands_for);
}

/// What stands for a value by itself is read as that value.
pub(crate) proof fn lemma_read_alone(text: Seq<char>, value: Tree)
    requires
        stands_for(text, value),
    ensures
        read_json(text) == Some(value),
        text.len() > 0,
{
    let none = Seq::<char>::empty();
    assert(text + none =~= text);
    lemma_read_before(text, value, none);
    lemma_value_begins(text, value, none);
}

proof fn lemma_read_escape(c: char, rest: Seq<char>)
    ensures
        read_text(escape_char(c) + rest) == after(c, read_text(rest)),
{
    let t = escape_char(c) + rest;
    if c == '"' || c == '\\' || c == '\n' || c == '\r' || c == '\t' {
        assert(t.skip(2) =~= rest);
    } else if is_control(c) {
        let n = c as int;
        assert(n / 4096 % 16 == 0);
        assert(n / 256 % 16 == 0);
        assert(n / 16 < 10);
        assert(n / 16 * 16 + n % 16 == n);
        assert(t.skip(2) =~= hex4(n) + rest);
        assert(hex4_value(t.skip(2)) == Some(n));
        assert(t.skip(6) =~= rest);
    } else {
        assert(t.drop_first() =~= rest);
    }
}

proof fn lemma_read_escaped(s: Seq<char>, tail: Seq<char>)
    ensures
        read_text(escaped(s) + tail) == (match read_text(tail) {
            Some((text, rest)) => Some((s + text, rest)),
            None => None,
        }),
    decreases s.len(),
{
    if s.len() == 0 {
        assert(escaped(s) + tail =~= tail);
        if let Some((text, rest)) = read_text(tail) {
            assert(s + text =~= text);
        }
    } else {
        let last = escape_char(s.last());
        assert(escaped(s) + tail =~= escaped(s.drop_last()) + (last + tail));
        lemma_read_escaped(s.drop_last(), last + tail);
        lemma_read_escape(s.last(), tail);
        if let Some((text, rest)) = read_text(tail) {
            assert(s.drop_last() + (seq![s.last()] + text) =~= s + text);
        }
    }
}

/// The literal of a text stands for that text.
pub(crate) proof fn lemma_text(s: Seq<char>)
    ensures
        stands_for(quoted(s), Tree::Text(s)),
{
    reveal(stands_for);
    assert forall|rest: Seq<char>| #[trigger]
        read_value(quoted(s) + rest) == Some((Tree::Text(s), rest)) by {
        let t = quoted(s) + rest;
        let tail = seq!['"'] + rest;
        assert(t.drop_first() =~= escaped(s) + tail);
        lemma_read_escaped(s, tail);
        assert(tail.drop_first() =~= rest);
        assert(s + Seq::<char>::empty() =~= s);
        lemma_value_of_text(t, s, rest);
    }
}

/// Whether a text is written in a literal as it is.
pub open spec fn plain(s: Seq<char>) -> bool {
    forall|i: int|
        0 <= i < s.len() ==> #[trigger] s[i] != '"' && s[i] != '\\' && 0x20 <= s[i] as int
}

/// The literal of a text that is written as it is.
pub open spec fn literal(s: Seq<char>) -> Seq<char> {
    seq!['"'] + s + seq!['"']
}

proof fn lemma_read_plain(s: Seq<char>, rest: Seq<char>)
    requires
        plain(s),
    ensures
        read_text(s + seq!['"'] + rest) == Some((s, rest)),
    decreases s.len(),
{
    let t = s + seq!['"'] + rest;
    if s.len() == 0 {
        assert(t.drop_first() =~= rest);
        assert(s =~= Seq::<char>::empty());
    } else {
        assert(t[0] == s[0]);
        assert(t.drop_first() =~= s.drop_first() + seq!['"'] + rest);
        lemma_read_plain(s.drop_first(), rest);
        assert(seq![s[0]] + s.drop_first() =~= s);
    }
}

/// The literal of a text that is written as it is stands for that text.
pub(crate) proof fn lemma_literal(s: Seq<char>)
    requires
        plain(s),
    ensures
        stands_for(literal(s), Tree::Text(s)),
{
    reveal(stands_for);
    assert forall|rest: Seq<char>| #[trigger]
        read_value(literal(s) + rest) == Some((Tree::Text(s), rest)) by {
        assert((literal(s) + rest).drop_first() =~= s + seq!['"'] + rest);
        lemma_read_plain(s, rest);
        lemma_value_of_text(literal(s) + rest, s, rest);
    }
}

/// The three names of JSON stand for their values.
#[verifier::spinoff_prover]
#[verifier::rlimit(40)]
pub(crate) proof fn lemma_names()
    ensures
        stands_for("null"@, Tree::Null),
        stands_for("true"@, Tree::Bool(true)),
        stands_for("false"@, Tree::Bool(false)),
{
    reveal(read_value);
    reveal(stands_for);
    reveal_strlit("null");
    reveal_strlit("true");
    reveal_strlit("false");
    assert forall|rest: Seq<char>| #[trigger]
        read_value("null"@ + rest) == Some((Tree::Null, rest)) by {
        assert(("null"@ + rest).take(4) =~= "null"@);
        assert(("null"@ + rest).skip(4) =~= rest);
    }
    assert forall|rest: Seq<char>| #[trigger]
        read_value("true"@ + rest) == Some((Tree::Bool(true), rest)) by {
        assert(("true"@ + rest).take(4) =~= "true"@);
        assert(("true"@ + rest).skip(4) =~= rest);
        assert("true"@[0] != "null"@[0]);
    }
    assert forall|rest: Seq<char>| #[trigger]
        read_value("false"@ + rest) == Some((Tree::Bool(false), rest)) by {
        let t = "false"@ + rest;
        assert(t.take(5) =~= "false"@);
        assert(t.skip(5) =~= rest);
        assert(t.take(4)[0] == 'f');
    }
}

proof fn lemma_numeral_length(s: Seq<char>, rest: Seq<char>)
    requires
        forall|i: int| 0 <= i < s.len() ==> in_numeral(#[trigger] s[i]),
        rest.len() == 0 || !in_numeral(rest[0]),
    ensures
        numeral_length(s + rest) == s.len(),
    decreases s.len(),
{
    if s.len() == 0 {
        assert(s + rest =~= rest);
    } else {
        assert((s + rest).drop_first() =~= s.drop_first() + rest);
        lemma_numeral_length(s.drop_first(), rest);
    }
}

/// A sequence of digits stands for a number.
#[verifier::spinoff_prover]
#[verifier::rlimit(40)]
pub(crate) proof fn lemma_number(s: Seq<char>)
    requires
        s.len() > 0,
        forall|i: int| 0 <= i < s.len() ==> '0' <= #[trigger] s[i] <= '9',
    ensures
        stands_for(s, Tree::Number(s)),
{
    reveal(stands_for);
    reveal(read_value);
    reveal_strlit("null");
    reveal_strlit("true");
    reveal_strlit("false");
    assert forall|rest: Seq<char>| rest.len() == 0 || !in_numeral(rest[0]) implies #[trigger]
        read_value(s + rest) == Some((Tree::Number(s), rest)) by {
        let t = s + rest;
        lemma_numeral_length(s, rest);
        assert('0' <= s[0] <= '9');
        assert(t[0] == s[0]);
        if t.len() >= 4 {
            assert(t.take(4)[0] == s[0]);
        }
        if t.len() >= 5 {
            assert(t.take(5)[0] == s[0]);
        }
        assert(t.take(s.len() as int) =~= s);
        assert(t.skip(s.len() as int) =~= rest);
    }
}

/// A joined list begins with its first part.
pub(crate) proof fn lemma_joined_first(parts: Seq<Seq<char>>, separator: Seq<char>)
    requires
        parts.len() >= 2,
    ensures
        joined(parts, separator) == parts[0] + separator + joined(parts.drop_first(), separator),
    decreases parts.len(),
{
    let rest = parts.drop_first();
    reveal_with_fuel(joined, 2);
    if parts.len() == 2 {
        assert(parts.drop_last()[0] == parts[0]);
        assert(rest[0] == parts.last());
    } else {
        lemma_joined_first(parts.drop_last(), separator);
        assert(parts.drop_last().drop_first() =~= rest.drop_last());
        assert(joined(parts, separator) =~= parts[0] + separator + (joined(
            rest.drop_last(),
            separator,
        ) + separator + rest.last()));
    }
}

#[verifier::spinoff_prover]
#[verifier::rlimit(40)]
proof fn lemma_items(parts: Seq<Seq<char>>, items: Seq<Tree>, rest: Seq<char>)
    requires
        parts.len() == items.len(),
        parts.len() > 0,
        forall|i: int| 0 <= i < parts.len() ==> stands_for(#[trigger] parts[i], items[i]),
    ensures
        read_items(joined(parts, ","@) + "]"@ + rest) == Some((items, rest)),
        joined(parts, ","@).len() > 0,
        joined(parts, ","@)[0] == parts[0][0],
        parts[0].len() > 0,
    decreases parts.len(),
{
    reveal_strlit(",");
    reveal_strlit("]");
    let t = joined(parts, ","@) + "]"@ + rest;
    let first = parts[0];
    assert(stands_for(first, items[0]));
    lemma_read_alone(first, items[0]);
    if parts.len() == 1 {
        let tail = "]"@ + rest;
        assert(t =~= first + tail);
        lemma_read_before(first, items[0], tail);
        assert(tail.drop_first() =~= rest);
        assert(items =~= seq![items[0]]);
        lemma_last_item(t, items[0], tail);
    } else {
        let later = parts.drop_first();
        assert forall|i: int| 0 <= i < later.len() implies stands_for(
            #[trigger] later[i],
            items.drop_first()[i],
        ) by {
            assert(stands_for(parts[i + 1], items[i + 1]));
        }
        lemma_items(later, items.drop_first(), rest);
        lemma_joined_first(parts, ","@);
        let tail = ","@ + (joined(later, ","@) + "]"@ + rest);
        assert(t =~= first + tail);
        lemma_read_before(first, items[0], tail);
        assert(tail.drop_first() =~= joined(later, ","@) + "]"@ + rest);
        assert(seq![items[0]] + items.drop_first() =~= items);
        lemma_another_item(t, items[0], tail, items.drop_first(), rest);
    }
}

/// The texts of values, joined by commas in brackets, stand for the array of the values.
#[verifier::spinoff_prover]
#[verifier::rlimit(40)]
pub(crate) proof fn lemma_array(parts: Seq<Seq<char>>, items: Seq<Tree>)
    requires
        parts.len() == items.len(),
        forall|i: int| 0 <= i < parts.len() ==> stands_for(#[trigger] parts[i], items[i]),
    ensures
        stands_for("["@ + joined(parts, ","@) + "]"@, Tree::Array(items)),
{
    reveal(stands_for);
    reveal_strlit("[");
    reveal_strlit("]");
    assert forall|rest: Seq<char>| #[trigger]
        read_value("["@ + joined(parts, ","@) + "]"@ + rest) == Some((Tree::Array(items), rest)) by {
        let t = "["@ + joined(parts, ","@) + "]"@ + rest;
        if parts.len() == 0 {
            lemma_empty_value(t);
            assert(t.skip(2) =~= rest);
            assert(items =~= Seq::<Tree>::empty());
        } else {
            lemma_items(parts, items, rest);
            assert(t.drop_first() =~= joined(parts, ","@) + "]"@ + rest);
            assert(t[1] == parts[0][0]);
            let none = Seq::<char>::empty();
            assert(parts[0] + none =~= parts[0]);
            assert(stands_for(parts[0], items[0]));
            lemma_read_before(parts[0], items[0], none);
            lemma_value_begins(parts[0], items[0], none);
            lemma_value_of_items(t, items, rest);
        }
    }
}

/// A member of an object, given the text of its value.
pub open spec fn member_text(name: Seq<char>, value: Seq<char>) -> Seq<char> {
    literal(name) + ":"@ + value
}

/// The members of an object, given the texts of their values.
pub open spec fn member_texts(members: Seq<(Seq<char>, Seq<char>)>) -> Seq<Seq<char>> {
    members.map_values(|member: (Seq<char>, Seq<char>)| member_text(member.0, member.1))
}

#[verifier::spinoff_prover]
#[verifier::rlimit(40)]
proof fn lemma_members(
    written: Seq<(Seq<char>, Seq<char>)>,
    members: Seq<(Seq<char>, Tree)>,
    rest: Seq<char>,
)
    requires
        written.len() == members.len(),
        written.len() > 0,
        forall|i: int|
            0 <= i < written.len() ==> (#[trigger] written[i]).0 == members[i].0 && plain(
                written[i].0,
            ) && stands_for(written[i].1, members[i].1),
    ensures
        read_members(joined(member_texts(written), ","@) + "}"@ + rest) == Some((members, rest)),
        joined(member_texts(written), ","@).len() > 0,
        joined(member_texts(written), ","@)[0] == '"',
    decreases written.len(),
{
    reveal_strlit(",");
    reveal_strlit("}");
    reveal_strlit(":");
    let parts = member_texts(written);
    let t = joined(parts, ","@) + "}"@ + rest;
    let (name, text) = written[0];
    let value = members[0].1;
    assert(stands_for(text, value));
    let later = written.drop_first();
    let tail = if written.len() == 1 {
        "}"@ + rest
    } else {
        ","@ + (joined(member_texts(later), ","@) + "}"@ + rest)
    };
    if written.len() == 1 {
        assert(joined(parts, ","@) == parts[0]);
    } else {
        assert(parts.drop_first() =~= member_texts(later));
        lemma_joined_first(parts, ","@);
    }
    assert(t =~= literal(name) + ":"@ + text + tail);
    let next = ":"@ + text + tail;
    assert(t.drop_first() =~= name + seq!['"'] + next);
    lemma_read_plain(name, next);
    assert(next.drop_first() =~= text + tail);
    lemma_read_before(text, value, tail);
    if written.len() == 1 {
        assert(tail.drop_first() =~= rest);
        assert(members =~= seq![(name, value)]);
        lemma_last_member(t, name, next, value, tail);
    } else {
        assert forall|i: int| 0 <= i < later.len() implies (#[trigger] later[i]).0
            == members.drop_first()[i].0 && plain(later[i].0) && stands_for(
            later[i].1,
            members.drop_first()[i].1,
        ) by {
            assert(written[i + 1].0 == members[i + 1].0);
        }
        lemma_members(later, members.drop_first(), rest);
        assert(tail.drop_first() =~= joined(member_texts(later), ","@) + "}"@ + rest);
        assert(seq![(name, value)] + members.drop_first() =~= members);
        lemma_another_member(t, name, next, value, tail, members.drop_first(), rest);
    }
}

/// The texts of members, joined by commas in braces, stand for the object of the members.
#[verifier::spinoff_prover]
#[verifier::rlimit(40)]
proof fn lemma_object(
    written: Seq<(Seq<char>, Seq<char>)>,
    members: Seq<(Seq<char>, Tree)>,
)
    requires
        written.len() == members.len(),
        forall|i: int|
            0 <= i < written.len() ==> (#[trigger] written[i]).0 == members[i].0 && plain(
                written[i].0,
            ) && stands_for(written[i].1, members[i].1),
    ensures
        stands_for("{"@ + joined(member_texts(written), ","@) + "}"@, Tree::Object(members)),
{
    reveal(stands_for);
    reveal_strlit("{");
    reveal_strlit("}");
    assert forall|rest: Seq<char>| #[trigger]
        read_value("{"@ + joined(member_texts(written), ","@) + "}"@ + rest) == Some(
            (Tree::Object(members), rest),
        ) by {
        let t = "{"@ + joined(member_texts(written), ","@) + "}"@ + rest;
        if written.len() == 0 {
            lemma_empty_value(t);
            assert(t.skip(2) =~= rest);
            assert(members =~= Seq::<(Seq<char>, Tree)>::empty());
        } else {
            lemma_members(written, members, rest);
            assert(t.drop_first() =~= joined(member_texts(written), ","@) + "}"@ + rest);
            lemma_value_of_members(t, members, rest);
        }
    }
}

/// The text of members grows by one.
proof fn lemma_one_more(written: Seq<(Seq<char>, Seq<char>)>, more: (Seq<char>, Seq<char>))
    ensures
        joined(member_texts(written.push(more)), ","@) == (if written.len() == 0 {
            member_text(more.0, more.1)
        } else {
            joined(member_texts(written), ","@) + ","@ + member_text(more.0, more.1)
        }),
{
    let parts = member_texts(written.push(more));
    assert(parts.drop_last() =~= member_texts(written));
    assert(parts.last() == member_text(more.0, more.1));
}

/// An object of one member.
pub(crate) proof fn lemma_object_of_one(
    a: (Seq<char>, Seq<char>, Tree),
)
    requires
        plain(a.0) && stands_for(a.1, a.2),
    ensures
        stands_for(
            "{"@ + member_text(a.0, a.1) + "}"@,
            Tree::Object(seq![(a.0, a.2)]),
        ),
{
    let w1 = Seq::<(Seq<char>, Seq<char>)>::empty().push((a.0, a.1));
    lemma_object(w1, seq![(a.0, a.2)]);
    lemma_one_more(Seq::empty(), (a.0, a.1));
    assert("{"@ + joined(member_texts(w1), ","@) + "}"@ =~= "{"@ + member_text(a.0, a.1) + "}"@);
}

/// An object of two members.
pub(crate) proof fn lemma_object_of_two(
    a: (Seq<char>, Seq<char>, Tree),
    b: (Seq<char>, Seq<char>, Tree),
)
    requires
        plain(a.0) && stands_for(a.1, a.2),
        plain(b.0) && stands_for(b.1, b.2),
    ensures
        stands_for(
            "{"@ + member_text(a.0, a.1) + ","@ + member_text(b.0, b.1) + "}"@,
            Tree::Object(seq![(a.0, a.2), (b.0, b.2)]),
        ),
{
    let w1 = Seq::<(Seq<char>, Seq<char>)>::empty().push((a.0, a.1));
    let w2 = w1.push((b.0, b.1));
    lemma_object(w2, seq![(a.0, a.2), (b.0, b.2)]);
    lemma_one_more(Seq::empty(), (a.0, a.1));
    lemma_one_more(w1, (b.0, b.1));
    assert("{"@ + joined(member_texts(w2), ","@) + "}"@ =~= "{"@ + member_text(a.0, a.1) + ","@ + member_text(b.0, b.1) + "}"@);
}

/// An object of three members.
pub(crate) proof fn lemma_object_of_three(
    a: (Seq<char>, Seq<char>, Tree),
    b: (Seq<char>, Seq<char>, Tree),
    c: (Seq<char>, Seq<char>, Tree),
)
    requires
        plain(a.0) && stands_for(a.1, a.2),
        plain(b.0) && stands_for(b.1, b.2),
        plain(c.0) && stands_for(c.1, c.2),
    ensures
        stands_for(
            "{"@ + member_text(a.0, a.1) + ","@ + member_text(b.0, b.1) + ","@ + member_text(c.0, c.1) + "}"@,
            Tree::Object(seq![(a.0, a.2), (b.0, b.2), (c.0, c.2)]),
        ),
{
    let w1 = Seq::<(Seq<char>, Seq<char>)>::empty().push((a.0, a.1));
    let w2 = w1.push((b.0, b.1));
    let w3 = w2.push((c.0, c.1));
    lemma_object(w3, seq![(a.0, a.2), (b.0, b.2), (c.0, c.2)]);
    lemma_one_more(Seq::empty(), (a.0, a.1));
    lemma_one_more(w1, (b.0, b.1));
    lemma_one_more(w2, (c.0, c.1));
    assert("{"@ + joined(member_texts(w3), ","@) + "}"@ =~= "{"@ + member_text(a.0, a.1) + ","@ + member_text(b.0, b.1) + ","@ + member_text(c.0, c.1) + "}"@);
}

/// An object of four members.
#[verifier::spinoff_prover]
#[verifier::rlimit(40)]
pub(crate) proof fn lemma_object_of_four(
    a: (Seq<char>, Seq<char>, Tree),
    b: (Seq<char>, Seq<char>, Tree),
    c: (Seq<char>, Seq<char>, Tree),
    d: (Seq<char>, Seq<char>, Tree),
)
    requires
        plain(a.0) && stands_for(a.1, a.2),
        plain(b.0) && stands_for(b.1, b.2),
        plain(c.0) && stands_for(c.1, c.2),
        plain(d.0) && stands_for(d.1, d.2),
    ensures
        stands_for(
            "{"@ + member_text(a.0, a.1) + ","@ + member_text(b.0, b.1) + ","@ + member_text(c.0, c.1) + ","@ + member_text(d.0, d.1) + "}"@,
            Tree::Object(seq![(a.0, a.2), (b.0, b.2), (c.0, c.2), (d.0, d.2)]),
        ),
{
    let w1 = Seq::<(Seq<char>, Seq<char>)>::empty().push((a.0, a.1));
    let w2 = w1.push((b.0, b.1));
    let w3 = w2.push((c.0, c.1));
    let w4 = w3.push((d.0, d.1));
    lemma_object(w4, seq![(a.0, a.2), (b.0, b.2), (c.0, c.2), (d.0, d.2)]);
    lemma_one_more(Seq::empty(), (a.0, a.1));
    lemma_one_more(w1, (b.0, b.1));
    lemma_one_more(w2, (c.0, c.1));
    lemma_one_more(w3, (d.0, d.1));
    assert("{"@ + joined(member_texts(w4), ","@) + "}"@ =~= "{"@ + member_text(a.0, a.1) + ","@ + member_text(b.0, b.1) + ","@ + member_text(c.0, c.1) + ","@ + member_text(d.0, d.1) + "}"@);
}

/// An object of five members.
#[verifier::spinoff_prover]
#[verifier::rlimit(40)]
pub(crate) proof fn lemma_object_of_five(
    a: (Seq<char>, Seq<char>, Tree),
    b: (Seq<char>, Seq<char>, Tree),
    c: (Seq<char>, Seq<char>, Tree),
    d: (Seq<char>, Seq<char>, Tree),
    e: (Seq<char>, Seq<char>, Tree),
)
    requires
        plain(a.0) && stands_for(a.1, a.2),
        plain(b.0) && stands_for(b.1, b.2),
        plain(c.0) && stands_for(c.1, c.2),
        plain(d.0) && stands_for(d.1, d.2),
        plain(e.0) && stands_for(e.1, e.2),
    ensures
        stands_for(
            "{"@ + member_text(a.0, a.1) + ","@ + member_text(b.0, b.1) + ","@ + member_text(c.0, c.1) + ","@ + member_text(d.0, d.1) + ","@ + member_text(e.0, e.1) + "}"@,
            Tree::Object(seq![(a.0, a.2), (b.0, b.2), (c.0, c.2), (d.0, d.2), (e.0, e.2)]),
        ),
{
    let w1 = Seq::<(Seq<char>, Seq<char>)>::empty().push((a.0, a.1));
    let w2 = w1.push((b.0, b.1));
    let w3 = w2.push((c.0, c.1));
    let w4 = w3.push((d.0, d.1));
    let w5 = w4.push((e.0, e.1));
    lemma_object(w5, seq![(a.0, a.2), (b.0, b.2), (c.0, c.2), (d.0, d.2), (e.0, e.2)]);
    lemma_one_more(Seq::empty(), (a.0, a.1));
    lemma_one_more(w1, (b.0, b.1));
    lemma_one_more(w2, (c.0, c.1));
    lemma_one_more(w3, (d.0, d.1));
    lemma_one_more(w4, (e.0, e.1));
    assert("{"@ + joined(member_texts(w5), ","@) + "}"@ =~= "{"@ + member_text(a.0, a.1) + ","@ + member_text(b.0, b.1) + ","@ + member_text(c.0, c.1) + ","@ + member_text(d.0, d.1) + ","@ + member_text(e.0, e.1) + "}"@);
}

/// An object of six members.
#[verifier::spinoff_prover]
#[verifier::rlimit(40)]
pub(crate) proof fn lemma_object_of_six(
    a: (Seq<char>, Seq<char>, Tree),
    b: (Seq<char>, Seq<char>, Tree),
    c: (Seq<char>, Seq<char>, Tree),
    d: (Seq<char>, Seq<char>, Tree),
    e: (Seq<char>, Seq<char>, Tree),
    f: (Seq<char>, Seq<char>, Tree),
)
    requires
        plain(a.0) && stands_for(a.1, a.2),
        plain(b.0) && stands_for(b.1, b.2),
        plain(c.0) && stands_for(c.1, c.2),
        plain(d.0) && stands_for(d.1, d.2),
        plain(e.0) && stands_for(e.1, e.2),
        plain(f.0) && stands_for(f.1, f.2),
    ensures
        stands_for(
            "{"@ + member_text(a.0, a.1) + ","@ + member_text(b.0, b.1) + ","@ + member_text(c.0, c.1) + ","@ + member_text(d.0, d.1) + ","@ + member_text(e.0, e.1) + ","@ + member_text(f.0, f.1) + "}"@,
            Tree::Object(seq![(a.0, a.2), (b.0, b.2), (c.0, c.2), (d.0, d.2), (e.0, e.2), (f.0, f.2)]),
        ),
{
    let w1 = Seq::<(Seq<char>, Seq<char>)>::empty().push((a.0, a.1));
    let w2 = w1.push((b.0, b.1));
    let w3 = w2.push((c.0, c.1));
    let w4 = w3.push((d.0, d.1));
    let w5 = w4.push((e.0, e.1));
    let w6 = w5.push((f.0, f.1));
    lemma_object(w6, seq![(a.0, a.2), (b.0, b.2), (c.0, c.2), (d.0, d.2), (e.0, e.2), (f.0, f.2)]);
    lemma_one_more(Seq::empty(), (a.0, a.1));
    lemma_one_more(w1, (b.0, b.1));
    lemma_one_more(w2, (c.0, c.1));
    lemma_one_more(w3, (d.0, d.1));
    lemma_one_more(w4, (e.0, e.1));
    lemma_one_more(w5, (f.0, f.1));
    assert("{"@ + joined(member_texts(w6), ","@) + "}"@ =~= "{"@ + member_text(a.0, a.1) + ","@ + member_text(b.0, b.1) + ","@ + member_text(c.0, c.1) + ","@ + member_text(d.0, d.1) + ","@ + member_text(e.0, e.1) + ","@ + member_text(f.0, f.1) + "}"@);
}

}
