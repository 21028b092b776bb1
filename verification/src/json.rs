//! JSON text, as far as a flat GELF object needs it: string literals with
//! their escapes, unsigned decimal numbers, and objects of named members.
//!
//! Text is modelled as `Seq<char>`, the view of a `String`.

use vstd::prelude::*;

verus! {

/// The character for a decimal digit; meant for `0 <= d <= 9`.
pub open spec fn digit(d: int) -> char {
    if d == 0 {
        '0'
    } else if d == 1 {
        '1'
    } else if d == 2 {
        '2'
    } else if d == 3 {
        '3'
    } else if d == 4 {
        '4'
    } else if d == 5 {
        '5'
    } else if d == 6 {
        '6'
    } else if d == 7 {
        '7'
    } else if d == 8 {
        '8'
    } else {
        '9'
    }
}

/// The character for a hexadecimal digit, in lower case; meant for `0 <= d <= 15`.
pub open spec fn hex_digit(d: int) -> char {
    if d < 10 {
        digit(d)
    } else if d == 10 {
        'a'
    } else if d == 11 {
        'b'
    } else if d == 12 {
        'c'
    } else if d == 13 {
        'd'
    } else if d == 14 {
        'e'
    } else {
        'f'
    }
}

/// How one character stands inside a JSON string literal: the quote and the
/// backslash behind a backslash, the control characters as their short escape
/// or as `\u00XX`, every other character as itself.
pub open spec fn escape(c: char) -> Seq<char> {
    if c == '"' {
        seq!['\\', '"']
    } else if c == '\\' {
        seq!['\\', '\\']
    } else if c == '\n' {
        seq!['\\', 'n']
    } else if c == '\r' {
        seq!['\\', 'r']
    } else if c == '\t' {
        seq!['\\', 't']
    } else if c as u32 == 8 {
        seq!['\\', 'b']
    } else if c as u32 == 12 {
        seq!['\\', 'f']
    } else if (c as u32) < 32 {
        seq!['\\', 'u', '0', '0', hex_digit((c as u32) as int / 16), hex_digit((c as u32) as int % 16)]
    } else {
        seq![c]
    }
}

/// A text with every character escaped, in order.
pub open spec fn escaped(text: Seq<char>) -> Seq<char>
    decreases text.len(),
{
    if text.len() == 0 {
        Seq::empty()
    } else {
        escaped(text.drop_last()) + escape(text.last())
    }
}

/// The JSON string literal for a text: its escaped form between two quotes.
pub open spec fn string_literal(text: Seq<char>) -> Seq<char> {
    seq!['"'] + escaped(text) + seq!['"']
}

/// The decimal digits of a number, without leading zeros.
pub open spec fn decimal(n: nat) -> Seq<char>
    decreases n,
{
    if n < 10 {
        seq![digit(n as int)]
    } else {
        decimal(n / 10) + seq![digit((n % 10) as int)]
    }
}

/// One member of an object: a name and the JSON text of its value.
pub struct Member {
    pub name: Seq<char>,
    pub value: Seq<char>,
}

/// The text of one member: the name as a string literal, a colon, the value.
pub open spec fn member_text(m: Member) -> Seq<char> {
    string_literal(m.name) + seq![':'] + m.value
}

/// The texts of the members in order, a comma between neighbours.
pub open spec fn members_text(members: Seq<Member>) -> Seq<char>
    decreases members.len(),
{
    if members.len() == 0 {
        Seq::empty()
    } else if members.len() == 1 {
        member_text(members[0])
    } else {
        members_text(members.drop_last()) + seq![','] + member_text(members.last())
    }
}

/// The text of a flat object: its members between braces.
pub open spec fn object_text(members: Seq<Member>) -> Seq<char> {
    seq!['{'] + members_text(members) + seq!['}']
}

/// Escaping goes character by character: the escaped form of two texts in a
/// row is the two escaped forms in a row.
pub proof fn escaped_concat(a: Seq<char>, b: Seq<char>)
    ensures
        escaped(a + b) == escaped(a) + escaped(b),
    decreases b.len(),
{
    if b.len() == 0 {
        assert(a + b =~= a);
        assert(escaped(a) + escaped(b) =~= escaped(a));
    } else {
        assert((a + b).drop_last() =~= a + b.drop_last());
        assert((a + b).last() == b.last());
        escaped_concat(a, b.drop_last());
        assert(escaped(a + b) =~= escaped(a) + escaped(b));
    }
}

/// The escaped form of a text of one character is the escape of the character.
pub proof fn escaped_single(c: char)
    ensures
        escaped(seq![c]) == escape(c),
{
    assert(seq![c].drop_last() =~= Seq::<char>::empty());
    assert(escaped(Seq::<char>::empty()) =~= Seq::<char>::empty());
    assert(seq![c].last() == c);
    assert(escaped(seq![c]) =~= escape(c));
}

/// The text of the members with one more at the end: the first member stands
/// alone, every later one behind a comma.
pub proof fn members_text_push(members: Seq<Member>, m: Member)
    ensures
        members_text(members.push(m)) == if members.len() == 0 {
            member_text(m)
        } else {
            members_text(members) + seq![','] + member_text(m)
        },
{
    assert(members.push(m).drop_last() =~= members);
}

/// The character of a decimal digit.
pub fn digit_char(d: u8) -> (c: char)
    requires
        d <= 9,
    ensures
        c == digit(d as int),
{
    match d {
        0 => '0',
        1 => '1',
        2 => '2',
        3 => '3',
        4 => '4',
        5 => '5',
        6 => '6',
        7 => '7',
        8 => '8',
        _ => '9',
    }
}

/// The character of a hexadecimal digit.
pub fn hex_digit_char(d: u8) -> (c: char)
    requires
        d <= 15,
    ensures
        c == hex_digit(d as int),
{
    match d {
        10 => 'a',
        11 => 'b',
        12 => 'c',
        13 => 'd',
        14 => 'e',
        15 => 'f',
        _ => digit_char(d),
    }
}

/// Appends the escaped form of one character.
pub fn push_escape(out: &mut String, c: char)
    ensures
        final(out)@ == old(out)@ + escape(c),
{
    let code: u32 = c as u32;
    if c == '"' || c == '\\' {
        out.push('\\');
        out.push(c);
    } else if c == '\n' {
        out.push('\\');
        out.push('n');
    } else if c == '\r' {
        out.push('\\');
        out.push('r');
    } else if c == '\t' {
        out.push('\\');
        out.push('t');
    } else if code == 8 {
        out.push('\\');
        out.push('b');
    } else if code == 12 {
        out.push('\\');
        out.push('f');
    } else if code < 32 {
        out.push('\\');
        out.push('u');
        out.push('0');
        out.push('0');
        out.push(hex_digit_char((code / 16) as u8));
        out.push(hex_digit_char((code % 16) as u8));
    } else {
        out.push(c);
    }
    assert(out@ =~= old(out)@ + escape(c));
}

/// Appends the escaped form of a text.
pub fn push_escaped(out: &mut String, text: &str)
    ensures
        final(out)@ == old(out)@ + escaped(text@),
{
    for c in it: text.chars()
        invariant
            it.seq() == text@,
            out@ == old(out)@ + escaped(text@.take(it.index())),
    {
        let ghost before = text@.take(it.index());
        let ghost after = text@.take(it.index() + 1);
        assert(after.drop_last() =~= before);
        assert(after.last() == c);
        push_escape(out, c);
        assert(out@ =~= old(out)@ + escaped(after));
    }
    assert(text@.take(text@.len() as int) =~= text@);
}

/// Appends a text as a JSON string literal.
pub fn push_string_literal(out: &mut String, text: &str)
    ensures
        final(out)@ == old(out)@ + string_literal(text@),
{
    out.push('"');
    push_escaped(out, text);
    out.push('"');
    assert(out@ =~= old(out)@ + string_literal(text@));
}

/// Appends a number in decimal.
pub fn push_decimal(out: &mut String, n: u64)
    ensures
        final(out)@ == old(out)@ + decimal(n as nat),
    decreases n,
{
    if n >= 10 {
        push_decimal(out, n / 10);
    }
    out.push(digit_char((n % 10) as u8));
    assert(out@ =~= old(out)@ + decimal(n as nat));
}

/// What stands between a member and the one before it.
pub open spec fn separator(first: bool) -> Seq<char> {
    if first {
        Seq::empty()
    } else {
        seq![',']
    }
}

/// A text that ends in some members, continued by a separator and one more
/// member, ends in the members with that one added.
pub proof fn member_appended(base: Seq<char>, done: Seq<Member>, m: Member, text: Seq<char>)
    requires
        text == base + members_text(done) + separator(done.len() == 0) + string_literal(m.name)
            + seq![':'] + m.value,
    ensures
        text == base + members_text(done.push(m)),
{
    members_text_push(done, m);
    if done.len() == 0 {
        assert(members_text(done) =~= Seq::<char>::empty());
        assert(text =~= base + member_text(m));
    } else {
        assert(text =~= base + (members_text(done) + seq![','] + member_text(m)));
    }
}

/// Begins a member: the separator, then the name and the colon behind it.
pub fn begin_member(out: &mut String, name: &str, first: bool)
    ensures
        final(out)@ == old(out)@ + separator(first) + string_literal(name@) + seq![':'],
{
    if !first {
        out.push(',');
    }
    assert(out@ =~= old(out)@ + separator(first));
    push_string_literal(out, name);
    out.push(':');
}

} // verus!
