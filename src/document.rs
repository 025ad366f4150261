use vstd::prelude::*;
use vstd::string::StrSliceExecFns;
use crate::record::opt_view;
use crate::text::push_char;

verus! {

/// The sixteen hexadecimal digits, in order.
pub open spec fn hex_digits() -> Seq<char> {
    seq!['0', '1', '2', '3', '4', '5', '6', '7', '8', '9', 'a', 'b', 'c', 'd', 'e', 'f']
}

/// The control characters that a multi-line TOML string cannot hold as they are.
pub open spec fn is_control(c: char) -> bool {
    ((c as u32) < 0x20 && c != '\t' && c != '\n') || (c as u32) == 0x7f
}

/// How one character of a free-form text is written between `"""` delimiters.
pub open spec fn escape_char(c: char) -> Seq<char> {
    if c == '\\' {
        seq!['\\', '\\']
    } else if c == '"' {
        seq!['\\', '"']
    } else if is_control(c) {
        seq!['\\', 'u', '0', '0', hex_digits()[(c as u32 / 16) as int], hex_digits()[(c as u32 % 16) as int]]
    } else {
        seq![c]
    }
}

/// How the character at `i` is written: a newline right after the opening
/// delimiter would be dropped by a reader, so it is written as an escape.
pub open spec fn escape_at(s: Seq<char>, i: int) -> Seq<char> {
    if i == 0 && s[0] == '\n' {
        seq!['\\', 'n']
    } else {
        escape_char(s[i])
    }
}

/// The written form of the first `n` characters of `s`.
pub open spec fn escaped_prefix(s: Seq<char>, n: nat) -> Seq<char>
    decreases n,
{
    if n == 0 {
        Seq::empty()
    } else {
        escaped_prefix(s, (n - 1) as nat) + escape_at(s, n - 1)
    }
}

/// The body of a multi-line string literal that stands for `s`.
pub open spec fn escape_text(s: Seq<char>) -> Seq<char> {
    escaped_prefix(s, s.len())
}

/// The stored field for an optional deadline: an absent one is empty.
pub open spec fn deadline_field(d: Option<Seq<char>>) -> Seq<char> {
    match d {
        Some(s) => s,
        None => Seq::empty(),
    }
}

/// The goal file holding `text` and `deadline`.
pub open spec fn document(text: Seq<char>, deadline: Seq<char>) -> Seq<char> {
    seq!['[', 'g', 'o', 'a', 'l', ']', '\n'] + seq!['t', 'e', 'x', 't', ' ', '=', ' ', '"', '"', '"']
        + escape_text(text) + seq!['"', '"', '"', '\n']
        + seq!['d', 'e', 'a', 'd', 'l', 'i', 'n', 'e', ' ', '=', ' ', '"', '"', '"']
        + escape_text(deadline) + seq!['"', '"', '"', '\n']
}

/// The goal file in its canonical empty shape: no goal and no deadline.
pub open spec fn empty_document() -> Seq<char> {
    document(Seq::empty(), Seq::empty())
}

fn hex_digit(n: u32) -> (r: char)
    requires
        n < 16,
    ensures
        r == hex_digits()[n as int],
{
    match n {
        0 => '0',
        1 => '1',
        2 => '2',
        3 => '3',
        4 => '4',
        5 => '5',
        6 => '6',
        7 => '7',
        8 => '8',
        9 => '9',
        10 => 'a',
        11 => 'b',
        12 => 'c',
        13 => 'd',
        14 => 'e',
        _ => 'f',
    }
}

fn push_seq(out: &mut String, chars: &[char])
    ensures
        final(out)@ == old(out)@ + chars@,
{
    let mut i: usize = 0;
    while i < chars.len()
        invariant
            i <= chars@.len(),
            out@ == old(out)@ + chars@.subrange(0, i as int),
        decreases chars@.len() - i,
    {
        push_char(out, chars[i]);
        assert(chars@.subrange(0, i + 1) =~= chars@.subrange(0, i as int).push(chars@[i as int]));
        i += 1;
    }
    assert(chars@.subrange(0, i as int) =~= chars@);
}

/// Appends the written form of one character.
fn push_escaped_char(out: &mut String, c: char)
    ensures
        final(out)@ == old(out)@ + escape_char(c),
{
    let v = c as u32;
    if c == '\\' {
        push_seq(out, &['\\', '\\']);
    } else if c == '"' {
        push_seq(out, &['\\', '"']);
    } else if (v < 0x20 && c != '\t' && c != '\n') || v == 0x7f {
        let hi = hex_digit(v / 16);
        let lo = hex_digit(v % 16);
        push_seq(out, &['\\', 'u', '0', '0', hi, lo]);
    } else {
        push_char(out, c);
    }
}

/// Appends `s` written as the body of a multi-line TOML string: backslashes,
/// quotes and control characters are escaped, and so is a leading newline.
pub fn push_escaped(out: &mut String, s: &str)
    ensures
        final(out)@ == old(out)@ + escape_text(s@),
{
    let n = s.unicode_len();
    let mut i: usize = 0;
    while i < n
        invariant
            n == s@.len(),
            i <= n,
            out@ == old(out)@ + escaped_prefix(s@, i as nat),
        decreases n - i,
    {
        let c = s.get_char(i);
        if i == 0 && c == '\n' {
            push_seq(out, &['\\', 'n']);
        } else {
            push_escaped_char(out, c);
        }
        i += 1;
    }
}

/// Renders the goal file for a text and an optional deadline; an absent
/// deadline is stored as an empty one.
pub fn render_document(text: &str, deadline: &Option<String>) -> (r: String)
    ensures
        r@ == document(text@, deadline_field(opt_view(*deadline))),
{
    let mut out = String::new();
    push_seq(&mut out, &['[', 'g', 'o', 'a', 'l', ']', '\n']);
    push_seq(&mut out, &['t', 'e', 'x', 't', ' ', '=', ' ', '"', '"', '"']);
    push_escaped(&mut out, text);
    push_seq(&mut out, &['"', '"', '"', '\n']);
    push_seq(&mut out, &['d', 'e', 'a', 'd', 'l', 'i', 'n', 'e', ' ', '=', ' ', '"', '"', '"']);
    match deadline {
        Some(d) => push_escaped(&mut out, d.as_str()),
        None => {},
    }
    push_seq(&mut out, &['"', '"', '"', '\n']);
    out
}

} // verus!
