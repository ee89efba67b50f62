//! Framing of JSON texts: string escaping and the argument-object text that
//! the renderer glue hands to the template engine.

use vstd::prelude::*;

use crate::args::{ArgEntry, ArgMap};

verus! {

/// The lower-case hex digit of a value below sixteen.
pub open spec fn spec_hex_digit(d: int) -> char {
    if d == 0 {
        '0'
    } else if d == 1 {
        '1'
    } else if d == 2 {
        '2'
    } else if d == 3 {
        '3'
    } else if d == 4 {
        '4'
    } else if d == 5 {
        '5'
    } else if d == 6 {
        '6'
    } else if d == 7 {
        '7'
    } else if d == 8 {
        '8'
    } else if d == 9 {
        '9'
    } else if d == 10 {
        'a'
    } else if d == 11 {
        'b'
    } else if d == 12 {
        'c'
    } else if d == 13 {
        'd'
    } else if d == 14 {
        'e'
    } else {
        'f'
    }
}

fn hex_digit(d: u32) -> (r: char)
    requires
        d < 16,
    ensures
        r == spec_hex_digit(d as int),
{
    if d == 0 {
        '0'
    } else if d == 1 {
        '1'
    } else if d == 2 {
        '2'
    } else if d == 3 {
        '3'
    } else if d == 4 {
        '4'
    } else if d == 5 {
        '5'
    } else if d == 6 {
        '6'
    } else if d == 7 {
        '7'
    } else if d == 8 {
        '8'
    } else if d == 9 {
        '9'
    } else if d == 10 {
        'a'
    } else if d == 11 {
        'b'
    } else if d == 12 {
        'c'
    } else if d == 13 {
        'd'
    } else if d == 14 {
        'e'
    } else {
        'f'
    }
}

/// How one character appears inside a JSON string literal.
pub open spec fn spec_escape_char(c: char) -> Seq<char> {
    if c == '"' {
        seq!['\\', '"']
    } else if c == '\\' {
        seq!['\\', '\\']
    } else if c == '\u{0008}' {
        seq!['\\', 'b']
    } else if c == '\u{000C}' {
        seq!['\\', 'f']
    } else if c == '\n' {
        seq!['\\', 'n']
    } else if c == '\r' {
        seq!['\\', 'r']
    } else if c == '\t' {
        seq!['\\', 't']
    } else if (c as int) < 0x20 {
        seq!['\\', 'u', '0', '0', spec_hex_digit(c as int / 16), spec_hex_digit(c as int % 16)]
    } else {
        seq![c]
    }
}

/// The body of a JSON string literal holding `s`.
pub open spec fn spec_escape(s: Seq<char>) -> Seq<char>
    decreases s.len(),
{
    if s.len() == 0 {
        Seq::empty()
    } else {
        spec_escape(s.drop_last()) + spec_escape_char(s.last())
    }
}

/// A complete JSON string literal holding `s`.
pub open spec fn spec_quote(s: Seq<char>) -> Seq<char> {
    seq!['"'] + spec_escape(s) + seq!['"']
}

fn append_escaped(out: &mut String, s: &str)
    ensures
        final(out)@ == old(out)@ + spec_escape(s@),
{
    let len = s.unicode_len();
    let mut i: usize = 0;
    while i < len
        invariant
            i <= len,
            len == s@.len(),
            out@ == old(out)@ + spec_escape(s@.take(i as int)),
        decreases len - i,
    {
        let c = s.get_char(i);
        if c == '"' {
            crate::text::push_char(out, '\\');
            crate::text::push_char(out, '"');
        } else if c == '\\' {
            crate::text::push_char(out, '\\');
            crate::text::push_char(out, '\\');
        } else if c == '\u{0008}' {
            crate::text::push_char(out, '\\');
            crate::text::push_char(out, 'b');
        } else if c == '\u{000C}' {
            crate::text::push_char(out, '\\');
            crate::text::push_char(out, 'f');
        } else if c == '\n' {
            crate::text::push_char(out, '\\');
            crate::text::push_char(out, 'n');
        } else if c == '\r' {
            crate::text::push_char(out, '\\');
            crate::text::push_char(out, 'r');
        } else if c == '\t' {
            crate::text::push_char(out, '\\');
            crate::text::push_char(out, 't');
        } else if (c as u32) < 0x20 {
            crate::text::push_char(out, '\\');
            crate::text::push_char(out, 'u');
            crate::text::push_char(out, '0');
            crate::text::push_char(out, '0');
            crate::text::push_char(out, hex_digit((c as u32) / 16));
            crate::text::push_char(out, hex_digit((c as u32) % 16));
        } else {
            crate::text::push_char(out, c);
        }
        proof {
            assert(s@.take(i + 1).drop_last() =~= s@.take(i as int));
            assert(s@.take(i + 1).last() == s@[i as int]);
            assert(out@ =~= old(out)@ + spec_escape(s@.take(i + 1)));
        }
        i += 1;
    }
    proof {
        assert(s@.take(len as int) =~= s@);
    }
}

/// Appends the JSON string literal holding `s`.
pub fn append_quoted(out: &mut String, s: &str)
    ensures
        final(out)@ == old(out)@ + spec_quote(s@),
{
    crate::text::push_char(out, '"');
    append_escaped(out, s);
    crate::text::push_char(out, '"');
    proof {
        assert(out@ =~= old(out)@ + spec_quote(s@));
    }
}

/// One `"key":value` binding of the argument object; the value text is the
/// argument's JSON form and is inserted verbatim.
pub open spec fn spec_binding(e: ArgEntry) -> Seq<char> {
    spec_quote(e.key@) + seq![':'] + e.value@
}

/// The comma-separated bindings of the argument object, in entry order.
pub open spec fn spec_bindings(s: Seq<ArgEntry>) -> Seq<char>
    decreases s.len(),
{
    if s.len() == 0 {
        Seq::empty()
    } else if s.len() == 1 {
        spec_binding(s[0])
    } else {
        spec_bindings(s.drop_last()) + seq![','] + spec_binding(s.last())
    }
}

/// The JSON object text carrying the whole argument map.
pub open spec fn spec_args_object(s: Seq<ArgEntry>) -> Seq<char> {
    seq!['{'] + spec_bindings(s) + seq!['}']
}

/// Builds the JSON object text of the argument map, in entry order.
pub fn args_object_text(args: &ArgMap) -> (r: String)
    ensures
        r@ == spec_args_object(args.spec_entries()),
{
    let entries = args.entries();
    let n = entries.len();
    let mut out = String::new();
    crate::text::push_char(&mut out, '{');
    let mut i: usize = 0;
    while i < n
        invariant
            i <= n,
            n == entries@.len(),
            entries@ == args.spec_entries(),
            out@ == seq!['{'] + spec_bindings(entries@.take(i as int)),
        decreases n - i,
    {
        if i > 0 {
            crate::text::push_char(&mut out, ',');
        }
        append_quoted(&mut out, entries[i].key.as_str());
        crate::text::push_char(&mut out, ':');
        out.append(entries[i].value.as_str());
        proof {
            assert(entries@.take(i + 1).drop_last() =~= entries@.take(i as int));
            assert(entries@.take(i + 1).last() == entries@[i as int]);
            assert(out@ =~= seq!['{'] + spec_bindings(entries@.take(i + 1)));
        }
        i += 1;
    }
    crate::text::push_char(&mut out, '}');
    proof {
        assert(entries@.take(n as int) =~= entries@);
        assert(out@ =~= spec_args_object(args.spec_entries()));
    }
    out
}

} // verus!
