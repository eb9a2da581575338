//! Verified JSON text building blocks: string escaping and quoting.
//!
//! The serialized command schema and the interaction responses are built
//! from these pieces; each emitter's contract pins the exact character
//! sequence produced.

use vstd::prelude::*;
use vstd::std_specs::iter::IteratorSpec;
use vstd::string::StringExecFns;

verus! {

broadcast use vstd::string::axiom_spec_iter, vstd::string::next_postcondition;

/// The character for one hexadecimal digit.
pub open spec fn spec_hex_char(d: nat) -> char {
    if d == 10 {
        'a'
    } else if d == 11 {
        'b'
    } else if d == 12 {
        'c'
    } else if d == 13 {
        'd'
    } else if d == 14 {
        'e'
    } else if d == 15 {
        'f'
    } else {
        crate::text::spec_digit_char(d)
    }
}

fn hex_char(d: u32) -> (c: char)
    requires
        d < 16,
    ensures
        c == spec_hex_char(d as nat),
{
    match d {
        0 => '0',
        1 => '1',
        2 => '2',
        3 => '3',
        4 => '4',
        5 => '5',
        6 => '6',
        7 => '7',
        8 => '8',
        9 => '9',
        10 => 'a',
        11 => 'b',
        12 => 'c',
        13 => 'd',
        14 => 'e',
        _ => 'f',
    }
}

/// How one character is written inside a JSON string: quotes and
/// backslashes are escaped, the named control characters get their short
/// escapes, any other control character is written as a `\u00..` escape,
/// and everything else passes through unchanged.
pub open spec fn spec_escape_char(c: char) -> Seq<char> {
    if c == '"' {
        seq!['\\', '"']
    } else if c == '\\' {
        seq!['\\', '\\']
    } else if c == '\n' {
        seq!['\\', 'n']
    } else if c == '\r' {
        seq!['\\', 'r']
    } else if c == '\t' {
        seq!['\\', 't']
    } else if (c as u32) < 32 {
        seq!['\\', 'u', '0', '0', spec_hex_char((c as u32 / 16) as nat), spec_hex_char(
            (c as u32 % 16) as nat,
        )]
    } else {
        seq![c]
    }
}

/// The body of a JSON string: every character escaped as above.
pub open spec fn spec_escape(s: Seq<char>) -> Seq<char>
    decreases s.len(),
{
    if s.len() == 0 {
        Seq::empty()
    } else {
        spec_escape(s.drop_last()) + spec_escape_char(s.last())
    }
}

/// A JSON string: the escaped body in double quotes.
pub open spec fn spec_json_str(s: Seq<char>) -> Seq<char> {
    seq!['"'] + spec_escape(s) + seq!['"']
}

proof fn lemma_escape_push(s: Seq<char>, c: char)
    ensures
        spec_escape(s.push(c)) == spec_escape(s) + spec_escape_char(c),
{
    assert(s.push(c).drop_last() =~= s);
    assert(s.push(c).last() == c);
}

/// Appends the escaped form of one character to `out`.
fn push_escaped(out: &mut String, c: char)
    ensures
        final(out)@ == old(out)@ + spec_escape_char(c),
{
    if c == '"' {
        out.push('\\');
        out.push('"');
    } else if c == '\\' {
        out.push('\\');
        out.push('\\');
    } else if c == '\n' {
        out.push('\\');
        out.push('n');
    } else if c == '\r' {
        out.push('\\');
        out.push('r');
    } else if c == '\t' {
        out.push('\\');
        out.push('t');
    } else {
        let code = c as u32;
        if code < 32 {
            out.push('\\');
            out.push('u');
            out.push('0');
            out.push('0');
            out.push(hex_char(code / 16));
            out.push(hex_char(code % 16));
        } else {
            out.push(c);
        }
    }
    proof {
        assert(final(out)@ =~= old(out)@ + spec_escape_char(c));
    }
}

/// Appends the escaped body of `s` to `out`.
pub fn append_escaped(out: &mut String, s: &str)
    ensures
        final(out)@ == old(out)@ + spec_escape(s@),
{
    let mut it = s.chars();
    let ghost mut done: Seq<char> = Seq::empty();
    proof {
        assert(spec_escape(done) =~= Seq::<char>::empty());
        assert(out@ + spec_escape(done) =~= out@);
    }
    loop
        invariant
            it.obeys_prophetic_iter_laws(),
            it.decrease() is Some,
            s@ =~= done + it.remaining(),
            out@ == old(out)@ + spec_escape(done),
        ensures
            it.remaining().len() == 0,
        decreases it.decrease()->0,
    {
        let ghost pre = it.remaining();
        match it.next() {
            Some(c) => {
                proof {
                    assert(c == pre[0]);
                    assert(it.remaining() =~= pre.drop_first());
                    lemma_escape_push(done, c);
                    assert(done.push(c) + it.remaining() =~= done + pre);
                    done = done.push(c);
                }
                push_escaped(out, c);
            },
            None => {
                proof {
                    assert(pre.len() == 0);
                    assert(done =~= s@);
                }
                break ;
            },
        }
    }
    proof {
        assert(done =~= s@);
    }
}

/// Renders `s` as a JSON string: quoted, with the body escaped.
pub fn json_str(s: &str) -> (r: String)
    ensures
        r@ == spec_json_str(s@),
{
    let mut out = String::new();
    out.push('"');
    append_escaped(&mut out, s);
    out.push('"');
    proof {
        assert(out@ =~= spec_json_str(s@));
    }
    out
}

} // verus!
