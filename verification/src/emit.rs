use vstd::prelude::*;
use vstd::string::StrSliceExecFns;

use crate::text::{dec_of, push_u64_dec, push_char};
use crate::value::{Value, type_str, literal_str, type_of, push_literal};

verus! {

/// How one character of module text is embedded in the fixture string: a
/// newline gains four spaces of indentation so the text aligns with the
/// function body, and backslashes and quotes are escaped.
pub open spec fn wat_char(c: char) -> Seq<char> {
    if c == '\n' {
        seq!['\n', ' ', ' ', ' ', ' ']
    } else if c == '\\' {
        seq!['\\', '\\']
    } else if c == '"' {
        seq!['\\', '"']
    } else {
        seq![c]
    }
}

/// The tail of the embedded module text, from position `i` on.
pub open spec fn wat_from(s: Seq<char>, i: int) -> Seq<char>
    decreases s.len() - i,
{
    if i < 0 || i >= s.len() {
        Seq::empty()
    } else {
        wat_char(s[i]) + wat_from(s, i + 1)
    }
}

/// The embedded form of a module's textual rendering.
pub open spec fn wat_embedded(s: Seq<char>) -> Seq<char> {
    wat_from(s, 0)
}

/// How one character is escaped inside an emitted string literal.
pub open spec fn quoted_char(c: char) -> Seq<char> {
    if c == '"' {
        seq!['\\', '"']
    } else if c == '\\' {
        seq!['\\', '\\']
    } else if c == '\n' {
        seq!['\\', 'n']
    } else if c == '\t' {
        seq!['\\', 't']
    } else if c == '\r' {
        seq!['\\', 'r']
    } else {
        seq![c]
    }
}

/// The tail of an escaped string body, from position `i` on.
pub open spec fn quoted_from(s: Seq<char>, i: int) -> Seq<char>
    decreases s.len() - i,
{
    if i < 0 || i >= s.len() {
        Seq::empty()
    } else {
        quoted_char(s[i]) + quoted_from(s, i + 1)
    }
}

/// Text rendered as a quoted, escaped string literal.
pub open spec fn quoted_of(s: Seq<char>) -> Seq<char> {
    seq!['"'] + quoted_from(s, 0) + seq!['"']
}

/// The tail of a byte array rendered as a bracketed decimal list.
pub open spec fn bytes_items(s: Seq<u8>, i: int) -> Seq<char>
    decreases s.len() - i,
{
    if i < 0 || i >= s.len() {
        Seq::empty()
    } else if i == s.len() - 1 {
        dec_of(s[i] as nat)
    } else {
        dec_of(s[i] as nat) + ", "@ + bytes_items(s, i + 1)
    }
}

/// A byte array rendered as a bracketed decimal list.
pub open spec fn bytes_listed(s: Seq<u8>) -> Seq<char> {
    "["@ + bytes_items(s, 0) + "]"@
}

/// The argument-type list of an emitted invocation, from position `i` on:
/// every argument's type token, then the reference to the live instance.
pub open spec fn types_from(args: Seq<Value>, i: int) -> Seq<char>
    decreases args.len() - i,
{
    if i < 0 || i >= args.len() {
        "&Instance"@
    } else {
        type_str(args[i]) + ", "@ + types_from(args, i + 1)
    }
}

/// The argument-value list of an emitted invocation, from position `i` on:
/// every argument's literal, then the reference to the live instance.
pub open spec fn values_from(args: Seq<Value>, i: int) -> Seq<char>
    decreases args.len() - i,
{
    if i < 0 || i >= args.len() {
        "&result_object.instance"@
    } else {
        literal_str(args[i]) + ", "@ + values_from(args, i + 1)
    }
}

/// The grouped invocation statements of a flushed module, from call `i` on,
/// one per line.
pub open spec fn calls_joined(calls: Seq<Seq<char>>, i: int) -> Seq<char>
    decreases calls.len() - i,
{
    if i < 0 || i >= calls.len() {
        Seq::empty()
    } else if i == calls.len() - 1 {
        calls[i] + "(&result_object);"@
    } else {
        calls[i] + "(&result_object);"@ + "\n    "@ + calls_joined(calls, i + 1)
    }
}

/// Appends the embedded form of a module's textual rendering.
pub fn push_wat_embedded(buf: &mut String, s: &str)
    ensures
        final(buf)@ == old(buf)@ + wat_embedded(s@),
{
    let n: usize = s.unicode_len();
    let mut i: usize = 0;
    while i < n
        invariant
            n == s@.len(),
            i <= n,
            buf@ + wat_from(s@, i as int) == old(buf)@ + wat_from(s@, 0),
        decreases n - i,
    {
        let c = s.get_char(i);
        if c == '\n' {
            buf.append("\n    ");
            proof {
                reveal_strlit("\n    ");
                assert("\n    "@ =~= wat_char(c));
            }
        } else if c == '\\' {
            buf.append("\\\\");
            proof {
                reveal_strlit("\\\\");
                assert("\\\\"@ =~= wat_char(c));
            }
        } else if c == '"' {
            buf.append("\\\"");
            proof {
                reveal_strlit("\\\"");
                assert("\\\""@ =~= wat_char(c));
            }
        } else {
            push_char(buf, c);
        }
        i = i + 1;
        proof {
            assert(buf@ + wat_from(s@, i as int) =~= old(buf)@ + wat_from(s@, 0));
        }
    }
}

/// Appends text as a quoted, escaped string literal.
pub fn push_quoted(buf: &mut String, s: &str)
    ensures
        final(buf)@ == old(buf)@ + quoted_of(s@),
{
    buf.append("\"");
    proof {
        reveal_strlit("\"");
        assert("\""@ =~= seq!['"']);
    }
    let n: usize = s.unicode_len();
    let mut i: usize = 0;
    while i < n
        invariant
            n == s@.len(),
            i <= n,
            buf@ + quoted_from(s@, i as int) == old(buf)@ + seq!['"'] + quoted_from(s@, 0),
        decreases n - i,
    {
        let c = s.get_char(i);
        if c == '"' {
            buf.append("\\\"");
            proof {
                reveal_strlit("\\\"");
                assert("\\\""@ =~= quoted_char(c));
            }
        } else if c == '\\' {
            buf.append("\\\\");
            proof {
                reveal_strlit("\\\\");
                assert("\\\\"@ =~= quoted_char(c));
            }
        } else if c == '\n' {
            buf.append("\\n");
            proof {
                reveal_strlit("\\n");
                assert("\\n"@ =~= quoted_char(c));
            }
        } else if c == '\t' {
            buf.append("\\t");
            proof {
                reveal_strlit("\\t");
                assert("\\t"@ =~= quoted_char(c));
            }
        } else if c == '\r' {
            buf.append("\\r");
            proof {
                reveal_strlit("\\r");
                assert("\\r"@ =~= quoted_char(c));
            }
        } else {
            push_char(buf, c);
        }
        i = i + 1;
        proof {
            assert(buf@ + quoted_from(s@, i as int) =~= old(buf)@ + seq!['"'] + quoted_from(
                s@,
                0,
            ));
        }
    }
    buf.append("\"");
    proof {
        reveal_strlit("\"");
        assert(buf@ =~= old(buf)@ + quoted_of(s@));
    }
}

/// Appends a byte array as a bracketed decimal list.
pub fn push_bytes_listed(buf: &mut String, bytes: &Vec<u8>)
    ensures
        final(buf)@ == old(buf)@ + bytes_listed(bytes@),
{
    buf.append("[");
    let n: usize = bytes.len();
    let mut i: usize = 0;
    while i < n
        invariant
            n == bytes@.len(),
            i <= n,
            buf@ + bytes_items(bytes@, i as int) == old(buf)@ + "["@ + bytes_items(bytes@, 0),
        decreases n - i,
    {
        push_u64_dec(buf, bytes[i] as u64);
        if i + 1 < n {
            buf.append(", ");
        }
        i = i + 1;
        proof {
            assert(buf@ + bytes_items(bytes@, i as int) =~= old(buf)@ + "["@ + bytes_items(
                bytes@,
                0,
            ));
        }
    }
    buf.append("]");
    proof {
        assert(buf@ =~= old(buf)@ + bytes_listed(bytes@));
    }
}

/// Appends the argument-type list of an invocation.
pub fn push_types(buf: &mut String, args: &Vec<Value>)
    ensures
        final(buf)@ == old(buf)@ + types_from(args@, 0),
{
    let n: usize = args.len();
    let mut i: usize = 0;
    while i < n
        invariant
            n == args@.len(),
            i <= n,
            buf@ + types_from(args@, i as int) == old(buf)@ + types_from(args@, 0),
        decreases n - i,
    {
        buf.append(type_of(&args[i]));
        buf.append(", ");
        i = i + 1;
        proof {
            assert(buf@ + types_from(args@, i as int) =~= old(buf)@ + types_from(args@, 0));
        }
    }
    buf.append("&Instance");
}

/// Appends the argument-value list of an invocation.
pub fn push_values(buf: &mut String, args: &Vec<Value>)
    ensures
        final(buf)@ == old(buf)@ + values_from(args@, 0),
{
    let n: usize = args.len();
    let mut i: usize = 0;
    while i < n
        invariant
            n == args@.len(),
            i <= n,
            buf@ + values_from(args@, i as int) == old(buf)@ + values_from(args@, 0),
        decreases n - i,
    {
        push_literal(buf, &args[i]);
        buf.append(", ");
        i = i + 1;
        proof {
            assert(buf@ + values_from(args@, i as int) =~= old(buf)@ + values_from(args@, 0));
        }
    }
    buf.append("&result_object.instance");
}

/// Appends the grouped invocation statements of a flushed module.
pub fn push_calls_joined(buf: &mut String, calls: &Vec<String>)
    ensures
        final(buf)@ == old(buf)@ + calls_joined(calls.deep_view(), 0),
{
    let n: usize = calls.len();
    let mut i: usize = 0;
    while i < n
        invariant
            n == calls@.len(),
            calls.deep_view().len() == n,
            forall|k: int| 0 <= k < n ==> calls.deep_view()[k] == calls@[k]@,
            i <= n,
            buf@ + calls_joined(calls.deep_view(), i as int) == old(buf)@ + calls_joined(
                calls.deep_view(),
                0,
            ),
        decreases n - i,
    {
        buf.append(calls[i].as_str());
        buf.append("(&result_object);");
        if i + 1 < n {
            buf.append("\n    ");
        }
        i = i + 1;
        proof {
            assert(buf@ + calls_joined(calls.deep_view(), i as int) =~= old(buf)@ + calls_joined(
                calls.deep_view(),
                0,
            ));
        }
    }
}

} // verus!
