//! Plain text renderings of values, for diagnostics.

use vstd::prelude::*;
use crate::identity::{decimal, decimal_string};

verus! {

/// A text between double quotes, written as it is.
pub open spec fn quoted(s: Seq<char>) -> Seq<char> {
    "\""@ + s + "\""@
}

/// `true` or `false`.
pub open spec fn bool_text(b: bool) -> Seq<char> {
    if b {
        "true"@
    } else {
        "false"@
    }
}

/// `Some(..)` around a text, or `None`.
pub open spec fn opt_wrap(inner: Option<Seq<char>>) -> Seq<char> {
    match inner {
        Some(t) => "Some("@ + t + ")"@,
        None => "None"@,
    }
}

/// An optional number.
pub open spec fn opt_number_text(n: Option<u32>) -> Seq<char> {
    opt_wrap(
        match n {
            Some(x) => Some(decimal(x as nat)),
            None => None,
        },
    )
}

/// An optional flag.
pub open spec fn opt_bool_text(b: Option<bool>) -> Seq<char> {
    opt_wrap(
        match b {
            Some(x) => Some(bool_text(x)),
            None => None,
        },
    )
}

/// An optional text, between double quotes where there is one.
pub open spec fn opt_quoted_text(s: Option<String>) -> Seq<char> {
    opt_wrap(
        match s {
            Some(x) => Some(quoted(x@)),
            None => None,
        },
    )
}

/// The numbers of a run of bytes, separated by `, `.
pub open spec fn bytes_joined(b: Seq<u8>) -> Seq<char>
    decreases b.len(),
{
    if b.len() == 0 {
        Seq::empty()
    } else if b.len() == 1 {
        decimal(b[0] as nat)
    } else {
        bytes_joined(b.drop_last()) + ", "@ + decimal(b.last() as nat)
    }
}

/// Binary data as a list of numbers in square brackets.
pub open spec fn bytes_text(b: Seq<u8>) -> Seq<char> {
    "["@ + bytes_joined(b) + "]"@
}

/// A name and value pair in round brackets.
pub open spec fn pair_text(p: (String, String)) -> Seq<char> {
    "("@ + quoted(p.0@) + ", "@ + quoted(p.1@) + ")"@
}

/// The pairs of a list, separated by `, `.
pub open spec fn pairs_joined(p: Seq<(String, String)>) -> Seq<char>
    decreases p.len(),
{
    if p.len() == 0 {
        Seq::empty()
    } else if p.len() == 1 {
        pair_text(p[0])
    } else {
        pairs_joined(p.drop_last()) + ", "@ + pair_text(p.last())
    }
}

/// A list of name and value pairs in square brackets.
pub open spec fn pairs_text(p: Seq<(String, String)>) -> Seq<char> {
    "["@ + pairs_joined(p) + "]"@
}

/// Optional binary data.
pub open spec fn opt_bytes_text(b: Option<Vec<u8>>) -> Seq<char> {
    opt_wrap(
        match b {
            Some(x) => Some(bytes_text(x@)),
            None => None,
        },
    )
}

/// Appends a text between double quotes.
pub fn push_quoted(out: &mut String, s: &str)
    ensures
        final(out)@ == old(out)@ + quoted(s@),
{
    out.append("\"");
    out.append(s);
    out.append("\"");
    assert(out@ =~= old(out)@ + quoted(s@));
}

/// Appends `true` or `false`.
pub fn push_bool(out: &mut String, b: bool)
    ensures
        final(out)@ == old(out)@ + bool_text(b),
{
    if b {
        out.append("true");
    } else {
        out.append("false");
    }
}

/// Appends an optional number.
pub fn push_opt_number(out: &mut String, n: Option<u32>)
    ensures
        final(out)@ == old(out)@ + opt_number_text(n),
{
    match n {
        Some(x) => {
            out.append("Some(");
            out.append(decimal_string(x as u64).as_str());
            out.append(")");
            assert(out@ =~= old(out)@ + opt_wrap(Some(decimal(x as nat))));
        },
        None => {
            out.append("None");
        },
    }
}

/// Appends an optional flag.
pub fn push_opt_bool(out: &mut String, b: Option<bool>)
    ensures
        final(out)@ == old(out)@ + opt_bool_text(b),
{
    match b {
        Some(x) => {
            out.append("Some(");
            push_bool(out, x);
            out.append(")");
            assert(out@ =~= old(out)@ + opt_wrap(Some(bool_text(x))));
        },
        None => {
            out.append("None");
        },
    }
}

/// Appends an optional text, between double quotes where there is one.
pub fn push_opt_quoted(out: &mut String, s: &Option<String>)
    ensures
        final(out)@ == old(out)@ + opt_quoted_text(*s),
{
    match s {
        Some(x) => {
            out.append("Some(");
            push_quoted(out, x.as_str());
            out.append(")");
            assert(out@ =~= old(out)@ + opt_wrap(Some(quoted(x@))));
        },
        None => {
            out.append("None");
        },
    }
}

/// Appends binary data as a list of numbers.
pub fn push_bytes(out: &mut String, b: &Vec<u8>)
    ensures
        final(out)@ == old(out)@ + bytes_text(b@),
{
    out.append("[");
    let ghost start = out@;
    let mut i: usize = 0;
    assert(b@.subrange(0, 0) =~= Seq::<u8>::empty());
    assert(start + Seq::<char>::empty() =~= start);
    while i < b.len()
        invariant
            i <= b.len(),
            out@ == start + bytes_joined(b@.subrange(0, i as int)),
        decreases b.len() - i,
    {
        proof {
            let next = b@.subrange(0, i + 1);
            assert(next.drop_last() =~= b@.subrange(0, i as int));
            assert(next.last() == b@[i as int]);
            if i == 0 {
                assert(bytes_joined(b@.subrange(0, 0)) =~= Seq::<char>::empty());
            }
        }
        if i > 0 {
            out.append(", ");
        }
        out.append(decimal_string(b[i] as u64).as_str());
        i += 1;
        assert(out@ =~= start + bytes_joined(b@.subrange(0, i as int)));
    }
    assert(b@.subrange(0, i as int) =~= b@);
    out.append("]");
    assert(out@ =~= old(out)@ + bytes_text(b@));
}

/// Appends optional binary data.
pub fn push_opt_bytes(out: &mut String, b: &Option<Vec<u8>>)
    ensures
        final(out)@ == old(out)@ + opt_bytes_text(*b),
{
    match b {
        Some(x) => {
            out.append("Some(");
            push_bytes(out, x);
            out.append(")");
            assert(out@ =~= old(out)@ + opt_wrap(Some(bytes_text(x@))));
        },
        None => {
            out.append("None");
        },
    }
}

/// Appends a list of name and value pairs.
pub fn push_pairs(out: &mut String, p: &Vec<(String, String)>)
    ensures
        final(out)@ == old(out)@ + pairs_text(p@),
{
    out.append("[");
    let ghost start = out@;
    let mut i: usize = 0;
    assert(p@.subrange(0, 0) =~= Seq::<(String, String)>::empty());
    assert(start + Seq::<char>::empty() =~= start);
    while i < p.len()
        invariant
            i <= p.len(),
            out@ == start + pairs_joined(p@.subrange(0, i as int)),
        decreases p.len() - i,
    {
        proof {
            let next = p@.subrange(0, i + 1);
            assert(next.drop_last() =~= p@.subrange(0, i as int));
            assert(next.last() == p@[i as int]);
            if i == 0 {
                assert(pairs_joined(p@.subrange(0, 0)) =~= Seq::<char>::empty());
            }
        }
        if i > 0 {
            out.append(", ");
        }
        out.append("(");
        push_quoted(out, p[i].0.as_str());
        out.append(", ");
        push_quoted(out, p[i].1.as_str());
        out.append(")");
        i += 1;
        assert(out@ =~= start + pairs_joined(p@.subrange(0, i as int)));
    }
    assert(p@.subrange(0, i as int) =~= p@);
    out.append("]");
    assert(out@ =~= old(out)@ + pairs_text(p@));
}

} // verus!
