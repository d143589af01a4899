//! Building argument lists for external commands.

use vstd::prelude::*;
use vstd::string::*;

use crate::text::{append_decimal, decimal, owned};

verus! {

/// The texts of a list of strings.
pub open spec fn texts(v: Seq<String>) -> Seq<Seq<char>> {
    v.map_values(|s: String| s@)
}

/// Appends one argument.
pub fn push_arg(args: &mut Vec<String>, a: &str)
    ensures
        texts(final(args)@) == texts(old(args)@).push(a@),
{
    let ghost before = args@;
    args.push(owned(a));
    assert(texts(args@) =~= texts(before).push(a@));
}

/// Appends an argument that is already a `String`.
pub fn push_string_arg(args: &mut Vec<String>, a: String)
    ensures
        texts(final(args)@) == texts(old(args)@).push(a@),
{
    let ghost before = args@;
    let ghost av = a@;
    args.push(a);
    assert(texts(args@) =~= texts(before).push(av));
}

/// Appends the decimal rendering of `n`.
pub fn push_decimal_arg(args: &mut Vec<String>, n: u64)
    ensures
        texts(final(args)@) == texts(old(args)@).push(decimal(n as nat)),
{
    let mut s = String::new();
    append_decimal(&mut s, n);
    assert(s@ == decimal(n as nat));
    push_string_arg(args, s);
}

} // verus!
