//! The text of a progress bar: a run of filled cells, optionally followed by
//! the empty remainder and wrapped in a pair of delimiters.

use vstd::prelude::*;

verus! {

/// `n` copies of the character `c`.
pub open spec fn repeated(c: char, n: nat) -> Seq<char> {
    Seq::new(n, |_k: int| c)
}

/// The filled part of a bar: one `*` per completed step.
pub open spec fn stars(n: nat) -> Seq<char> {
    repeated('*', n)
}

/// The empty part of a bar: one blank per step still to come.
pub open spec fn blanks(n: nat) -> Seq<char> {
    repeated(' ', n)
}

/// A bar of `total` cells, `filled` of them done, between `open` and `close`.
pub open spec fn bounded_line(open: char, close: char, filled: nat, total: nat) -> Seq<char>
    recommends
        filled <= total,
{
    seq![open] + stars(filled) + blanks((total - filled) as nat) + seq![close]
}

/// Relies on `String::push`: the character is appended at the end.
#[verifier::external_body]
fn push_char(s: &mut String, c: char)
    ensures
        final(s)@ == old(s)@.push(c),
{
    s.push(c);
}

/// Appends `n` copies of `c` to `s`.
fn push_repeated(s: &mut String, c: char, n: usize)
    ensures
        final(s)@ == old(s)@ + repeated(c, n as nat),
{
    let ghost start = s@;
    let mut k: usize = 0;
    while k < n
        invariant
            k <= n,
            s@ == start + repeated(c, k as nat),
        decreases n - k,
    {
        push_char(s, c);
        k = k + 1;
        assert(s@ =~= start + repeated(c, k as nat));
    }
}

/// The text of a bar with no known end: `filled` stars.
pub fn unbounded_line(filled: usize) -> (r: String)
    ensures
        r@ == stars(filled as nat),
{
    let mut s = String::new();
    push_repeated(&mut s, '*', filled);
    assert(s@ =~= stars(filled as nat));
    s
}

/// The text of a bar of `total` cells with `filled` of them done, wrapped in
/// `open` and `close`.
pub fn bounded_line_text(open: char, close: char, filled: usize, total: usize) -> (r: String)
    requires
        filled <= total,
    ensures
        r@ == bounded_line(open, close, filled as nat, total as nat),
{
    let mut s = String::new();
    push_char(&mut s, open);
    push_repeated(&mut s, '*', filled);
    push_repeated(&mut s, ' ', total - filled);
    push_char(&mut s, close);
    assert(s@ =~= bounded_line(open, close, filled as nat, total as nat));
    s
}

} // verus!
