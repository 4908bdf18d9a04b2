//! Lexicographic order on character sequences.
//!
//! The store keeps timestamps as RFC 3339 text and lets SQLite order rows by
//! those columns. SQLite's default `BINARY` collation compares text by
//! `memcmp` over the UTF-8 encoding, and UTF-8 compares byte-wise exactly as
//! code points do, so the order the store promises is the code-point
//! lexicographic order defined here.

use vstd::prelude::*;

verus! {

/// `a` is lexicographically at or before `b`, comparing code points.
pub open spec fn lex_leq(a: Seq<char>, b: Seq<char>) -> bool
    decreases a.len(),
{
    if a.len() == 0 {
        true
    } else if b.len() == 0 {
        false
    } else if (a[0] as int) < (b[0] as int) {
        true
    } else if (b[0] as int) < (a[0] as int) {
        false
    } else {
        lex_leq(a.drop_first(), b.drop_first())
    }
}

/// `a` is lexicographically strictly before `b`.
pub open spec fn lex_lt(a: Seq<char>, b: Seq<char>) -> bool {
    lex_leq(a, b) && !lex_leq(b, a)
}

pub proof fn lemma_lex_leq_reflexive(a: Seq<char>)
    ensures
        lex_leq(a, a),
    decreases a.len(),
{
    if a.len() > 0 {
        lemma_lex_leq_reflexive(a.drop_first());
    }
}

} // verus!
