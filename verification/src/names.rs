//! Ordering and equality on subgraph names.
//!
//! Subgraph collections keep their entries sorted by name, so every walk over a
//! configuration is deterministic.  The order is strict lexicographic order on
//! code points, specified by [`lex_lt`] and decided executably by
//! [`str_compare`].

use vstd::prelude::*;

verus! {

/// Outcome of comparing two names.
pub enum KeyOrder {
    Before,
    Same,
    After,
}

/// Strict lexicographic order on character sequences, comparing code points.
pub open spec fn lex_lt(a: Seq<char>, b: Seq<char>) -> bool
    decreases a.len(),
{
    if b.len() == 0 {
        false
    } else if a.len() == 0 {
        true
    } else if a[0] != b[0] {
        (a[0] as u32) < (b[0] as u32)
    } else {
        lex_lt(a.skip(1), b.skip(1))
    }
}

/// The order is irreflexive.
pub proof fn lemma_lex_lt_irrefl(a: Seq<char>)
    ensures
        !lex_lt(a, a),
    decreases a.len(),
{
    if a.len() > 0 {
        lemma_lex_lt_irrefl(a.skip(1));
    }
}

/// The order is transitive.
pub proof fn lemma_lex_lt_trans(a: Seq<char>, b: Seq<char>, c: Seq<char>)
    requires
        lex_lt(a, b),
        lex_lt(b, c),
    ensures
        lex_lt(a, c),
    decreases a.len(),
{
    if a.len() == 0 {
        // c cannot be empty, since lex_lt(b, c) requires c.len() > 0.
    } else {
        // b.len() > 0 because lex_lt(a, b); c.len() > 0 because lex_lt(b, c).
        if a[0] == b[0] && b[0] == c[0] {
            lemma_lex_lt_trans(a.skip(1), b.skip(1), c.skip(1));
        }
    }
}

/// The order is asymmetric.
pub proof fn lemma_lex_lt_asym(a: Seq<char>, b: Seq<char>)
    requires
        lex_lt(a, b),
    ensures
        !lex_lt(b, a),
{
    if lex_lt(b, a) {
        lemma_lex_lt_trans(a, b, a);
        lemma_lex_lt_irrefl(a);
    }
}

/// Two ordered names are distinct.
pub proof fn lemma_lex_lt_neq(a: Seq<char>, b: Seq<char>)
    requires
        lex_lt(a, b),
    ensures
        a != b,
{
    if a == b {
        lemma_lex_lt_irrefl(a);
    }
}

/// After a common prefix of length `i` that ends at a difference or at the end
/// of either name, the comparison is settled by position `i`.
proof fn lemma_lex_lt_at(a: Seq<char>, b: Seq<char>, i: int)
    requires
        0 <= i <= a.len(),
        i <= b.len(),
        forall|j: int| 0 <= j < i ==> a[j] == b[j],
        i == a.len() || i == b.len() || a[i] != b[i],
    ensures
        lex_lt(a, b) <==> (i < b.len() && (i == a.len() || (a[i] as u32) < (b[i] as u32))),
        lex_lt(b, a) <==> (i < a.len() && (i == b.len() || (b[i] as u32) < (a[i] as u32))),
    decreases i,
{
    if i == 0 {
        // Direct from the definition.
    } else {
        assert(a[0] == b[0]);
        assert(forall|j: int| 0 <= j < i - 1 ==> a.skip(1)[j] == b.skip(1)[j]);
        lemma_lex_lt_at(a.skip(1), b.skip(1), i - 1);
        if i < a.len() && i < b.len() {
            assert(a.skip(1)[i - 1] == a[i]);
            assert(b.skip(1)[i - 1] == b[i]);
        }
    }
}

/// Decides the lexicographic order on two names.
pub fn str_compare(a: &str, b: &str) -> (r: KeyOrder)
    ensures
        r is Same <==> a@ == b@,
        r is Before <==> lex_lt(a@, b@),
        r is After <==> lex_lt(b@, a@),
{
    let a_len = a.unicode_len();
    let b_len = b.unicode_len();
    let mut i: usize = 0;
    while i < a_len && i < b_len
        invariant
            0 <= i <= a_len,
            i <= b_len,
            a_len == a@.len(),
            b_len == b@.len(),
            forall|j: int| 0 <= j < i ==> a@[j] == b@[j],
        decreases a_len - i,
    {
        let ca = a.get_char(i);
        let cb = b.get_char(i);
        if ca != cb {
            proof {
                lemma_lex_lt_at(a@, b@, i as int);
            }
            if (ca as u32) < (cb as u32) {
                return KeyOrder::Before;
            } else {
                return KeyOrder::After;
            }
        }
        i = i + 1;
    }
    proof {
        lemma_lex_lt_at(a@, b@, i as int);
    }
    if a_len == b_len {
        proof {
            assert(a@ =~= b@);
        }
        KeyOrder::Same
    } else if a_len < b_len {
        KeyOrder::Before
    } else {
        KeyOrder::After
    }
}

/// Decides equality of two names.
pub fn str_eq(a: &str, b: &str) -> (r: bool)
    ensures
        r == (a@ == b@),
{
    match str_compare(a, b) {
        KeyOrder::Same => true,
        KeyOrder::Before => {
            proof {
                lemma_lex_lt_neq(a@, b@);
            }
            false
        }
        KeyOrder::After => {
            proof {
                lemma_lex_lt_neq(b@, a@);
            }
            false
        }
    }
}

} // verus!
