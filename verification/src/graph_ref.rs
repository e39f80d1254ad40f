//! References to graph variants in the schema registry.
//!
//! A graph reference is written `name` or `name@variant`.  The name is 1 to 64
//! characters from letters, digits, `_` and `-`; the variant is 1 to 64
//! characters which may also include `.`.  When no variant is given it
//! defaults to `current`.

use vstd::prelude::*;

verus! {

/// A parsed reference to a graph variant in the registry.
pub struct GraphRef {
    pub name: String,
    pub variant: String,
}

/// Characters allowed in a graph name.
pub open spec fn valid_name_char(c: char) -> bool {
    (('a' as u32) <= (c as u32) && (c as u32) <= ('z' as u32)) || (('A' as u32) <= (c as u32) && (
    c as u32) <= ('Z' as u32)) || (('0' as u32) <= (c as u32) && (c as u32) <= ('9' as u32)) || c
        == '-' || c == '_'
}

/// Characters allowed in a variant name.
pub open spec fn valid_variant_char(c: char) -> bool {
    valid_name_char(c) || c == '.'
}

/// A well-formed graph name.
pub open spec fn valid_graph_name(s: Seq<char>) -> bool {
    1 <= s.len() <= 64 && forall|i: int| 0 <= i < s.len() ==> valid_name_char(#[trigger] s[i])
}

/// A well-formed variant name.
pub open spec fn valid_variant(s: Seq<char>) -> bool {
    1 <= s.len() <= 64 && forall|i: int| 0 <= i < s.len() ==> valid_variant_char(#[trigger] s[i])
}

/// The variant used when a reference names none.
pub open spec fn default_variant() -> Seq<char> {
    seq!['c', 'u', 'r', 'r', 'e', 'n', 't']
}

/// The position of the first `@`, or the length when there is none.
pub open spec fn first_marker(s: Seq<char>) -> int
    decreases s.len(),
{
    if s.len() == 0 {
        0
    } else if s[0] == '@' {
        0
    } else {
        1 + first_marker(s.skip(1))
    }
}

/// What a reference string denotes: the name and the variant, or nothing when
/// the string is ill-formed.
pub open spec fn graph_ref_parts(s: Seq<char>) -> Option<(Seq<char>, Seq<char>)> {
    let k = first_marker(s);
    if k == s.len() {
        if valid_graph_name(s) {
            Some((s, default_variant()))
        } else {
            None
        }
    } else {
        let name = s.take(k);
        let variant = s.skip(k + 1);
        if valid_graph_name(name) && valid_variant(variant) {
            Some((name, variant))
        } else {
            None
        }
    }
}

/// A scan that stops at the first `@`, or at the end, determines
/// [`first_marker`].
proof fn lemma_first_marker_at(s: Seq<char>, i: int)
    requires
        0 <= i <= s.len(),
        forall|j: int| 0 <= j < i ==> s[j] != '@',
        i == s.len() || s[i] == '@',
    ensures
        first_marker(s) == i,
    decreases i,
{
    if i > 0 {
        assert(forall|j: int| 0 <= j < i - 1 ==> s.skip(1)[j] != '@');
        if i < s.len() {
            assert(s.skip(1)[i - 1] == s[i]);
        }
        lemma_first_marker_at(s.skip(1), i - 1);
    }
}

/// Whether `c` may appear in a graph name.
fn is_name_char(c: char) -> (r: bool)
    ensures
        r == valid_name_char(c),
{
    let u = c as u32;
    (('a' as u32) <= u && u <= ('z' as u32)) || (('A' as u32) <= u && u <= ('Z' as u32)) || (('0'
        as u32) <= u && u <= ('9' as u32)) || c == '-' || c == '_'
}

/// Whether `s` is a well-formed graph name.
fn is_valid_graph_name(s: &str) -> (r: bool)
    ensures
        r == valid_graph_name(s@),
{
    let n = s.unicode_len();
    if n < 1 || n > 64 {
        return false;
    }
    let mut i: usize = 0;
    while i < n
        invariant
            0 <= i <= n,
            n == s@.len(),
            1 <= n <= 64,
            forall|j: int| 0 <= j < i ==> valid_name_char(#[trigger] s@[j]),
        decreases n - i,
    {
        if !is_name_char(s.get_char(i)) {
            return false;
        }
        i = i + 1;
    }
    true
}

/// Whether `s` is a well-formed variant name.
fn is_valid_variant(s: &str) -> (r: bool)
    ensures
        r == valid_variant(s@),
{
    let n = s.unicode_len();
    if n < 1 || n > 64 {
        return false;
    }
    let mut i: usize = 0;
    while i < n
        invariant
            0 <= i <= n,
            n == s@.len(),
            1 <= n <= 64,
            forall|j: int| 0 <= j < i ==> valid_variant_char(#[trigger] s@[j]),
        decreases n - i,
    {
        let c = s.get_char(i);
        if !(is_name_char(c) || c == '.') {
            return false;
        }
        i = i + 1;
    }
    true
}

impl GraphRef {
    /// Parses a `name` or `name@variant` reference, defaulting the variant to
    /// `current`; rejects ill-formed references.
    pub fn parse(s: &str) -> (r: Option<GraphRef>)
        ensures
            match r {
                Some(g) => graph_ref_parts(s@) == Some((g.name@, g.variant@)),
                None => graph_ref_parts(s@) is None,
            },
    {
        let n = s.unicode_len();
        let mut k: usize = 0;
        while k < n && s.get_char(k) != '@'
            invariant
                0 <= k <= n,
                n == s@.len(),
                forall|j: int| 0 <= j < k ==> s@[j] != '@',
            decreases n - k,
        {
            k = k + 1;
        }
        proof {
            lemma_first_marker_at(s@, k as int);
        }
        if k == n {
            if is_valid_graph_name(s) {
                let name = s.to_owned();
                let variant: String = String::from_str("current");
                proof {
                    reveal_strlit("current");
                    assert(variant@ =~= default_variant());
                }
                Some(GraphRef { name, variant })
            } else {
                None
            }
        } else {
            let name_part = s.substring_char(0, k);
            let variant_part = s.substring_char(k + 1, n);
            proof {
                assert(name_part@ =~= s@.take(k as int));
                assert(variant_part@ =~= s@.skip(k as int + 1));
            }
            if is_valid_graph_name(name_part) && is_valid_variant(variant_part) {
                Some(GraphRef { name: name_part.to_owned(), variant: variant_part.to_owned() })
            } else {
                None
            }
        }
    }
}

} // verus!
