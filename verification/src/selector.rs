//! The component-selector grammar: symbolic path strings that identify a
//! remote component or service instance, of the shape
//! `segments:segments` or `segments:segments:segments`, where each
//! section is a non-empty run of path segments joined by `/`.
//!
//! Device-scoped resolution validates a selector strictly before any
//! connection work; an invalid selector fails immediately.

use vstd::prelude::*;

use crate::strutil::str_to_chars;

verus! {

/// The characters allowed inside a path segment.
pub open spec fn is_selector_char(c: char) -> bool {
    ('a' <= c && c <= 'z') || ('A' <= c && c <= 'Z') || ('0' <= c && c <= '9') || c == '-' || c
        == '_' || c == '.' || c == '*'
}

/// Character-level shape rules: only segment characters and the two
/// separators occur; the string starts and ends inside a segment; and
/// every separator is followed by a segment character, so no section or
/// segment is empty.
pub open spec fn selector_shape_ok(s: Seq<char>) -> bool {
    &&& s.len() > 0
    &&& forall|i: int|
        0 <= i < s.len() ==> (is_selector_char(#[trigger] s[i]) || s[i] == '/' || s[i] == ':')
    &&& is_selector_char(s[0])
    &&& is_selector_char(s[s.len() - 1])
    &&& forall|i: int|
        1 <= i < s.len() && (s[i - 1] == '/' || s[i - 1] == ':') ==> is_selector_char(
            #[trigger] s[i],
        )
}

/// Exactly one colon: the selector names a component and a node path.
pub open spec fn has_one_colon(s: Seq<char>) -> bool {
    exists|i: int|
        0 <= i < s.len() && #[trigger] s[i] == ':' && (forall|k: int|
            0 <= k < s.len() && #[trigger] s[k] == ':' ==> k == i)
}

/// Exactly two colons: the selector also names a property.
pub open spec fn has_two_colons(s: Seq<char>) -> bool {
    exists|i: int, j: int|
        0 <= i < j < s.len() && #[trigger] s[i] == ':' && #[trigger] s[j] == ':' && (forall|k: int|
            0 <= k < s.len() && #[trigger] s[k] == ':' ==> (k == i || k == j))
}

/// The selector grammar: well-shaped sections, split into two or three
/// by colons.
pub open spec fn is_valid_selector(s: Seq<char>) -> bool {
    selector_shape_ok(s) && (has_one_colon(s) || has_two_colons(s))
}

/// Whether `c` may appear inside a path segment.
fn selector_char(c: char) -> (r: bool)
    ensures
        r == is_selector_char(c),
{
    ('a' <= c && c <= 'z') || ('A' <= c && c <= 'Z') || ('0' <= c && c <= '9') || c == '-' || c
        == '_' || c == '.' || c == '*'
}

/// Validates a selector string strictly against the grammar.
pub fn validate_selector(s: &str) -> (r: bool)
    ensures
        r == is_valid_selector(s@),
{
    let v = str_to_chars(s);
    let n = v.len();
    if n == 0 {
        return false;
    }
    if !selector_char(v[0]) {
        return false;
    }
    if !selector_char(v[n - 1]) {
        return false;
    }
    let mut colon_count: usize = 0;
    let mut first_colon: usize = 0;
    let mut second_colon: usize = 0;
    let mut i: usize = 0;
    while i < n
        invariant
            0 < n == v@.len(),
            v@ == s@,
            i <= n,
            is_selector_char(v@[0]),
            is_selector_char(v@[n - 1]),
            forall|k: int|
                0 <= k < i ==> (is_selector_char(#[trigger] v@[k]) || v@[k] == '/' || v@[k] == ':'),
            forall|k: int|
                1 <= k < i && (v@[k - 1] == '/' || v@[k - 1] == ':') ==> is_selector_char(
                    #[trigger] v@[k],
                ),
            colon_count <= 2,
            forall|k: int| 0 <= k < i && #[trigger] v@[k] == ':' ==> colon_count >= 1,
            colon_count >= 1 ==> first_colon < i && v@[first_colon as int] == ':',
            colon_count >= 2 ==> second_colon < i && v@[second_colon as int] == ':'
                && first_colon < second_colon,
            forall|k: int|
                0 <= k < i && #[trigger] v@[k] == ':' ==> (k == first_colon || k == second_colon),
            colon_count == 1 ==> forall|k: int|
                0 <= k < i && #[trigger] v@[k] == ':' ==> k == first_colon,
        decreases n - i,
    {
        let c = v[i];
        if c == ':' {
            if i == 0 {
                return false;
            }
            if colon_count == 0 {
                first_colon = i;
                colon_count = 1;
            } else if colon_count == 1 {
                second_colon = i;
                colon_count = 2;
            } else {
                return false;
            }
            let prev = v[i - 1];
            if prev == '/' || prev == ':' {
                return false;
            }
        } else if c == '/' {
            if i == 0 {
                return false;
            }
            let prev = v[i - 1];
            if prev == '/' || prev == ':' {
                return false;
            }
        } else if !selector_char(c) {
            return false;
        } else {
        }
        i = i + 1;
    }
    if colon_count == 0 {
        proof {
            assert(forall|k: int| 0 <= k < n ==> #[trigger] v@[k] != ':');
            assert(!has_one_colon(s@));
            assert(!has_two_colons(s@));
        }
        return false;
    }
    proof {
        assert(selector_shape_ok(s@));
        if colon_count == 1 {
            assert(v@[first_colon as int] == ':');
            assert(has_one_colon(s@));
        } else {
            assert(v@[first_colon as int] == ':' && v@[second_colon as int] == ':');
            assert(has_two_colons(s@));
        }
    }
    true
}

} // verus!
