//! Colon-separated fields, as the HTTP layer hands them in.
//!
//! A header argument arrives as `Name: value`, a credential argument as
//! `user:password`.  Both are read the same way: the field before the
//! first colon, and the field between the first and the second colon —
//! anything after a second colon is not part of the value.

use vstd::prelude::*;
use vstd::string::StrSliceExecFns;

verus! {

/// The index of the first colon in `s`, or `s.len()` when `s` holds none.
pub open spec fn first_colon(s: Seq<char>) -> int
    decreases s.len(),
{
    if s.len() == 0 {
        0
    } else if s[0] == ':' {
        0
    } else {
        1 + first_colon(s.drop_first())
    }
}

/// The field before the first colon: all of `s` when it holds no colon.
pub open spec fn field_before_colon(s: Seq<char>) -> Seq<char> {
    s.take(first_colon(s))
}

/// The field between the first and the second colon: empty when nothing
/// stands between them.  Meaningful only when `s` holds a colon.
pub open spec fn field_between_colons(s: Seq<char>) -> Seq<char> {
    let rest = s.skip(first_colon(s) + 1);
    rest.take(first_colon(rest))
}

/// A position scanned free of colons up to a colon or the end is the first
/// colon's position.
proof fn lemma_first_colon_at(s: Seq<char>, n: int)
    requires
        0 <= n <= s.len(),
        forall|j: int| 0 <= j < n ==> s[j] != ':',
        n < s.len() ==> s[n] == ':',
    ensures
        first_colon(s) == n,
    decreases n,
{
    if s.len() == 0 {
    } else if s[0] == ':' {
        assert(n == 0);
    } else {
        assert(s[0] != ':');
        assert(n >= 1);
        lemma_first_colon_at(s.drop_first(), n - 1);
    }
}

/// The position of the first colon, or the character count when there is
/// none.
fn find_first_colon(s: &str) -> (i: usize)
    ensures
        i as int == first_colon(s@),
        i <= s@.len(),
{
    let n = s.unicode_len();
    let mut i: usize = 0;
    while i < n
        invariant
            i <= n,
            n as nat == s@.len(),
            forall|j: int| 0 <= j < i ==> s@[j] != ':',
        decreases n - i,
    {
        if s.get_char(i) == ':' {
            proof {
                lemma_first_colon_at(s@, i as int);
            }
            return i;
        }
        i = i + 1;
    }
    proof {
        lemma_first_colon_at(s@, n as int);
    }
    n
}

/// Splits a line into its first two colon-separated fields: the field
/// before the first colon, and — when the line holds a colon at all — the
/// field between the first and the second one.
pub fn split_fields(line: &str) -> (fields: (String, Option<String>))
    ensures
        fields.0@ == field_before_colon(line@),
        ({
            match fields.1 {
                None => first_colon(line@) == line@.len(),
                Some(v) => first_colon(line@) < line@.len() && v@ == field_between_colons(line@),
            }
        }),
{
    let n = line.unicode_len();
    let i = find_first_colon(line);
    let key = line.substring_char(0, i).to_owned();
    proof {
        assert(key@ =~= field_before_colon(line@));
    }
    if i == n {
        (key, None)
    } else {
        let rest = line.substring_char(i + 1, n);
        proof {
            assert(rest@ =~= line@.skip(first_colon(line@) + 1));
        }
        let j = find_first_colon(rest);
        let value = rest.substring_char(0, j).to_owned();
        proof {
            assert(value@ =~= field_between_colons(line@));
        }
        (key, Some(value))
    }
}

} // verus!
