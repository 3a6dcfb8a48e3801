//! The shape of a project key and the derivation of the project id.
//!
//! A project key is a string of the form `<id>_<secret>`: it is valid
//! exactly when it contains a single `'_'` delimiter, and the project id
//! is the prefix before that delimiter. Splitting on `'_'` yields exactly
//! two segments precisely for such strings; empty segments are allowed,
//! since only the segment count is checked.

use vstd::prelude::*;

verus! {

/// How many times the character `c` occurs in `s`.
pub open spec fn count_char(s: Seq<char>, c: char) -> nat
    decreases s.len(),
{
    if s.len() == 0 {
        0
    } else {
        count_char(s.drop_last(), c) + if s.last() == c {
            1nat
        } else {
            0nat
        }
    }
}

/// A project key is valid when it holds exactly one `'_'` delimiter.
pub open spec fn valid_key(s: Seq<char>) -> bool {
    count_char(s, '_') == 1
}

/// The position of the `'_'` delimiter. Meaningful when `valid_key(s)`
/// holds: exactly one position then satisfies the predicate.
pub open spec fn split_index(s: Seq<char>) -> int {
    choose|i: int| 0 <= i < s.len() && s[i] == '_'
}

/// The project id derived from the key `s`: the prefix of `s` that
/// stands before the `'_'` delimiter.
pub open spec fn id_of(s: Seq<char>) -> Seq<char> {
    s.take(split_index(s))
}

proof fn lemma_count_take_step(s: Seq<char>, c: char, i: int)
    requires
        0 <= i < s.len(),
    ensures
        count_char(s.take(i + 1), c) == count_char(s.take(i), c) + if s[i] == c {
            1nat
        } else {
            0nat
        },
{
    assert(s.take(i + 1).drop_last() =~= s.take(i));
    assert(s.take(i + 1).last() == s[i]);
}

proof fn lemma_count_at_least_one(s: Seq<char>, c: char, i: int)
    requires
        0 <= i < s.len(),
        s[i] == c,
    ensures
        count_char(s, c) >= 1,
    decreases s.len(),
{
    if i < s.len() - 1 {
        lemma_count_at_least_one(s.drop_last(), c, i);
    }
}

proof fn lemma_count_at_least_two(s: Seq<char>, c: char, i: int, j: int)
    requires
        0 <= i < j < s.len(),
        s[i] == c,
        s[j] == c,
    ensures
        count_char(s, c) >= 2,
    decreases s.len(),
{
    if j == s.len() - 1 {
        lemma_count_at_least_one(s.drop_last(), c, i);
    } else {
        lemma_count_at_least_two(s.drop_last(), c, i, j);
    }
}

/// In a valid key the delimiter position is the one position holding a
/// `'_'`, so the derived id is the prefix before that position.
pub proof fn lemma_split_index_agrees(s: Seq<char>, j: int)
    requires
        valid_key(s),
        0 <= j < s.len(),
        s[j] == '_',
    ensures
        split_index(s) == j,
        id_of(s) == s.take(j),
{
    assert(exists|i: int| 0 <= i < s.len() && s[i] == '_') by {
        assert(0 <= j < s.len() && s[j] == '_');
    }
    let i = split_index(s);
    assert(0 <= i < s.len() && s[i] == '_');
    if i < j {
        lemma_count_at_least_two(s, '_', i, j);
    } else if j < i {
        lemma_count_at_least_two(s, '_', j, i);
    }
}

/// Scans `key` for its `'_'` delimiter: returns the prefix before the
/// delimiter when the key holds exactly one `'_'`, and `None` otherwise.
pub fn project_id_of_key(key: &str) -> (r: Option<String>)
    ensures
        r is Some <==> valid_key(key@),
        r matches Some(id) ==> id@ == id_of(key@),
{
    let len: usize = key.unicode_len();
    let mut count: usize = 0;
    let mut first: usize = 0;
    let mut i: usize = 0;
    while i < len
        invariant
            len as nat == key@.len(),
            i <= len,
            count <= i,
            count as nat == count_char(key@.take(i as int), '_'),
            count == 0 ==> (forall|k: int| 0 <= k < i ==> key@[k] != '_'),
            count > 0 ==> first < i && key@[first as int] == '_' && (forall|k: int|
                0 <= k < first ==> key@[k] != '_'),
        decreases len - i,
    {
        let c = key.get_char(i);
        proof {
            lemma_count_take_step(key@, '_', i as int);
        }
        if c == '_' {
            if count == 0 {
                first = i;
            }
            count = count + 1;
        }
        i = i + 1;
    }
    proof {
        assert(key@.take(len as int) =~= key@);
    }
    if count != 1 {
        return None;
    }
    proof {
        lemma_split_index_agrees(key@, first as int);
    }
    let id = key.substring_char(0, first);
    Some(id.to_owned())
}

} // verus!
