//! Case-insensitive text comparison.
//!
//! Every name comparison in the resolution layer is a case-insensitive,
//! exact-string match — no substring or fuzzy matching anywhere.  The spec
//! side folds ASCII upper-case letters to lower case and compares the folded
//! sequences; the exec side walks the two strings character by character.

use vstd::prelude::*;
use vstd::string::StringExecFns;

verus! {

/// ASCII lower-casing of a single character; every other character is kept.
pub open spec fn lower_char(c: char) -> char {
    if 'A' <= c && c <= 'Z' {
        (((c as u32) + 32) as char)
    } else {
        c
    }
}

/// A character sequence with every ASCII upper-case letter folded to lower case.
pub open spec fn lower_seq(s: Seq<char>) -> Seq<char> {
    s.map_values(|c: char| lower_char(c))
}

/// Case-insensitive equality: the folded sequences agree.
pub open spec fn ci_equal(a: Seq<char>, b: Seq<char>) -> bool {
    lower_seq(a) == lower_seq(b)
}

/// `ci_equal` is symmetric.
pub proof fn lemma_ci_equal_symmetric(a: Seq<char>, b: Seq<char>)
    ensures
        ci_equal(a, b) == ci_equal(b, a),
{
}

/// `ci_equal` is transitive, so names that are case permutations of each
/// other match exactly the same catalog entries.
pub proof fn lemma_ci_equal_transitive(a: Seq<char>, b: Seq<char>, c: Seq<char>)
    requires
        ci_equal(a, b),
    ensures
        ci_equal(a, c) == ci_equal(b, c),
{
}

/// ASCII lower-casing of one character.
pub fn lower_char_exec(c: char) -> (r: char)
    ensures
        r == lower_char(c),
{
    if 'A' <= c && c <= 'Z' {
        (((c as u32) + 32) as u8) as char
    } else {
        c
    }
}

/// Case-insensitive comparison of two strings.
pub fn eq_ignore_case(a: &str, b: &str) -> (r: bool)
    ensures
        r == ci_equal(a@, b@),
{
    let a_len = a.unicode_len();
    let b_len = b.unicode_len();
    if a_len != b_len {
        assert(lower_seq(a@).len() != lower_seq(b@).len());
        return false;
    }
    let mut i: usize = 0;
    while i < a_len
        invariant
            a_len == a@.len(),
            b_len == b@.len(),
            a_len == b_len,
            i <= a_len,
            forall|j: int| 0 <= j < i ==> lower_char(a@[j]) == lower_char(b@[j]),
        decreases a_len - i,
    {
        let ca = lower_char_exec(a.get_char(i));
        let cb = lower_char_exec(b.get_char(i));
        if ca != cb {
            assert(lower_seq(a@)[i as int] != lower_seq(b@)[i as int]);
            return false;
        }
        i += 1;
    }
    assert(lower_seq(a@) =~= lower_seq(b@));
    true
}

/// Whether `needle` occurs in `hay` starting at position `i`.
pub open spec fn matches_at(hay: Seq<char>, needle: Seq<char>, i: int) -> bool {
    forall|j: int| 0 <= j < needle.len() ==> hay[i + j] == needle[j]
}

/// Whether `needle` occurs anywhere in `hay`.
pub open spec fn contains_sub(hay: Seq<char>, needle: Seq<char>) -> bool {
    exists|i: int| 0 <= i && i + needle.len() <= hay.len() && matches_at(hay, needle, i)
}

/// Whether the lower-cased needle occurs anywhere in the lower-cased hay:
/// the one matching rule of the library that is a substring search rather
/// than an exact comparison.
pub fn contains_ci(hay: &str, needle: &str) -> (r: bool)
    ensures
        r == contains_sub(lower_seq(hay@), lower_seq(needle@)),
{
    let ghost h = lower_seq(hay@);
    let ghost nd = lower_seq(needle@);
    let n = hay.unicode_len();
    let m = needle.unicode_len();
    if m == 0 {
        assert(matches_at(h, nd, 0));
        assert(contains_sub(h, nd));
        return true;
    }
    if m > n {
        assert(!contains_sub(h, nd));
        return false;
    }
    let mut i: usize = 0;
    while i <= n - m
        invariant
            n == hay@.len(),
            m == needle@.len(),
            0 < m <= n,
            i <= n,
            h == lower_seq(hay@),
            nd == lower_seq(needle@),
            forall|x: int| 0 <= x < i ==> !matches_at(h, nd, x),
        decreases n - i,
    {
        let mut j: usize = 0;
        let mut hit = true;
        while j < m
            invariant
                n == hay@.len(),
                m == needle@.len(),
                i + m <= n,
                j <= m,
                h == lower_seq(hay@),
                nd == lower_seq(needle@),
                hit ==> forall|y: int| 0 <= y < j ==> h[i + y] == nd[y],
                !hit ==> !matches_at(h, nd, i as int),
            decreases m - j,
        {
            if hit {
                let c = lower_char_exec(hay.get_char(i + j));
                let w = lower_char_exec(needle.get_char(j));
                if c != w {
                    assert(h[i + j] != nd[j as int]);
                    hit = false;
                }
            }
            j += 1;
        }
        if hit {
            assert(matches_at(h, nd, i as int));
            assert(contains_sub(h, nd));
            return true;
        }
        i += 1;
    }
    assert forall|x: int| 0 <= x && x + nd.len() <= h.len() implies !matches_at(h, nd, x) by {
        assert(x < i);
    }
    assert(!contains_sub(h, nd));
    false
}

/// The items joined with a comma between each pair.
pub open spec fn join_comma_spec(items: Seq<String>) -> Seq<char>
    decreases items.len(),
{
    if items.len() == 0 {
        Seq::<char>::empty()
    } else if items.len() == 1 {
        items[0]@
    } else {
        items[0]@ + ","@ + join_comma_spec(items.drop_first())
    }
}

proof fn lemma_join_comma_snoc(items: Seq<String>, i: int)
    requires
        1 <= i < items.len(),
    ensures
        join_comma_spec(items.take(i + 1)) =~= join_comma_spec(items.take(i)) + ","@ + items[i]@,
    decreases i,
{
    if i == 1 {
        assert(items.take(2).drop_first() =~= seq![items[1]]);
        assert(items.take(1).len() == 1);
        assert(items.take(1)[0] == items[0]);
        assert(items.take(2)[0] == items[0]);
        assert(seq![items[1]].len() == 1);
        assert(seq![items[1]][0] == items[1]);
        assert(join_comma_spec(seq![items[1]]) == items[1]@);
        assert(join_comma_spec(items.take(2)) == items[0]@ + ","@ + items[1]@);
    } else {
        let d = items.drop_first();
        lemma_join_comma_snoc(d, i - 1);
        assert(items.take(i + 1).drop_first() =~= d.take(i));
        assert(items.take(i).drop_first() =~= d.take(i - 1));
        assert(items.take(i + 1)[0] == items[0]);
        assert(items.take(i)[0] == items[0]);
        assert(d[i - 1] == items[i]);
        assert(join_comma_spec(items.take(i + 1)) == items[0]@ + ","@ + join_comma_spec(d.take(i)));
        assert(join_comma_spec(items.take(i)) == items[0]@ + ","@ + join_comma_spec(d.take(i - 1)));
        assert(items[0]@ + ","@ + (join_comma_spec(d.take(i - 1)) + ","@ + items[i]@) =~= (items[0]@
            + ","@ + join_comma_spec(d.take(i - 1))) + ","@ + items[i]@);
    }
}

/// Joins the items with commas, as query parameters want their lists.
pub fn join_comma(items: &Vec<String>) -> (r: String)
    ensures
        r@ == join_comma_spec(items@),
{
    let mut out = String::new();
    let mut i: usize = 0;
    while i < items.len()
        invariant
            i <= items@.len(),
            out@ == join_comma_spec(items@.take(i as int)),
        decreases items@.len() - i,
    {
        if i > 0 {
            out.append(",");
            proof {
                reveal_strlit(",");
            }
        }
        out.append(items[i].as_str());
        proof {
            if i == 0 {
                assert(items@.take(1).len() == 1);
                assert(items@.take(1)[0] == items@[0]);
                assert(out@ =~= join_comma_spec(items@.take(1)));
            } else {
                lemma_join_comma_snoc(items@, i as int);
                assert(out@ =~= join_comma_spec(items@.take(i as int)) + ","@ + items@[i as int]@);
            }
        }
        i += 1;
    }
    assert(items@.take(items@.len() as int) =~= items@);
    out
}

/// Exact (case-sensitive) string equality; used for project-key lookup,
/// which is exact rather than name-folded.
pub fn str_eq(a: &str, b: &str) -> (r: bool)
    ensures
        r == (a@ == b@),
{
    let a_len = a.unicode_len();
    let b_len = b.unicode_len();
    if a_len != b_len {
        return false;
    }
    let mut i: usize = 0;
    while i < a_len
        invariant
            a_len == a@.len(),
            b_len == b@.len(),
            a_len == b_len,
            i <= a_len,
            forall|j: int| 0 <= j < i ==> a@[j] == b@[j],
        decreases a_len - i,
    {
        if a.get_char(i) != b.get_char(i) {
            return false;
        }
        i += 1;
    }
    assert(a@ =~= b@);
    true
}

} // verus!
