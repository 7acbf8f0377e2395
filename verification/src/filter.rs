//! Field-filter parsing: turns a user-supplied filter string into the
//! comma-separated field list of the API.  A preset name (in any case)
//! expands to its list, a space-separated list is rewritten with commas,
//! and anything else is passed through unchanged.

use vstd::prelude::*;
use vstd::string::StrSliceExecFns;
use vstd::string::StringExecFns;
use crate::enums::FieldPreset;
use crate::enums::spec_preset_field_list;
use crate::text::ci_equal;
use crate::text::eq_ignore_case;

verus! {

/// The whitespace characters stripped from either end of a filter.
pub open spec fn is_space(c: char) -> bool {
    c == ' ' || c == '\t' || c == '\n' || c == '\r'
}

/// A sequence with its leading whitespace removed.
pub open spec fn trim_start_spec(s: Seq<char>) -> Seq<char>
    decreases s.len(),
{
    if s.len() > 0 && is_space(s[0]) {
        trim_start_spec(s.drop_first())
    } else {
        s
    }
}

/// A sequence with its trailing whitespace removed.
pub open spec fn trim_end_spec(s: Seq<char>) -> Seq<char>
    decreases s.len(),
{
    if s.len() > 0 && is_space(s.last()) {
        trim_end_spec(s.drop_last())
    } else {
        s
    }
}

/// A sequence with whitespace removed from both ends.
pub open spec fn trimmed(s: Seq<char>) -> Seq<char> {
    trim_end_spec(trim_start_spec(s))
}

/// A sequence with every space replaced by a comma.
pub open spec fn commas_for_spaces(s: Seq<char>) -> Seq<char> {
    s.map_values(|c: char| if c == ' ' { ',' } else { c })
}

/// What [`parse_field_filter`] returns: the preset expansion when the
/// trimmed filter names a preset in any case; the space-to-comma rewrite
/// when it holds spaces but no comma; otherwise the trimmed filter itself.
pub open spec fn parse_field_filter_spec(s: Seq<char>) -> Seq<char> {
    let t = trimmed(s);
    if ci_equal(t, "minimal"@) {
        spec_preset_field_list(FieldPreset::Minimal)
    } else if ci_equal(t, "basic"@) {
        spec_preset_field_list(FieldPreset::Basic)
    } else if ci_equal(t, "standard"@) {
        spec_preset_field_list(FieldPreset::Standard)
    } else if ci_equal(t, "detailed"@) {
        spec_preset_field_list(FieldPreset::Detailed)
    } else if ci_equal(t, "full"@) {
        spec_preset_field_list(FieldPreset::Full)
    } else if t.contains(' ') && !t.contains(',') {
        commas_for_spaces(t)
    } else {
        t
    }
}

proof fn lemma_trim_start_skip(s: Seq<char>, a: int)
    requires
        0 <= a < s.len(),
        is_space(s[a]),
    ensures
        trim_start_spec(s.skip(a)) == trim_start_spec(s.skip(a + 1)),
{
    assert(s.skip(a)[0] == s[a]);
    assert(s.skip(a).drop_first() =~= s.skip(a + 1));
}

proof fn lemma_trim_end_take(t: Seq<char>, k: int)
    requires
        0 < k <= t.len(),
        is_space(t[k - 1]),
    ensures
        trim_end_spec(t.take(k)) == trim_end_spec(t.take(k - 1)),
{
    assert(t.take(k).last() == t[k - 1]);
    assert(t.take(k).drop_last() =~= t.take(k - 1));
}

/// Strips whitespace from both ends of a string.
fn trim(s: &str) -> (r: &str)
    ensures
        r@ == trimmed(s@),
{
    let len = s.unicode_len();
    let mut a: usize = 0;
    assert(s@.skip(0) =~= s@);
    loop
        invariant
            len == s@.len(),
            a <= len,
            trim_start_spec(s@) == trim_start_spec(s@.skip(a as int)),
        ensures
            a <= len,
            len == s@.len(),
            trim_start_spec(s@) == s@.skip(a as int),
        decreases len - a,
    {
        if a >= len {
            assert(s@.skip(a as int) =~= Seq::<char>::empty());
            break;
        }
        let c = s.get_char(a);
        if !(c == ' ' || c == '\t' || c == '\n' || c == '\r') {
            assert(s@.skip(a as int)[0] == s@[a as int]);
            break;
        }
        proof {
            lemma_trim_start_skip(s@, a as int);
        }
        a += 1;
    }
    let ghost t = s@.skip(a as int);
    assert(trim_start_spec(s@) == t);
    let mut b: usize = len;
    assert(t.take((len - a) as int) =~= t);
    loop
        invariant
            len == s@.len(),
            a <= b <= len,
            t == s@.skip(a as int),
            trim_end_spec(t) == trim_end_spec(t.take((b - a) as int)),
        ensures
            a <= b <= len,
            trim_end_spec(t) == t.take((b - a) as int),
        decreases b,
    {
        if b <= a {
            assert(t.take(0) =~= Seq::<char>::empty());
            break;
        }
        let c = s.get_char(b - 1);
        if !(c == ' ' || c == '\t' || c == '\n' || c == '\r') {
            proof {
                assert(t.take((b - a) as int).last() == t[(b - 1 - a) as int]);
                assert(t[(b - 1 - a) as int] == s@[b - 1]);
            }
            break;
        }
        proof {
            assert(t[(b - 1 - a) as int] == s@[b - 1]);
            lemma_trim_end_take(t, (b - a) as int);
        }
        b -= 1;
    }
    let r = s.substring_char(a, b);
    proof {
        assert(t.take((b - a) as int) =~= s@.subrange(a as int, b as int));
    }
    r
}

/// Whether the string holds the character.
fn contains_char(s: &str, c: char) -> (r: bool)
    ensures
        r == s@.contains(c),
{
    let len = s.unicode_len();
    let mut i: usize = 0;
    while i < len
        invariant
            len == s@.len(),
            i <= len,
            forall|j: int| 0 <= j < i ==> s@[j] != c,
        decreases len - i,
    {
        if s.get_char(i) == c {
            assert(s@.contains(c));
            return true;
        }
        i += 1;
    }
    false
}

/// A copy of the string with every space replaced by a comma.
fn commas_for_spaces_exec(s: &str) -> (r: String)
    ensures
        r@ == commas_for_spaces(s@),
{
    let len = s.unicode_len();
    let mut out = String::new();
    let mut i: usize = 0;
    while i < len
        invariant
            len == s@.len(),
            i <= len,
            out@ =~= commas_for_spaces(s@).take(i as int),
        decreases len - i,
    {
        if s.get_char(i) == ' ' {
            out.append(",");
            proof {
                reveal_strlit(",");
                assert(out@ =~= commas_for_spaces(s@).take(i as int + 1));
            }
        } else {
            let piece = s.substring_char(i, i + 1);
            out.append(piece);
            proof {
                assert(piece@ =~= s@.subrange(i as int, i as int + 1));
                assert(out@ =~= commas_for_spaces(s@).take(i as int + 1));
            }
        }
        i += 1;
    }
    assert(commas_for_spaces(s@).take(len as int) =~= commas_for_spaces(s@));
    out
}

/// Parses a field-filter string: a preset name in any case expands to its
/// field list, a space-separated (and comma-free) list is rewritten with
/// commas, and anything already in API form is returned trimmed but
/// otherwise unchanged.
pub fn parse_field_filter(filter: &str) -> (r: String)
    ensures
        r@ == parse_field_filter_spec(filter@),
{
    let t = trim(filter);
    if eq_ignore_case(t, "minimal") {
        FieldPreset::Minimal.to_field_list()
    } else if eq_ignore_case(t, "basic") {
        FieldPreset::Basic.to_field_list()
    } else if eq_ignore_case(t, "standard") {
        FieldPreset::Standard.to_field_list()
    } else if eq_ignore_case(t, "detailed") {
        FieldPreset::Detailed.to_field_list()
    } else if eq_ignore_case(t, "full") {
        FieldPreset::Full.to_field_list()
    } else {
        let has_space = contains_char(t, ' ');
        let has_comma = contains_char(t, ',');
        if has_space && !has_comma {
            commas_for_spaces_exec(t)
        } else {
            String::from_str(t)
        }
    }
}

} // verus!
