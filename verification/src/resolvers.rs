//! The resolution layer: from portable, human-meaningful names to the
//! tenant-specific identifiers the API requires.
//!
//! All matching is case-insensitive exact-string comparison in catalog
//! order, first match wins — a deliberate priority rule, not a scored
//! matcher.  When several entries share a name the first one in catalog
//! order is silently chosen; that ambiguity is a documented limitation.

use vstd::prelude::*;
use crate::enums::Status;
use crate::enums::spec_status_category;
use crate::enums::spec_status_name;
use crate::model::FieldDescriptor;
use crate::model::IssueTypeDescriptor;
use crate::model::MatchedVia;
use crate::model::NotFoundKind;
use crate::model::ProjectIssueTypes;
use crate::model::ResolutionResult;
use crate::model::ResolvedIssueType;
use crate::model::StatusCategoryKey;
use crate::model::TransitionDescriptor;
use crate::text::ci_equal;
use crate::text::eq_ignore_case;
use crate::text::str_eq;

verus! {

/// Whether a candidate name matches a field's display name.
pub open spec fn field_matches(f: FieldDescriptor, name: Seq<char>) -> bool {
    ci_equal(f.display_name@, name)
}

/// The first field in catalog order whose display name matches `name`.
pub open spec fn first_field_match(fields: Seq<FieldDescriptor>, name: Seq<char>) -> Option<
    FieldDescriptor,
>
    decreases fields.len(),
{
    if fields.len() <= 0 {
        None
    } else if field_matches(fields[0], name) {
        Some(fields[0])
    } else {
        first_field_match(fields.drop_first(), name)
    }
}

/// The resolution rule over an ordered candidate list: the first candidate
/// that has any match wins, and within that candidate the first matching
/// field in catalog order is taken.
pub open spec fn resolve_field_spec(
    candidates: Seq<String>,
    fields: Seq<FieldDescriptor>,
) -> Option<FieldDescriptor>
    decreases candidates.len(),
{
    if candidates.len() <= 0 {
        None
    } else if first_field_match(fields, candidates[0]@) is Some {
        first_field_match(fields, candidates[0]@)
    } else {
        resolve_field_spec(candidates.drop_first(), fields)
    }
}

proof fn lemma_first_field_match_skip_step(fields: Seq<FieldDescriptor>, name: Seq<char>, j: int)
    requires
        0 <= j < fields.len(),
        !field_matches(fields[j], name),
    ensures
        first_field_match(fields.skip(j), name) == first_field_match(fields.skip(j + 1), name),
{
    assert(fields.skip(j).len() > 0);
    assert(fields.skip(j)[0] == fields[j]);
    assert(fields.skip(j).drop_first() =~= fields.skip(j + 1));
}

proof fn lemma_first_field_match_skip_found(fields: Seq<FieldDescriptor>, name: Seq<char>, j: int)
    requires
        0 <= j < fields.len(),
        field_matches(fields[j], name),
    ensures
        first_field_match(fields.skip(j), name) == Some(fields[j]),
{
    assert(fields.skip(j)[0] == fields[j]);
}

proof fn lemma_resolve_field_skip_step(
    candidates: Seq<String>,
    fields: Seq<FieldDescriptor>,
    i: int,
)
    requires
        0 <= i < candidates.len(),
        first_field_match(fields, candidates[i]@) is None,
    ensures
        resolve_field_spec(candidates.skip(i), fields) == resolve_field_spec(
            candidates.skip(i + 1),
            fields,
        ),
{
    assert(candidates.skip(i)[0] == candidates[i]);
    assert(candidates.skip(i).drop_first() =~= candidates.skip(i + 1));
}

/// The first field of the catalog slice starting at `from` that matches
/// `name`, as an index; exec counterpart of [`first_field_match`].
fn scan_fields(fields: &Vec<FieldDescriptor>, name: &str, from: usize) -> (r: Option<usize>)
    requires
        from <= fields@.len(),
    ensures
        match r {
            Some(j) => {
                &&& from <= j < fields@.len()
                &&& first_field_match(fields@.skip(from as int), name@) == Some(fields@[j as int])
            },
            None => first_field_match(fields@.skip(from as int), name@) is None,
        },
{
    let mut j: usize = from;
    while j < fields.len()
        invariant
            from <= j <= fields@.len(),
            first_field_match(fields@.skip(from as int), name@) == first_field_match(
                fields@.skip(j as int),
                name@,
            ),
        decreases fields@.len() - j,
    {
        if eq_ignore_case(fields[j].display_name.as_str(), name) {
            proof {
                lemma_first_field_match_skip_found(fields@, name@, j as int);
            }
            return Some(j);
        }
        proof {
            lemma_first_field_match_skip_step(fields@, name@, j as int);
        }
        j += 1;
    }
    assert(fields@.skip(fields@.len() as int) =~= Seq::<FieldDescriptor>::empty());
    None
}

/// Maps a prioritised list of human field names to a field of the
/// tenant-wide catalog.
#[derive(Debug)]
pub struct FieldNameResolver;

impl FieldNameResolver {
    /// Scans `candidates` in caller-supplied priority order and, for the
    /// first candidate with any match, returns the first field in catalog
    /// order whose display name equals it case-insensitively.  A pure
    /// function over the fetched catalog; no match at all gives `None`.
    pub fn resolve(candidates: &Vec<String>, fields: &Vec<FieldDescriptor>) -> (r: Option<
        FieldDescriptor,
    >)
        ensures
            r == resolve_field_spec(candidates@, fields@),
    {
        let mut i: usize = 0;
        assert(candidates@.skip(0) =~= candidates@);
        while i < candidates.len()
            invariant
                i <= candidates@.len(),
                resolve_field_spec(candidates@, fields@) == resolve_field_spec(
                    candidates@.skip(i as int),
                    fields@,
                ),
            decreases candidates@.len() - i,
        {
            assert(candidates@.skip(i as int)[0] == candidates@[i as int]);
            match scan_fields(fields, candidates[i].as_str(), 0) {
                Some(j) => {
                    assert(fields@.skip(0) =~= fields@);
                    return Some(fields[j].clone());
                },
                None => {
                    assert(fields@.skip(0) =~= fields@);
                    proof {
                        lemma_resolve_field_skip_step(candidates@, fields@, i as int);
                    }
                },
            }
            i += 1;
        }
        assert(candidates@.skip(candidates@.len() as int) =~= Seq::<String>::empty());
        None
    }
}

/// The resolver returns `None` exactly when no candidate matches any field.
pub proof fn lemma_resolve_field_none(candidates: Seq<String>, fields: Seq<FieldDescriptor>)
    ensures
        (resolve_field_spec(candidates, fields) is None) <==> (forall|i: int, j: int|
            0 <= i < candidates.len() && 0 <= j < fields.len() ==> !field_matches(
                fields[j],
                candidates[i]@,
            )),
    decreases candidates.len(),
{
    if candidates.len() > 0 {
        lemma_first_field_match_none(fields, candidates[0]@);
        lemma_resolve_field_none(candidates.drop_first(), fields);
        assert(forall|i: int|
            1 <= i < candidates.len() ==> candidates.drop_first()[i - 1] == candidates[i]);
    }
}

/// `first_field_match` is `None` exactly when no field matches.
pub proof fn lemma_first_field_match_none(fields: Seq<FieldDescriptor>, name: Seq<char>)
    ensures
        (first_field_match(fields, name) is None) <==> (forall|j: int|
            0 <= j < fields.len() ==> !field_matches(fields[j], name)),
    decreases fields.len(),
{
    if fields.len() > 0 {
        lemma_first_field_match_none(fields.drop_first(), name);
        assert(forall|j: int|
            1 <= j < fields.len() ==> fields.drop_first()[j - 1] == fields[j]);
    }
}

/// A successful `first_field_match` returns the matching field with the
/// least catalog index.
pub proof fn lemma_first_field_match_least(fields: Seq<FieldDescriptor>, name: Seq<char>)
    requires
        first_field_match(fields, name) is Some,
    ensures
        exists|j: int|
            {
                &&& 0 <= j < fields.len()
                &&& first_field_match(fields, name) == Some(fields[j])
                &&& field_matches(fields[j], name)
                &&& forall|k: int| 0 <= k < j ==> !field_matches(fields[k], name)
            },
    decreases fields.len(),
{
    if field_matches(fields[0], name) {
        assert({
            &&& first_field_match(fields, name) == Some(fields[0])
            &&& field_matches(fields[0], name)
            &&& forall|k: int| 0 <= k < 0 ==> !field_matches(fields[k], name)
        });
    } else {
        lemma_first_field_match_least(fields.drop_first(), name);
        let j0 = choose|j0: int|
            {
                &&& 0 <= j0 < fields.drop_first().len()
                &&& first_field_match(fields.drop_first(), name) == Some(fields.drop_first()[j0])
                &&& field_matches(fields.drop_first()[j0], name)
                &&& forall|k: int| 0 <= k < j0 ==> !field_matches(fields.drop_first()[k], name)
            };
        assert(forall|k: int|
            1 <= k < j0 + 1 ==> fields[k] == fields.drop_first()[k - 1]);
        assert({
            &&& first_field_match(fields, name) == Some(fields[j0 + 1])
            &&& field_matches(fields[j0 + 1], name)
            &&& forall|k: int| 0 <= k < j0 + 1 ==> !field_matches(fields[k], name)
        });
    }
}

/// First-candidate precedence: when the catalog holds a match for the first
/// candidate, the resolution is that match, whatever the later candidates
/// would have matched.
pub proof fn lemma_first_candidate_wins(candidates: Seq<String>, fields: Seq<FieldDescriptor>)
    requires
        candidates.len() > 0,
        first_field_match(fields, candidates[0]@) is Some,
    ensures
        resolve_field_spec(candidates, fields) == first_field_match(fields, candidates[0]@),
{
}

/// Candidate priority in general: the resolution is the match of the first
/// candidate that has any match.
pub proof fn lemma_candidate_priority(
    candidates: Seq<String>,
    fields: Seq<FieldDescriptor>,
    i: int,
)
    requires
        0 <= i < candidates.len(),
        first_field_match(fields, candidates[i]@) is Some,
        forall|k: int| 0 <= k < i ==> first_field_match(fields, candidates[k]@) is None,
    ensures
        resolve_field_spec(candidates, fields) == first_field_match(fields, candidates[i]@),
    decreases i,
{
    if i > 0 {
        assert(forall|k: int|
            1 <= k < candidates.len() ==> candidates.drop_first()[k - 1] == candidates[k]);
        lemma_candidate_priority(candidates.drop_first(), fields, i - 1);
    }
}

/// Case-insensitivity of a single lookup: names that are case permutations
/// of each other match the same catalog entry.
pub proof fn lemma_first_field_match_ci(
    fields: Seq<FieldDescriptor>,
    name_a: Seq<char>,
    name_b: Seq<char>,
)
    requires
        ci_equal(name_a, name_b),
    ensures
        first_field_match(fields, name_a) == first_field_match(fields, name_b),
    decreases fields.len(),
{
    if fields.len() > 0 {
        crate::text::lemma_ci_equal_transitive(name_a, name_b, fields[0].display_name@);
        crate::text::lemma_ci_equal_symmetric(name_a, fields[0].display_name@);
        crate::text::lemma_ci_equal_symmetric(name_b, fields[0].display_name@);
        lemma_first_field_match_ci(fields.drop_first(), name_a, name_b);
    }
}

/// Maps candidate field names to a field actually present on one issue's
/// edit screen.  The matching rule is the same as the tenant-wide
/// [`FieldNameResolver`]; only the catalog differs — a field can be defined
/// tenant-wide yet be absent from a particular issue's edit screen.
#[derive(Debug)]
pub struct EditableFieldSelector;

impl EditableFieldSelector {
    /// Matches `candidates` against the edit-screen fields of one issue,
    /// first candidate with any match first, catalog order within it.
    pub fn resolve(candidates: &Vec<String>, edit_fields: &Vec<FieldDescriptor>) -> (r: Option<
        FieldDescriptor,
    >)
        ensures
            r == resolve_field_spec(candidates@, edit_fields@),
    {
        FieldNameResolver::resolve(candidates, edit_fields)
    }
}

/// The outcomes of running the same candidates against the tenant-wide
/// catalog and against one issue's edit screen.  The two may disagree —
/// a field that exists globally but is not editable here — and that
/// divergence is the actionable diagnostic.
#[derive(Debug)]
pub struct ScopeComparison {
    /// What the tenant-wide catalog resolves to.
    pub global_match: Option<FieldDescriptor>,
    /// What the issue's edit screen resolves to.
    pub editable_match: Option<FieldDescriptor>,
}

impl ScopeComparison {
    /// Resolves `candidates` in both scopes so a caller can report both
    /// outcomes in one diagnostic.
    pub fn compare(
        candidates: &Vec<String>,
        global_fields: &Vec<FieldDescriptor>,
        edit_fields: &Vec<FieldDescriptor>,
    ) -> (r: ScopeComparison)
        ensures
            r.global_match == resolve_field_spec(candidates@, global_fields@),
            r.editable_match == resolve_field_spec(candidates@, edit_fields@),
    {
        ScopeComparison {
            global_match: FieldNameResolver::resolve(candidates, global_fields),
            editable_match: EditableFieldSelector::resolve(candidates, edit_fields),
        }
    }
}

/// Case-insensitivity of the whole resolution: two candidate lists that are
/// pointwise case permutations of each other resolve to the same field.
pub proof fn lemma_resolve_field_case_insensitive(
    candidates_a: Seq<String>,
    candidates_b: Seq<String>,
    fields: Seq<FieldDescriptor>,
)
    requires
        candidates_a.len() == candidates_b.len(),
        forall|i: int|
            0 <= i < candidates_a.len() ==> ci_equal(candidates_a[i]@, candidates_b[i]@),
    ensures
        resolve_field_spec(candidates_a, fields) == resolve_field_spec(candidates_b, fields),
    decreases candidates_a.len(),
{
    if candidates_a.len() > 0 {
        lemma_first_field_match_ci(fields, candidates_a[0]@, candidates_b[0]@);
        assert(forall|i: int|
            0 <= i < candidates_a.drop_first().len() ==> ci_equal(
                candidates_a.drop_first()[i]@,
                candidates_b.drop_first()[i]@,
            ));
        lemma_resolve_field_case_insensitive(
            candidates_a.drop_first(),
            candidates_b.drop_first(),
            fields,
        );
    }
}

// ===========================================================================
// Issue types
// ===========================================================================

/// Whether a requested label matches an issue type: either the (possibly
/// localised) display name or the canonical untranslated name equals it
/// case-insensitively.
pub open spec fn type_matches(t: IssueTypeDescriptor, label: Seq<char>) -> bool {
    ci_equal(t.name@, label) || ci_equal(t.untranslated_name@, label)
}

/// The first issue type in catalog order matching `label`.
pub open spec fn first_type_match(types: Seq<IssueTypeDescriptor>, label: Seq<char>) -> Option<
    IssueTypeDescriptor,
>
    decreases types.len(),
{
    if types.len() <= 0 {
        None
    } else if type_matches(types[0], label) {
        Some(types[0])
    } else {
        first_type_match(types.drop_first(), label)
    }
}

/// The first catalog entry whose project key equals `key` exactly.  Project
/// keys are looked up exactly, not name-folded.
pub open spec fn find_project(catalog: Seq<ProjectIssueTypes>, key: Seq<char>) -> Option<int>
    decreases catalog.len(),
{
    if catalog.len() <= 0 {
        None
    } else if catalog[0].project_key@ == key {
        Some(0)
    } else {
        match find_project(catalog.drop_first(), key) {
            Some(i) => Some(i + 1),
            None => None,
        }
    }
}

/// The issue-type resolution rule: find the project by exact key (failing
/// immediately with a project error when absent), then take the first type
/// whose name or untranslated name matches the label.
pub open spec fn resolve_issue_type_spec(
    catalog: Seq<ProjectIssueTypes>,
    key: Seq<char>,
    label: Seq<char>,
) -> Result<ResolvedIssueType, NotFoundKind> {
    match find_project(catalog, key) {
        None => Err(NotFoundKind::Project),
        Some(i) => match first_type_match(catalog[i].issue_types@, label) {
            None => Err(NotFoundKind::IssueType),
            Some(t) => Ok(ResolvedIssueType { id: t.id, is_subtask: t.is_subtask }),
        },
    }
}

/// An optional index shifted by `d`.
spec fn shift_opt(o: Option<int>, d: int) -> Option<int> {
    match o {
        Some(i) => Some(i + d),
        None => None,
    }
}

proof fn lemma_find_project_skip_step(catalog: Seq<ProjectIssueTypes>, key: Seq<char>, j: int)
    requires
        0 <= j < catalog.len(),
        catalog[j].project_key@ != key,
    ensures
        find_project(catalog.skip(j), key) == shift_opt(find_project(catalog.skip(j + 1), key), 1),
{
    assert(catalog.skip(j)[0] == catalog[j]);
    assert(catalog.skip(j).drop_first() =~= catalog.skip(j + 1));
}

/// `find_project` returns an in-range index of an exactly matching entry.
proof fn lemma_find_project_index(catalog: Seq<ProjectIssueTypes>, key: Seq<char>)
    ensures
        match find_project(catalog, key) {
            Some(i) => 0 <= i < catalog.len() && catalog[i].project_key@ == key,
            None => forall|j: int| 0 <= j < catalog.len() ==> catalog[j].project_key@ != key,
        },
    decreases catalog.len(),
{
    if catalog.len() > 0 {
        lemma_find_project_index(catalog.drop_first(), key);
        assert(forall|j: int|
            1 <= j < catalog.len() ==> catalog.drop_first()[j - 1] == catalog[j]);
    }
}

proof fn lemma_first_type_match_skip_step(types: Seq<IssueTypeDescriptor>, label: Seq<char>, j: int)
    requires
        0 <= j < types.len(),
        !type_matches(types[j], label),
    ensures
        first_type_match(types.skip(j), label) == first_type_match(types.skip(j + 1), label),
{
    assert(types.skip(j)[0] == types[j]);
    assert(types.skip(j).drop_first() =~= types.skip(j + 1));
}

proof fn lemma_first_type_match_skip_found(types: Seq<IssueTypeDescriptor>, label: Seq<char>, j: int)
    requires
        0 <= j < types.len(),
        type_matches(types[j], label),
    ensures
        first_type_match(types.skip(j), label) == Some(types[j]),
{
    assert(types.skip(j)[0] == types[j]);
}

/// Maps a semantic issue-type label to a per-project issue-type identifier
/// and its subtask flag.
#[derive(Debug)]
pub struct IssueTypeResolver;

impl IssueTypeResolver {
    /// Resolves `label` within the project `key` of a createmeta catalog.
    /// The two failure modes stay distinguishable: `Err(Project)` when the
    /// project key is absent (no types are scanned then), `Err(IssueType)`
    /// when the project exists but no type matches.
    pub fn resolve(catalog: &Vec<ProjectIssueTypes>, key: &str, label: &str) -> (r: Result<
        ResolvedIssueType,
        NotFoundKind,
    >)
        ensures
            r == resolve_issue_type_spec(catalog@, key@, label@),
    {
        proof {
            lemma_find_project_index(catalog@, key@);
        }
        let mut i: usize = 0;
        assert(catalog@.skip(0) =~= catalog@);
        while i < catalog.len()
            invariant
                i <= catalog@.len(),
                forall|j: int| 0 <= j < i ==> catalog@[j].project_key@ != key@,
                find_project(catalog@, key@) == shift_opt(
                    find_project(catalog@.skip(i as int), key@),
                    i as int,
                ),
            decreases catalog@.len() - i,
        {
            assert(catalog@.skip(i as int)[0] == catalog@[i as int]);
            if str_eq(catalog[i].project_key.as_str(), key) {
                assert(find_project(catalog@.skip(i as int), key@) == Some(0int));
                assert(find_project(catalog@, key@) == Some(i as int));
                let types = &catalog[i].issue_types;
                let mut j: usize = 0;
                assert(types@.skip(0) =~= types@);
                while j < types.len()
                    invariant
                        j <= types@.len(),
                        types == &catalog[i as int].issue_types,
                        i < catalog@.len(),
                        find_project(catalog@, key@) == Some(i as int),
                        first_type_match(types@, label@) == first_type_match(
                            types@.skip(j as int),
                            label@,
                        ),
                    decreases types@.len() - j,
                {
                    let by_name = eq_ignore_case(types[j].name.as_str(), label);
                    let by_canonical = eq_ignore_case(types[j].untranslated_name.as_str(), label);
                    if by_name || by_canonical {
                        proof {
                            lemma_first_type_match_skip_found(types@, label@, j as int);
                        }
                        return Ok(
                            ResolvedIssueType {
                                id: types[j].id.clone(),
                                is_subtask: types[j].is_subtask,
                            },
                        );
                    }
                    proof {
                        lemma_first_type_match_skip_step(types@, label@, j as int);
                    }
                    j += 1;
                }
                assert(types@.skip(types@.len() as int) =~= Seq::<IssueTypeDescriptor>::empty());
                return Err(NotFoundKind::IssueType);
            }
            proof {
                lemma_find_project_skip_step(catalog@, key@, i as int);
            }
            i += 1;
        }
        assert(catalog@.skip(catalog@.len() as int) =~= Seq::<ProjectIssueTypes>::empty());
        Err(NotFoundKind::Project)
    }
}

// ===========================================================================
// Transitions
// ===========================================================================

/// The first transition in catalog order satisfying `p`.
pub open spec fn first_transition_match(
    ts: Seq<TransitionDescriptor>,
    p: spec_fn(TransitionDescriptor) -> bool,
) -> Option<TransitionDescriptor>
    decreases ts.len(),
{
    if ts.len() <= 0 {
        None
    } else if p(ts[0]) {
        Some(ts[0])
    } else {
        first_transition_match(ts.drop_first(), p)
    }
}

/// Pass 1 predicate: the transition's own action name matches.
pub open spec fn name_pred(name: Seq<char>) -> spec_fn(TransitionDescriptor) -> bool {
    (|t: TransitionDescriptor| ci_equal(t.name@, name))
}

/// Pass 2 predicate: the declared destination status name matches.
pub open spec fn target_pred(name: Seq<char>) -> spec_fn(TransitionDescriptor) -> bool {
    (|t: TransitionDescriptor| ci_equal(t.target_status_name@, name))
}

/// Pass 3 predicate: the destination status category matches the bucket.
pub open spec fn category_pred(cat: StatusCategoryKey) -> spec_fn(TransitionDescriptor) -> bool {
    (|t: TransitionDescriptor| t.target_status_category == cat)
}

/// The three-pass fallback rule.  Transitions are verbs while the desired
/// outcome is a noun, so exact semantic matches are preferred over
/// category-level approximation: the action name first, then the destination
/// status name, then the destination category bucket.  The first successful
/// pass short-circuits the rest.
pub open spec fn resolve_transition_spec(ts: Seq<TransitionDescriptor>, target: Status) -> Option<
    ResolutionResult,
> {
    let name = spec_status_name(target);
    match first_transition_match(ts, name_pred(name)) {
        Some(t) => Some(
            ResolutionResult { identifier: t.id, matched_via: MatchedVia::ExactCandidate },
        ),
        None => match first_transition_match(ts, target_pred(name)) {
            Some(t) => Some(
                ResolutionResult { identifier: t.id, matched_via: MatchedVia::TargetName },
            ),
            None => match first_transition_match(ts, category_pred(spec_status_category(target))) {
                Some(t) => Some(
                    ResolutionResult {
                        identifier: t.id,
                        matched_via: MatchedVia::CategoryFallback,
                    },
                ),
                None => None,
            },
        },
    }
}

proof fn lemma_first_transition_skip_step(
    ts: Seq<TransitionDescriptor>,
    p: spec_fn(TransitionDescriptor) -> bool,
    j: int,
)
    requires
        0 <= j < ts.len(),
        !p(ts[j]),
    ensures
        first_transition_match(ts.skip(j), p) == first_transition_match(ts.skip(j + 1), p),
{
    assert(ts.skip(j)[0] == ts[j]);
    assert(ts.skip(j).drop_first() =~= ts.skip(j + 1));
}

proof fn lemma_first_transition_skip_found(
    ts: Seq<TransitionDescriptor>,
    p: spec_fn(TransitionDescriptor) -> bool,
    j: int,
)
    requires
        0 <= j < ts.len(),
        p(ts[j]),
    ensures
        first_transition_match(ts.skip(j), p) == Some(ts[j]),
{
    assert(ts.skip(j)[0] == ts[j]);
}

/// Scan for pass 1: the first transition whose action name matches.
fn scan_by_name(ts: &Vec<TransitionDescriptor>, name: &str) -> (r: Option<usize>)
    ensures
        match r {
            Some(j) => {
                &&& j < ts@.len()
                &&& first_transition_match(ts@, name_pred(name@)) == Some(ts@[j as int])
            },
            None => first_transition_match(ts@, name_pred(name@)) is None,
        },
{
    let ghost p = name_pred(name@);
    let mut j: usize = 0;
    assert(ts@.skip(0) =~= ts@);
    while j < ts.len()
        invariant
            j <= ts@.len(),
            p == name_pred(name@),
            first_transition_match(ts@, p) == first_transition_match(ts@.skip(j as int), p),
        decreases ts@.len() - j,
    {
        if eq_ignore_case(ts[j].name.as_str(), name) {
            proof {
                lemma_first_transition_skip_found(ts@, p, j as int);
            }
            return Some(j);
        }
        proof {
            lemma_first_transition_skip_step(ts@, p, j as int);
        }
        j += 1;
    }
    assert(ts@.skip(ts@.len() as int) =~= Seq::<TransitionDescriptor>::empty());
    None
}

/// Scan for pass 2: the first transition whose destination status name
/// matches.
fn scan_by_target(ts: &Vec<TransitionDescriptor>, name: &str) -> (r: Option<usize>)
    ensures
        match r {
            Some(j) => {
                &&& j < ts@.len()
                &&& first_transition_match(ts@, target_pred(name@)) == Some(ts@[j as int])
            },
            None => first_transition_match(ts@, target_pred(name@)) is None,
        },
{
    let ghost p = target_pred(name@);
    let mut j: usize = 0;
    assert(ts@.skip(0) =~= ts@);
    while j < ts.len()
        invariant
            j <= ts@.len(),
            p == target_pred(name@),
            first_transition_match(ts@, p) == first_transition_match(ts@.skip(j as int), p),
        decreases ts@.len() - j,
    {
        if eq_ignore_case(ts[j].target_status_name.as_str(), name) {
            proof {
                lemma_first_transition_skip_found(ts@, p, j as int);
            }
            return Some(j);
        }
        proof {
            lemma_first_transition_skip_step(ts@, p, j as int);
        }
        j += 1;
    }
    assert(ts@.skip(ts@.len() as int) =~= Seq::<TransitionDescriptor>::empty());
    None
}

/// Scan for pass 3: the first transition whose destination category matches.
fn scan_by_category(ts: &Vec<TransitionDescriptor>, cat: StatusCategoryKey) -> (r: Option<usize>)
    ensures
        match r {
            Some(j) => {
                &&& j < ts@.len()
                &&& first_transition_match(ts@, category_pred(cat)) == Some(ts@[j as int])
            },
            None => first_transition_match(ts@, category_pred(cat)) is None,
        },
{
    let ghost p = category_pred(cat);
    let mut j: usize = 0;
    assert(ts@.skip(0) =~= ts@);
    while j < ts.len()
        invariant
            j <= ts@.len(),
            p == category_pred(cat),
            first_transition_match(ts@, p) == first_transition_match(ts@.skip(j as int), p),
        decreases ts@.len() - j,
    {
        if ts[j].target_status_category == cat {
            proof {
                lemma_first_transition_skip_found(ts@, p, j as int);
            }
            return Some(j);
        }
        proof {
            lemma_first_transition_skip_step(ts@, p, j as int);
        }
        j += 1;
    }
    assert(ts@.skip(ts@.len() as int) =~= Seq::<TransitionDescriptor>::empty());
    None
}

/// Maps a target workflow status to an executable transition identifier for
/// a specific issue.
#[derive(Debug)]
pub struct TransitionResolver;

impl TransitionResolver {
    /// Runs the three passes strictly in order over the transitions
    /// currently available on the issue and returns the identifier of the
    /// first hit together with the pass that produced it; `None` when all
    /// three passes are exhausted.
    pub fn resolve(transitions: &Vec<TransitionDescriptor>, target: Status) -> (r: Option<
        ResolutionResult,
    >)
        ensures
            r == resolve_transition_spec(transitions@, target),
    {
        let name: &str = target.name();
        let r1 = scan_by_name(transitions, name);
        if let Some(j) = r1 {
            return Some(
                ResolutionResult {
                    identifier: transitions[j].id.clone(),
                    matched_via: MatchedVia::ExactCandidate,
                },
            );
        }
        let r2 = scan_by_target(transitions, name);
        if let Some(j) = r2 {
            return Some(
                ResolutionResult {
                    identifier: transitions[j].id.clone(),
                    matched_via: MatchedVia::TargetName,
                },
            );
        }
        let cat = target.category();
        let r3 = scan_by_category(transitions, cat);
        if let Some(j) = r3 {
            return Some(
                ResolutionResult {
                    identifier: transitions[j].id.clone(),
                    matched_via: MatchedVia::CategoryFallback,
                },
            );
        }
        None
    }

    /// The action names of all transitions currently available, for the
    /// diagnostic a caller renders when resolution fails: the available set
    /// is workflow- and issue-state-dependent, so listing it (even when it
    /// is empty) is what makes the failure actionable.
    pub fn available_names(transitions: &Vec<TransitionDescriptor>) -> (r: Vec<String>)
        ensures
            r@.len() == transitions@.len(),
            forall|i: int| 0 <= i < r@.len() ==> r@[i]@ == transitions@[i].name@,
    {
        let mut names: Vec<String> = Vec::new();
        let mut i: usize = 0;
        while i < transitions.len()
            invariant
                i <= transitions@.len(),
                names@.len() == i,
                forall|k: int| 0 <= k < i ==> names@[k]@ == transitions@[k].name@,
            decreases transitions@.len() - i,
        {
            names.push(transitions[i].name.clone());
            i += 1;
        }
        names
    }
}

/// Pass ordering is strict: whenever an earlier pass has a hit, the result
/// comes from that pass — the later passes cannot override it.
pub proof fn lemma_transition_pass_order(ts: Seq<TransitionDescriptor>, target: Status)
    ensures
        first_transition_match(ts, name_pred(spec_status_name(target))) matches Some(t) ==> (
        resolve_transition_spec(ts, target) == Some(
            ResolutionResult { identifier: t.id, matched_via: MatchedVia::ExactCandidate },
        )),
        first_transition_match(ts, target_pred(spec_status_name(target))) matches Some(t) ==> (
        first_transition_match(ts, name_pred(spec_status_name(target))) is None
            ==> resolve_transition_spec(ts, target) == Some(
            ResolutionResult { identifier: t.id, matched_via: MatchedVia::TargetName },
        )),
        ts.len() == 0 ==> resolve_transition_spec(ts, target) is None,
{
}

// ===========================================================================
// Assignees
// ===========================================================================

/// Whether a token is the sentinel asking for the current user.
pub open spec fn is_me_token(t: Seq<char>) -> bool {
    ci_equal(t, "me"@)
}

/// Whether a token is the sentinel asking for no assignee.
pub open spec fn is_unassigned_token(t: Seq<char>) -> bool {
    ci_equal(t, "unassigned"@)
}

/// The view of an optional string.
pub open spec fn opt_str_view(o: Option<String>) -> Option<Seq<char>> {
    match o {
        Some(s) => Some(s@),
        None => None,
    }
}

/// The assignee rule: `me` resolves to the current user's identifier (or
/// fails when that lookup failed), `unassigned` resolves to the explicit
/// empty-string sentinel — distinct from `None`, which signals failure —
/// and any other token passes through unchanged, unvalidated.
pub open spec fn resolve_assignee_spec(
    token: Seq<char>,
    current_user: Option<Seq<char>>,
) -> Option<Seq<char>> {
    if is_me_token(token) {
        current_user
    } else if is_unassigned_token(token) {
        Some(Seq::<char>::empty())
    } else {
        Some(token)
    }
}

/// What the metadata gateway must be asked before an assignee token can be
/// resolved.
#[derive(Clone, Copy, Debug, PartialEq, Eq, Structural)]
pub enum AssigneeDirective {
    /// The token asks for the current user; fetch the identity first.
    LookupCurrentUser,
    /// The token asks for no assignee; no fetch is needed.
    Unassign,
    /// The token is taken as an identifier as-is; no fetch is needed.
    Passthrough,
}

/// Maps sentinel tokens (`me`, `unassigned`) or raw identifiers to an
/// assignee identifier.
#[derive(Debug)]
pub struct AssigneeResolver;

impl AssigneeResolver {
    /// Classifies a token so the caller knows whether a current-user lookup
    /// is needed before calling [`AssigneeResolver::resolve`].
    pub fn classify(token: &str) -> (r: AssigneeDirective)
        ensures
            r == AssigneeDirective::LookupCurrentUser <==> is_me_token(token@),
            r == AssigneeDirective::Unassign <==> (!is_me_token(token@) && is_unassigned_token(
                token@,
            )),
            r == AssigneeDirective::Passthrough <==> (!is_me_token(token@)
                && !is_unassigned_token(token@)),
    {
        if eq_ignore_case(token, "me") {
            AssigneeDirective::LookupCurrentUser
        } else if eq_ignore_case(token, "unassigned") {
            AssigneeDirective::Unassign
        } else {
            AssigneeDirective::Passthrough
        }
    }

    /// Resolves a token given the current user's identifier, when one was
    /// fetched (`None` stands for a lookup that failed or was not made).
    /// Performs no existence validation of raw identifiers.
    pub fn resolve(token: &str, current_user: Option<String>) -> (r: Option<String>)
        ensures
            opt_str_view(r) == resolve_assignee_spec(token@, opt_str_view(current_user)),
    {
        if eq_ignore_case(token, "me") {
            current_user
        } else if eq_ignore_case(token, "unassigned") {
            Some(String::new())
        } else {
            Some(String::from_str(token))
        }
    }
}

} // verus!
