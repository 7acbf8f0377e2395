//! Sprint-analysis classification: which issues count as completed, which
//! are unestimated, which are blocked, and which metrics require the story
//! points field to be resolved first.
//!
//! The numeric accumulation of story points stays with the caller; this
//! module decides, per issue, how the metrics treat it.

use vstd::prelude::*;
use vstd::string::StringExecFns;
use crate::model::FieldDescriptor;
use crate::resolvers::first_field_match;
use crate::resolvers::FieldNameResolver;
use crate::resolvers::resolve_field_spec;
use crate::text::contains_ci;
use crate::text::contains_sub;
use crate::text::lower_seq;
use crate::text::str_eq;

verus! {

/// A status counts an issue as completed exactly when it is named `Done` or
/// `Closed`.
pub open spec fn spec_is_completed_status(name: Seq<char>) -> bool {
    name == "Done"@ || name == "Closed"@
}

/// A status marks an issue as blocked when its lower-cased name holds the
/// word `blocked` anywhere.
pub open spec fn spec_is_blocked_status(name: Seq<char>) -> bool {
    contains_sub(lower_seq(name), "blocked"@)
}

/// Whether a status name counts its issue as completed.
pub fn is_completed_status(name: &str) -> (r: bool)
    ensures
        r == spec_is_completed_status(name@),
{
    str_eq(name, "Done") || str_eq(name, "Closed")
}

/// Whether a status name marks its issue as blocked.
pub fn is_blocked_status(name: &str) -> (r: bool)
    ensures
        r == spec_is_blocked_status(name@),
{
    let r = contains_ci(name, "blocked");
    proof {
        reveal_strlit("blocked");
        assert(lower_seq("blocked"@) =~= "blocked"@);
    }
    r
}

/// What one sprint issue contributes to the analysis: its key, its status
/// name, and whether a story-points estimate is present.
pub struct SprintIssueFacts {
    pub key: String,
    pub status_name: String,
    pub has_points: bool,
}

impl Clone for SprintIssueFacts {
    fn clone(&self) -> (r: Self)
        ensures
            r == *self,
    {
        SprintIssueFacts {
            key: self.key.clone(),
            status_name: self.status_name.clone(),
            has_points: self.has_points,
        }
    }
}

/// An issue is unestimated when no story-points value is present.
pub open spec fn unestimated_pred() -> spec_fn(SprintIssueFacts) -> bool {
    (|f: SprintIssueFacts| !f.has_points)
}

/// An issue is blocked when its status name says so.
pub open spec fn blocked_pred() -> spec_fn(SprintIssueFacts) -> bool {
    (|f: SprintIssueFacts| spec_is_blocked_status(f.status_name@))
}

/// The key of an issue, for reporting.
pub open spec fn key_of() -> spec_fn(SprintIssueFacts) -> String {
    (|f: SprintIssueFacts| f.key)
}

/// The keys of the issues without a story-points estimate, in sprint order.
pub fn unestimated_keys(issues: &Vec<SprintIssueFacts>) -> (r: Vec<String>)
    ensures
        r@ == issues@.filter(unestimated_pred()).map_values(key_of()),
{
    let mut out: Vec<String> = Vec::new();
    let mut i: usize = 0;
    assert(issues@.take(0).filter(unestimated_pred()) =~= Seq::<SprintIssueFacts>::empty());
    assert(out@ =~= issues@.take(0).filter(unestimated_pred()).map_values(key_of()));
    while i < issues.len()
        invariant
            i <= issues@.len(),
            out@ == issues@.take(i as int).filter(unestimated_pred()).map_values(key_of()),
        decreases issues@.len() - i,
    {
        proof {
            reveal(Seq::filter);
            assert(issues@.take(i as int + 1).drop_last() =~= issues@.take(i as int));
            assert(issues@.take(i as int + 1).last() == issues@[i as int]);
        }
        if !issues[i].has_points {
            out.push(issues[i].key.clone());
            assert(out@ =~= issues@.take(i as int + 1).filter(unestimated_pred()).map_values(
                key_of(),
            ));
        } else {
            assert(out@ =~= issues@.take(i as int + 1).filter(unestimated_pred()).map_values(
                key_of(),
            ));
        }
        i += 1;
    }
    assert(issues@.take(issues@.len() as int) =~= issues@);
    out
}

/// The keys of the issues whose status marks them blocked, in sprint order.
pub fn blocked_keys(issues: &Vec<SprintIssueFacts>) -> (r: Vec<String>)
    ensures
        r@ == issues@.filter(blocked_pred()).map_values(key_of()),
{
    let mut out: Vec<String> = Vec::new();
    let mut i: usize = 0;
    assert(issues@.take(0).filter(blocked_pred()) =~= Seq::<SprintIssueFacts>::empty());
    assert(out@ =~= issues@.take(0).filter(blocked_pred()).map_values(key_of()));
    while i < issues.len()
        invariant
            i <= issues@.len(),
            out@ == issues@.take(i as int).filter(blocked_pred()).map_values(key_of()),
        decreases issues@.len() - i,
    {
        proof {
            reveal(Seq::filter);
            assert(issues@.take(i as int + 1).drop_last() =~= issues@.take(i as int));
            assert(issues@.take(i as int + 1).last() == issues@[i as int]);
        }
        if is_blocked_status(issues[i].status_name.as_str()) {
            out.push(issues[i].key.clone());
            assert(out@ =~= issues@.take(i as int + 1).filter(blocked_pred()).map_values(key_of()));
        } else {
            assert(out@ =~= issues@.take(i as int + 1).filter(blocked_pred()).map_values(key_of()));
        }
        i += 1;
    }
    assert(issues@.take(issues@.len() as int) =~= issues@);
    out
}

/// Whether a metric list names the metric.
pub open spec fn has_metric(metrics: Seq<String>, m: Seq<char>) -> bool {
    exists|i: int| 0 <= i < metrics.len() && metrics[i]@ == m
}

/// Whether the metric list names one metric exactly.
fn metrics_contain(metrics: &Vec<String>, m: &str) -> (r: bool)
    ensures
        r == has_metric(metrics@, m@),
{
    let mut i: usize = 0;
    while i < metrics.len()
        invariant
            i <= metrics@.len(),
            forall|j: int| 0 <= j < i ==> metrics@[j]@ != m@,
        decreases metrics@.len() - i,
    {
        if str_eq(metrics[i].as_str(), m) {
            assert(has_metric(metrics@, m@));
            return true;
        }
        i += 1;
    }
    false
}

/// The metrics an analysis runs when none were asked for: velocity and the
/// unestimated list.
pub fn effective_metrics(metrics: Option<Vec<String>>) -> (r: Vec<String>)
    ensures
        metrics matches Some(m) ==> r == m,
        metrics is None ==> (r@.len() == 2 && r@[0]@ == "velocity"@ && r@[1]@ == "unestimated"@),
{
    match metrics {
        Some(m) => m,
        None => {
            let mut defaults: Vec<String> = Vec::new();
            defaults.push(String::from_str("velocity"));
            defaults.push(String::from_str("unestimated"));
            defaults
        },
    }
}

/// Whether the requested metrics need the story-points field resolved
/// first: velocity, completion and the unestimated list all read it.
pub fn needs_story_points_field(metrics: &Vec<String>) -> (r: bool)
    ensures
        r == (has_metric(metrics@, "velocity"@) || has_metric(metrics@, "completion"@)
            || has_metric(metrics@, "unestimated"@)),
{
    metrics_contain(metrics, "velocity") || metrics_contain(metrics, "completion")
        || metrics_contain(metrics, "unestimated")
}

/// The story-points field identifier a sprint analysis uses when resolution
/// finds nothing.
pub open spec fn spec_default_story_points_field() -> Seq<char> {
    "customfield_10016"@
}

/// The story-points rule: the candidates `Story Points` then `Story point
/// estimate` run through the field resolver, and the conventional default
/// identifier stands in when neither matches.
pub open spec fn spec_story_points_field_id(fields: Seq<FieldDescriptor>) -> Seq<char> {
    match first_field_match(fields, "Story Points"@) {
        Some(f) => f.id@,
        None => match first_field_match(fields, "Story point estimate"@) {
            Some(f) => f.id@,
            None => spec_default_story_points_field(),
        },
    }
}

/// Resolves the tenant's story-points field from the field catalog, with
/// the conventional default as fallback.
pub fn story_points_field_id(fields: &Vec<FieldDescriptor>) -> (r: String)
    ensures
        r@ == spec_story_points_field_id(fields@),
{
    let mut candidates: Vec<String> = Vec::new();
    candidates.push(String::from_str("Story Points"));
    candidates.push(String::from_str("Story point estimate"));
    let ghost cands = candidates@;
    let resolved = FieldNameResolver::resolve(&candidates, fields);
    proof {
        let c1 = cands.drop_first();
        assert(cands.len() == 2);
        assert(cands[0]@ == "Story Points"@);
        assert(c1[0] == cands[1]);
        assert(c1[0]@ == "Story point estimate"@);
        assert(c1.drop_first().len() == 0);
        if first_field_match(fields@, "Story Points"@) is Some {
            assert(resolve_field_spec(cands, fields@) == first_field_match(
                fields@,
                "Story Points"@,
            ));
        } else if first_field_match(fields@, "Story point estimate"@) is Some {
            assert(resolve_field_spec(c1, fields@) == first_field_match(
                fields@,
                "Story point estimate"@,
            ));
        } else {
            assert(resolve_field_spec(c1.drop_first(), fields@) is None);
            assert(resolve_field_spec(c1, fields@) is None);
            assert(resolve_field_spec(cands, fields@) is None);
        }
    }
    match resolved {
        Some(f) => {
            assert(f.id@ == spec_story_points_field_id(fields@));
            f.id
        },
        None => {
            proof {
                reveal_strlit("customfield_10016");
            }
            String::from_str("customfield_10016")
        },
    }
}

/// The field list a sprint analysis requests: summary, status and the
/// resolved story-points field.
pub fn sprint_fields_param(story_points_field: String) -> (r: String)
    ensures
        r@ == "summary,status,"@ + story_points_field@,
{
    let prefix = String::from_str("summary,status,");
    prefix.concat(story_points_field.as_str())
}

} // verus!
