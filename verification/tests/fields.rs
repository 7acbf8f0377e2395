use jira_resolve::model::FieldDescriptor;
use jira_resolve::resolvers::EditableFieldSelector;
use jira_resolve::resolvers::FieldNameResolver;
use jira_resolve::resolvers::ScopeComparison;

fn field(id: &str, name: &str) -> FieldDescriptor {
    FieldDescriptor { id: id.to_string(), display_name: name.to_string(), is_custom: true }
}

fn candidates(names: &[&str]) -> Vec<String> {
    names.iter().map(|n| n.to_string()).collect()
}

#[test]
fn case_permutations_resolve_to_same_identifier() {
    let catalog = vec![
        field("customfield_10001", "Sprint"),
        field("customfield_10020", "Story point estimate"),
    ];
    let permutations = [
        "Story point estimate",
        "story point estimate",
        "STORY POINT ESTIMATE",
        "StOrY pOiNt EsTiMaTe",
        "sTORY POINT ESTIMATe",
    ];
    for p in permutations {
        let got = FieldNameResolver::resolve(&candidates(&[p]), &catalog);
        assert_eq!(got.expect(p).id, "customfield_10020");
    }
}

#[test]
fn second_candidate_matches_when_first_absent() {
    let catalog = vec![field("customfield_10020", "Story point estimate")];
    let got = FieldNameResolver::resolve(
        &candidates(&["Story Points", "Story point estimate"]),
        &catalog,
    );
    assert_eq!(got.unwrap().id, "customfield_10020");
}

#[test]
fn first_candidate_wins_over_later_ones() {
    let catalog = vec![field("id_b", "B"), field("id_a", "A")];
    let got = FieldNameResolver::resolve(&candidates(&["A", "B"]), &catalog);
    assert_eq!(got.unwrap().id, "id_a");
}

#[test]
fn catalog_order_breaks_duplicate_names() {
    let catalog = vec![field("first", "Points"), field("second", "Points")];
    let got = FieldNameResolver::resolve(&candidates(&["points"]), &catalog);
    assert_eq!(got.unwrap().id, "first");
}

#[test]
fn no_match_is_none() {
    let catalog = vec![field("customfield_1", "Epic Link")];
    let got = FieldNameResolver::resolve(&candidates(&["Story Points"]), &catalog);
    assert!(got.is_none());
    let empty = FieldNameResolver::resolve(&candidates(&["Story Points"]), &Vec::new());
    assert!(empty.is_none());
}

#[test]
fn no_substring_matching() {
    let catalog = vec![field("customfield_2", "Story Points Committed")];
    let got = FieldNameResolver::resolve(&candidates(&["Story Points"]), &catalog);
    assert!(got.is_none());
}

#[test]
fn edit_screen_may_disagree_with_global_catalog() {
    let global = vec![field("customfield_10016", "Story Points")];
    let edit_screen = vec![field("summary", "Summary")];
    let wanted = candidates(&["Story Points"]);

    let globally = FieldNameResolver::resolve(&wanted, &global);
    let editable = EditableFieldSelector::resolve(&wanted, &edit_screen);
    assert_eq!(globally.as_ref().unwrap().id, "customfield_10016");
    assert!(editable.is_none());

    let report = ScopeComparison::compare(&wanted, &global, &edit_screen);
    assert_eq!(report.global_match.unwrap().id, "customfield_10016");
    assert!(report.editable_match.is_none());
}
