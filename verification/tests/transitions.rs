use jira_resolve::enums::Status;
use jira_resolve::model::MatchedVia;
use jira_resolve::model::StatusCategoryKey;
use jira_resolve::model::TransitionDescriptor;
use jira_resolve::resolvers::TransitionResolver;

fn transition(id: &str, name: &str, to: &str, cat: StatusCategoryKey) -> TransitionDescriptor {
    TransitionDescriptor {
        id: id.to_string(),
        name: name.to_string(),
        target_status_name: to.to_string(),
        target_status_category: cat,
    }
}

#[test]
fn target_name_match_when_action_name_differs() {
    let available = vec![transition(
        "21",
        "Start Progress",
        "In Progress",
        StatusCategoryKey::Indeterminate,
    )];
    let got = TransitionResolver::resolve(&available, Status::InProgress).unwrap();
    assert_eq!(got.identifier, "21");
    assert_eq!(got.matched_via, MatchedVia::TargetName);
}

#[test]
fn action_name_match_takes_priority() {
    let available = vec![
        transition("11", "Other", "In Progress", StatusCategoryKey::Indeterminate),
        transition("21", "In Progress", "Working", StatusCategoryKey::Indeterminate),
    ];
    let got = TransitionResolver::resolve(&available, Status::InProgress).unwrap();
    assert_eq!(got.identifier, "21");
    assert_eq!(got.matched_via, MatchedVia::ExactCandidate);
}

#[test]
fn category_fallback_when_no_name_matches() {
    let available = vec![transition("31", "Begin", "Working", StatusCategoryKey::Indeterminate)];
    let got = TransitionResolver::resolve(&available, Status::InProgress).unwrap();
    assert_eq!(got.identifier, "31");
    assert_eq!(got.matched_via, MatchedVia::CategoryFallback);
}

#[test]
fn category_fallback_collapses_review_and_blocked() {
    let available = vec![transition("31", "Begin", "Working", StatusCategoryKey::Indeterminate)];
    let review = TransitionResolver::resolve(&available, Status::InReview).unwrap();
    assert_eq!(review.identifier, "31");
    assert_eq!(review.matched_via, MatchedVia::CategoryFallback);
    let blocked = TransitionResolver::resolve(&available, Status::Blocked).unwrap();
    assert_eq!(blocked.identifier, "31");
    assert_eq!(blocked.matched_via, MatchedVia::CategoryFallback);
}

#[test]
fn done_and_cancelled_share_the_done_bucket() {
    let available = vec![transition("41", "Finish", "Complete", StatusCategoryKey::Done)];
    let done = TransitionResolver::resolve(&available, Status::Done).unwrap();
    assert_eq!(done.identifier, "41");
    let cancelled = TransitionResolver::resolve(&available, Status::Cancelled).unwrap();
    assert_eq!(cancelled.identifier, "41");
}

#[test]
fn no_transitions_resolves_to_none_with_empty_diagnostic() {
    let available: Vec<TransitionDescriptor> = Vec::new();
    let got = TransitionResolver::resolve(&available, Status::Done);
    assert!(got.is_none());
    let names = TransitionResolver::available_names(&available);
    assert_eq!(names.len(), 0);
}

#[test]
fn exhausted_passes_resolve_to_none_with_diagnostic() {
    let available = vec![transition("51", "Reopen", "To Do", StatusCategoryKey::New)];
    let got = TransitionResolver::resolve(&available, Status::Done);
    assert!(got.is_none());
    let names = TransitionResolver::available_names(&available);
    assert_eq!(names, vec!["Reopen".to_string()]);
}

#[test]
fn transition_matching_is_case_insensitive() {
    let available = vec![transition("61", "iN pRoGrEsS", "x", StatusCategoryKey::New)];
    let got = TransitionResolver::resolve(&available, Status::InProgress).unwrap();
    assert_eq!(got.identifier, "61");
    assert_eq!(got.matched_via, MatchedVia::ExactCandidate);
}

#[test]
fn status_parsing_is_case_insensitive_and_exact() {
    assert_eq!(Status::parse("in progress"), Some(Status::InProgress));
    assert_eq!(Status::parse("TO DO"), Some(Status::ToDo));
    assert_eq!(Status::parse("Cancelled"), Some(Status::Cancelled));
    assert_eq!(Status::parse("In Prog"), None);
    assert_eq!(StatusCategoryKey::parse("indeterminate"), Some(StatusCategoryKey::Indeterminate));
    assert_eq!(StatusCategoryKey::parse("Indeterminate"), None);
    assert_eq!(StatusCategoryKey::parse("new"), Some(StatusCategoryKey::New));
    assert_eq!(StatusCategoryKey::Done.name(), "done");
}

#[test]
fn status_names_and_categories() {
    assert_eq!(Status::ToDo.name(), "To Do");
    assert_eq!(Status::InProgress.name(), "In Progress");
    assert_eq!(Status::ToDo.category(), StatusCategoryKey::New);
    assert_eq!(Status::InReview.category(), StatusCategoryKey::Indeterminate);
    assert_eq!(Status::Cancelled.category(), StatusCategoryKey::Done);
}
