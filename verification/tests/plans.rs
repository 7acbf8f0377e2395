use jira_resolve::analysis::is_blocked_status;
use jira_resolve::analysis::is_completed_status;
use jira_resolve::analysis::needs_story_points_field;
use jira_resolve::analysis::blocked_keys;
use jira_resolve::analysis::sprint_fields_param;
use jira_resolve::analysis::story_points_field_id;
use jira_resolve::analysis::unestimated_keys;
use jira_resolve::analysis::SprintIssueFacts;
use jira_resolve::model::FieldDescriptor;
use jira_resolve::plan::agile_query_plan;
use jira_resolve::plan::catalog_plan;
use jira_resolve::plan::content_plan;
use jira_resolve::plan::issue_mutate_plan;
use jira_resolve::plan::issue_query_plan;
use jira_resolve::plan::move_issues_plan;
use jira_resolve::plan::pagination_query;
use jira_resolve::plan::sprint_manage_plan;
use jira_resolve::plan::AgileQueryResource;
use jira_resolve::plan::Endpoint;
use jira_resolve::plan::IssueOperation;
use jira_resolve::plan::IssueQueryKind;
use jira_resolve::plan::Method;
use jira_resolve::plan::PlanError;
use jira_resolve::plan::QueryValue;

#[test]
fn mutation_without_key_is_rejected() {
    let got = issue_mutate_plan(IssueOperation::Update, None, false);
    assert_eq!(got.unwrap_err(), PlanError::MissingIssueKey);
    let got = issue_mutate_plan(IssueOperation::Transition, None, false);
    assert_eq!(got.unwrap_err(), PlanError::MissingIssueKey);
}

#[test]
fn transition_mutation_posts_to_the_transitions_resource() {
    let got = issue_mutate_plan(
        IssueOperation::Transition,
        Some("PROJ-123".to_string()),
        false,
    )
    .unwrap();
    assert_eq!(got.method, Method::Post);
    assert!(matches!(got.endpoint, Endpoint::IssueTransitions { key } if key == "PROJ-123"));
}

#[test]
fn bulk_create_goes_to_the_bulk_resource() {
    let got = issue_mutate_plan(IssueOperation::Create, None, true).unwrap();
    assert!(matches!(got.endpoint, Endpoint::IssueBulk));
    let got = issue_mutate_plan(IssueOperation::Create, None, false).unwrap();
    assert!(matches!(got.endpoint, Endpoint::Issues));
}

#[test]
fn issue_query_prefers_the_key() {
    let got = issue_query_plan(Some("PROJ-1".to_string()), Some("order by rank".to_string()));
    assert!(matches!(got, Ok(IssueQueryKind::Single { key }) if key == "PROJ-1"));
    let got = issue_query_plan(None, Some("project = PROJ".to_string()));
    assert!(matches!(got, Ok(IssueQueryKind::Search { jql }) if jql == "project = PROJ"));
    let got = issue_query_plan(None, None);
    assert_eq!(got.unwrap_err(), PlanError::MissingIssueKey);
}

#[test]
fn comment_update_needs_id_then_payload() {
    let no_id = content_plan("comment", "update", "PROJ-1".to_string(), None, true);
    assert_eq!(no_id.unwrap_err(), PlanError::MissingContentId);
    let no_data = content_plan(
        "comment",
        "update",
        "PROJ-1".to_string(),
        Some("10001".to_string()),
        false,
    );
    assert_eq!(no_data.unwrap_err(), PlanError::MissingData);
    let ok = content_plan(
        "comment",
        "update",
        "PROJ-1".to_string(),
        Some("10001".to_string()),
        true,
    )
    .unwrap();
    assert_eq!(ok.method, Method::Put);
    assert!(matches!(
        ok.endpoint,
        Endpoint::IssueComment { key, comment_id } if key == "PROJ-1" && comment_id == "10001"
    ));
}

#[test]
fn worklog_words_dispatch_like_comments() {
    let ok = content_plan("worklog", "get", "PROJ-2".to_string(), None, false).unwrap();
    assert_eq!(ok.method, Method::Get);
    assert!(matches!(ok.endpoint, Endpoint::IssueWorklogs { key } if key == "PROJ-2"));
    let bad = content_plan("note", "get", "PROJ-2".to_string(), None, false);
    assert_eq!(bad.unwrap_err(), PlanError::UnknownContentType);
    let bad = content_plan("comment", "archive", "PROJ-2".to_string(), None, false);
    assert_eq!(bad.unwrap_err(), PlanError::UnknownOperation);
}

#[test]
fn sprint_queries_fall_back_from_sprint_to_board() {
    let got = agile_query_plan(AgileQueryResource::Sprint, Some(1), Some(42)).unwrap();
    assert!(matches!(got.endpoint, Endpoint::Sprint { id: 42 }));
    let got = agile_query_plan(AgileQueryResource::Sprint, Some(1), None).unwrap();
    assert!(matches!(got.endpoint, Endpoint::BoardSprints { id: 1 }));
    let got = agile_query_plan(AgileQueryResource::Sprint, None, None);
    assert_eq!(got.unwrap_err(), PlanError::MissingBoardId);
    let got = agile_query_plan(AgileQueryResource::Backlog, None, None);
    assert_eq!(got.unwrap_err(), PlanError::MissingBoardId);
}

#[test]
fn sprint_management_checks_requirements_in_order() {
    let got = sprint_manage_plan("create", None, None, true);
    assert_eq!(got.unwrap_err(), PlanError::MissingBoardId);
    let got = sprint_manage_plan("create", None, Some(1), false);
    assert_eq!(got.unwrap_err(), PlanError::MissingData);
    let got = sprint_manage_plan("start", None, None, true);
    assert_eq!(got.unwrap_err(), PlanError::MissingSprintId);
    let got = sprint_manage_plan("close", Some(42), None, true).unwrap();
    assert_eq!(got.method, Method::Put);
    assert!(matches!(got.endpoint, Endpoint::Sprint { id: 42 }));
    let got = sprint_manage_plan("rename", Some(42), None, true);
    assert_eq!(got.unwrap_err(), PlanError::UnknownOperation);
}

#[test]
fn moves_need_a_destination_sprint() {
    let got = move_issues_plan("sprint", None);
    assert_eq!(got.unwrap_err(), PlanError::MissingDestinationId);
    let got = move_issues_plan("sprint", Some(42)).unwrap();
    assert!(matches!(got.endpoint, Endpoint::SprintIssues { id: 42 }));
    let got = move_issues_plan("backlog", None).unwrap();
    assert!(matches!(got.endpoint, Endpoint::BacklogIssues));
    let got = move_issues_plan("nowhere", None);
    assert_eq!(got.unwrap_err(), PlanError::UnknownDestination);
}

#[test]
fn issue_type_catalog_scopes_to_the_project() {
    let got = catalog_plan("issueTypes", Some("PROJ".to_string())).unwrap();
    assert!(matches!(got.endpoint, Endpoint::Project { key } if key == "PROJ"));
    let got = catalog_plan("issueTypes", None).unwrap();
    assert!(matches!(got.endpoint, Endpoint::IssueTypes));
    let got = catalog_plan("colours", None);
    assert_eq!(got.unwrap_err(), PlanError::UnknownCatalogType);
}

#[test]
fn pagination_parameters_appear_in_order() {
    let q = pagination_query(Some(10), Some(50));
    assert_eq!(q.len(), 2);
    assert_eq!(q[0].name, "startAt");
    assert!(matches!(q[0].value, QueryValue::Int(10)));
    assert_eq!(q[1].name, "maxResults");
    assert!(matches!(q[1].value, QueryValue::Int(50)));
    assert_eq!(pagination_query(None, None).len(), 0);
}

#[test]
fn completed_statuses_are_done_and_closed_exactly() {
    assert!(is_completed_status("Done"));
    assert!(is_completed_status("Closed"));
    assert!(!is_completed_status("done"));
    assert!(!is_completed_status("In Progress"));
}

#[test]
fn blocked_statuses_contain_the_word_anywhere() {
    assert!(is_blocked_status("Blocked"));
    assert!(is_blocked_status("blocked"));
    assert!(is_blocked_status("Waiting (BLOCKED on vendor)"));
    assert!(!is_blocked_status("In Progress"));
    assert!(!is_blocked_status("block"));
}

#[test]
fn sprint_issue_partitions() {
    let issues = vec![
        SprintIssueFacts {
            key: "PROJ-1".to_string(),
            status_name: "Done".to_string(),
            has_points: true,
        },
        SprintIssueFacts {
            key: "PROJ-2".to_string(),
            status_name: "Blocked".to_string(),
            has_points: false,
        },
        SprintIssueFacts {
            key: "PROJ-3".to_string(),
            status_name: "In Progress".to_string(),
            has_points: false,
        },
    ];
    assert_eq!(unestimated_keys(&issues), vec!["PROJ-2".to_string(), "PROJ-3".to_string()]);
    assert_eq!(blocked_keys(&issues), vec!["PROJ-2".to_string()]);
}

#[test]
fn story_points_metrics_require_field_resolution() {
    assert!(needs_story_points_field(&vec!["velocity".to_string()]));
    assert!(needs_story_points_field(&vec!["blocked".to_string(), "completion".to_string()]));
    assert!(!needs_story_points_field(&vec!["blocked".to_string()]));
}

#[test]
fn story_points_field_resolves_or_defaults() {
    let catalog = vec![FieldDescriptor {
        id: "customfield_10020".to_string(),
        display_name: "Story point estimate".to_string(),
        is_custom: true,
    }];
    assert_eq!(story_points_field_id(&catalog), "customfield_10020");
    assert_eq!(story_points_field_id(&Vec::new()), "customfield_10016");
    assert_eq!(
        sprint_fields_param("customfield_10020".to_string()),
        "summary,status,customfield_10020"
    );
}
