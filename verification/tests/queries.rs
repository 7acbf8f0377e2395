use jira_resolve::discovery::discover_fields;
use jira_resolve::model::FieldDescriptor;
use jira_resolve::plan::board_issues_query;
use jira_resolve::plan::boards_filter_query;
use jira_resolve::plan::createmeta_query;
use jira_resolve::plan::delete_issue_query;
use jira_resolve::plan::field_discover_plan;
use jira_resolve::plan::issue_get_query;
use jira_resolve::plan::project_manage_plan;
use jira_resolve::plan::project_query_plan;
use jira_resolve::plan::relations_plan;
use jira_resolve::plan::social_plan;
use jira_resolve::plan::sprint_state_query;
use jira_resolve::plan::update_issue_query;
use jira_resolve::plan::user_search_query;
use jira_resolve::plan::Endpoint;
use jira_resolve::plan::Method;
use jira_resolve::plan::PlanError;
use jira_resolve::plan::QueryValue;

fn text(v: &QueryValue) -> &str {
    match v {
        QueryValue::Text(t) => t,
        other => panic!("expected text, got {:?}", other),
    }
}

#[test]
fn update_query_holds_only_set_flags() {
    let q = update_issue_query(Some(false), None);
    assert_eq!(q.len(), 1);
    assert_eq!(q[0].name, "notifyUsers");
    assert!(matches!(q[0].value, QueryValue::Flag(false)));
    let q = update_issue_query(Some(true), Some(true));
    assert_eq!(q.len(), 2);
    assert_eq!(q[1].name, "overrideEditableFlag");
}

#[test]
fn delete_query_carries_the_subtask_flag() {
    let q = delete_issue_query(Some("true".to_string()));
    assert_eq!(q.len(), 1);
    assert_eq!(q[0].name, "deleteSubtasks");
    assert_eq!(text(&q[0].value), "true");
    assert!(delete_issue_query(None).is_empty());
}

#[test]
fn issue_get_query_joins_lists_with_commas() {
    let q = issue_get_query(
        Some(vec!["summary".to_string(), "status".to_string(), "assignee".to_string()]),
        Some("renderedFields".to_string()),
        Some(vec!["prop".to_string()]),
    );
    assert_eq!(q.len(), 3);
    assert_eq!(q[0].name, "fields");
    assert_eq!(text(&q[0].value), "summary,status,assignee");
    assert_eq!(q[1].name, "expand");
    assert_eq!(text(&q[1].value), "renderedFields");
    assert_eq!(q[2].name, "properties");
    assert_eq!(text(&q[2].value), "prop");
}

#[test]
fn createmeta_query_always_names_the_project() {
    let q = createmeta_query("PROJ".to_string(), None, Some("Story".to_string()));
    assert_eq!(q.len(), 2);
    assert_eq!(q[0].name, "projectKeys");
    assert_eq!(text(&q[0].value), "PROJ");
    assert_eq!(q[1].name, "issuetypeNames");
    assert_eq!(text(&q[1].value), "Story");
}

#[test]
fn user_search_query_leads_with_the_text() {
    let q = user_search_query("john".to_string(), None, Some(50), None, Some(false));
    assert_eq!(q.len(), 3);
    assert_eq!(q[0].name, "query");
    assert_eq!(q[1].name, "maxResults");
    assert!(matches!(q[1].value, QueryValue::Int(50)));
    assert_eq!(q[2].name, "includeInactive");
}

#[test]
fn board_filters_appear_in_order() {
    let q = boards_filter_query(
        Some("scrum".to_string()),
        None,
        Some("PROJ".to_string()),
    );
    assert_eq!(q.len(), 2);
    assert_eq!(q[0].name, "type");
    assert_eq!(q[1].name, "projectKeyOrId");
    let q = sprint_state_query(Some("active,future".to_string()));
    assert_eq!(q.len(), 1);
    assert_eq!(text(&q[0].value), "active,future");
    let q = board_issues_query(
        Some("priority = High".to_string()),
        Some(vec!["summary".to_string(), "status".to_string()]),
    );
    assert_eq!(q.len(), 2);
    assert_eq!(text(&q[1].value), "summary,status");
}

#[test]
fn watch_requires_an_account() {
    let got = social_plan("watch", "PROJ-1".to_string(), &None);
    assert_eq!(got.unwrap_err(), PlanError::MissingAccountId);
    let got = social_plan("watch", "PROJ-1".to_string(), &Some("5b10a".to_string())).unwrap();
    assert_eq!(got.method, Method::Post);
    assert!(matches!(got.endpoint, Endpoint::IssueWatchers { key } if key == "PROJ-1"));
    let got = social_plan("vote", "PROJ-1".to_string(), &None).unwrap();
    assert!(matches!(got.endpoint, Endpoint::IssueVotes { key } if key == "PROJ-1"));
    let got = social_plan("poke", "PROJ-1".to_string(), &None);
    assert_eq!(got.unwrap_err(), PlanError::UnknownAction);
}

#[test]
fn relations_dispatch_by_type_and_operation() {
    let got = relations_plan("attachment", "get", "PROJ-1".to_string(), None, false).unwrap();
    assert!(matches!(got.endpoint, Endpoint::IssueAttachments { key } if key == "PROJ-1"));
    let got = relations_plan("attachment", "delete", "PROJ-1".to_string(), None, false);
    assert_eq!(got.unwrap_err(), PlanError::MissingRelationId);
    let got = relations_plan(
        "link",
        "delete",
        "PROJ-1".to_string(),
        Some("10001".to_string()),
        false,
    )
    .unwrap();
    assert!(matches!(got.endpoint, Endpoint::IssueLink { link_id } if link_id == "10001"));
    let got = relations_plan("link", "create", "PROJ-1".to_string(), None, false);
    assert_eq!(got.unwrap_err(), PlanError::MissingData);
    let got = relations_plan("bond", "get", "PROJ-1".to_string(), None, false);
    assert_eq!(got.unwrap_err(), PlanError::UnknownResource);
}

#[test]
fn field_discovery_dispatches_by_scope() {
    let got = field_discover_plan("global", &None).unwrap();
    assert!(matches!(got.endpoint, Endpoint::Fields));
    let got = field_discover_plan("project", &Some("PROJ".to_string())).unwrap();
    assert!(matches!(got.endpoint, Endpoint::CreateMeta));
    let got = field_discover_plan("project", &None);
    assert_eq!(got.unwrap_err(), PlanError::MissingScopeId);
    let got = field_discover_plan("galaxy", &None);
    assert_eq!(got.unwrap_err(), PlanError::UnknownScope);
}

#[test]
fn project_resources_need_their_key() {
    let got = project_query_plan("versions", Some("PROJ".to_string())).unwrap();
    assert!(matches!(got.endpoint, Endpoint::ProjectVersions { key } if key == "PROJ"));
    let got = project_query_plan("roles", None);
    assert_eq!(got.unwrap_err(), PlanError::MissingProjectKey);
    let got = project_query_plan("project", None).unwrap();
    assert!(matches!(got.endpoint, Endpoint::ProjectSearch));
    let got = project_manage_plan("version", "create", true).unwrap();
    assert!(matches!(got.endpoint, Endpoint::Versions));
    let got = project_manage_plan("component", "create", false);
    assert_eq!(got.unwrap_err(), PlanError::MissingData);
    let got = project_manage_plan("version", "update", true);
    assert_eq!(got.unwrap_err(), PlanError::UnknownOperation);
}

#[test]
fn unwatch_defaults_to_the_empty_account() {
    let q = jira_resolve::plan::unwatch_query(None);
    assert_eq!(q.len(), 1);
    assert_eq!(q[0].name, "accountId");
    assert_eq!(text(&q[0].value), "");
    let q = jira_resolve::plan::unwatch_query(Some("5b10a".to_string()));
    assert_eq!(text(&q[0].value), "5b10a");
}

#[test]
fn jql_parsing_validates_strictly() {
    let q = jira_resolve::plan::jql_parse_query();
    assert_eq!(q.len(), 1);
    assert_eq!(q[0].name, "validation");
    assert_eq!(text(&q[0].value), "strict");
}

#[test]
fn metrics_default_to_velocity_and_unestimated() {
    let defaults = jira_resolve::analysis::effective_metrics(None);
    assert_eq!(defaults, vec!["velocity".to_string(), "unestimated".to_string()]);
    let kept = jira_resolve::analysis::effective_metrics(Some(vec!["blocked".to_string()]));
    assert_eq!(kept, vec!["blocked".to_string()]);
}

fn field(id: &str, name: &str, custom: bool) -> FieldDescriptor {
    FieldDescriptor { id: id.to_string(), display_name: name.to_string(), is_custom: custom }
}

#[test]
fn discovery_filters_by_kind_and_term() {
    let catalog = vec![
        field("summary", "Summary", false),
        field("customfield_10016", "Story Points", true),
        field("customfield_10020", "Story point estimate", true),
    ];
    let custom_only = discover_fields(&catalog, &Some("custom".to_string()), &None);
    assert_eq!(custom_only.len(), 2);
    assert_eq!(custom_only[0].id, "customfield_10016");

    let system_only = discover_fields(&catalog, &Some("system".to_string()), &None);
    assert_eq!(system_only.len(), 1);
    assert_eq!(system_only[0].id, "summary");

    let by_term = discover_fields(&catalog, &None, &Some("STORY".to_string()));
    assert_eq!(by_term.len(), 2);

    let by_id = discover_fields(&catalog, &None, &Some("10020".to_string()));
    assert_eq!(by_id.len(), 1);
    assert_eq!(by_id[0].id, "customfield_10020");

    let both = discover_fields(
        &catalog,
        &Some("custom".to_string()),
        &Some("estimate".to_string()),
    );
    assert_eq!(both.len(), 1);
    assert_eq!(both[0].id, "customfield_10020");

    let nothing = discover_fields(&catalog, &None, &Some("sprint".to_string()));
    assert!(nothing.is_empty());
}
