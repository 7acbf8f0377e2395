//! Request planning for the operations around the resolvers.
//!
//! Each operation's decision content — which endpoint, which method, which
//! query parameters, and which inputs are required — is computed here over
//! plain values.  Rendering the structured plan into an HTTP request, and
//! parsing the response, is the transport's job and stays outside.

use vstd::prelude::*;
use vstd::string::StringExecFns;
use crate::text::join_comma;
use crate::text::join_comma_spec;
use crate::text::str_eq;

verus! {

/// HTTP methods the planned requests use.
#[derive(Clone, Copy, Debug, PartialEq, Eq, Structural)]
pub enum Method {
    Get,
    Post,
    Put,
    Delete,
}

/// A REST resource, as structured data; the transport renders the path.
#[derive(Debug)]
pub enum Endpoint {
    /// The issue collection.
    Issues,
    /// One issue.
    Issue { key: String },
    /// The bulk-create resource.
    IssueBulk,
    /// One issue's assignee.
    IssueAssignee { key: String },
    /// One issue's transitions.
    IssueTransitions { key: String },
    /// One issue's comment collection.
    IssueComments { key: String },
    /// One comment of one issue.
    IssueComment { key: String, comment_id: String },
    /// One issue's worklog collection.
    IssueWorklogs { key: String },
    /// One worklog of one issue.
    IssueWorklog { key: String, worklog_id: String },
    /// One issue's watcher collection.
    IssueWatchers { key: String },
    /// One issue's votes.
    IssueVotes { key: String },
    /// One issue's attachment collection.
    IssueAttachments { key: String },
    /// One attachment.
    Attachment { attachment_id: String },
    /// The issue-link collection.
    IssueLinks,
    /// One issue link.
    IssueLink { link_id: String },
    /// The createmeta resource.
    CreateMeta,
    /// The search resource.
    Search,
    /// The JQL parse resource.
    JqlParse,
    /// The label catalog.
    Labels,
    /// The priority catalog.
    Priorities,
    /// The resolution catalog.
    Resolutions,
    /// The tenant-wide issue-type catalog.
    IssueTypes,
    /// The status catalog.
    Statuses,
    /// The field catalog.
    Fields,
    /// One project.
    Project { key: String },
    /// The project search resource.
    ProjectSearch,
    /// One project's versions.
    ProjectVersions { key: String },
    /// One project's components.
    ProjectComponents { key: String },
    /// One project's roles.
    ProjectRoles { key: String },
    /// The version collection.
    Versions,
    /// The component collection.
    Components,
    /// One board.
    Board { id: i64 },
    /// The board collection.
    Boards,
    /// One board's sprints.
    BoardSprints { id: i64 },
    /// One board's issues.
    BoardIssues { id: i64 },
    /// One board's backlog.
    BoardBacklog { id: i64 },
    /// One sprint.
    Sprint { id: i64 },
    /// The sprint collection.
    Sprints,
    /// One sprint's issues.
    SprintIssues { id: i64 },
    /// The backlog issue collection.
    BacklogIssues,
}

/// A planned request: the method and the resource.  Query parameters are
/// assembled by the query builders below, and JSON bodies stay with the
/// transport.
#[derive(Debug)]
pub struct RequestPlan {
    pub method: Method,
    pub endpoint: Endpoint,
}

/// A query-parameter value, kept structured so nothing here renders text.
#[derive(Debug)]
pub enum QueryValue {
    Text(String),
    Int(i64),
    Flag(bool),
}

/// One query parameter of a planned request.
#[derive(Debug)]
pub struct QueryParam {
    pub name: String,
    pub value: QueryValue,
}

/// Why a plan could not be made from the given inputs.
#[derive(Clone, Copy, Debug, PartialEq, Eq, Structural)]
pub enum PlanError {
    /// The operation needs an issue key and none was given.
    MissingIssueKey,
    /// The operation needs a board identifier and none was given.
    MissingBoardId,
    /// The operation needs a sprint identifier and none was given.
    MissingSprintId,
    /// The operation needs a payload and none was given.
    MissingData,
    /// The operation needs a content identifier and none was given.
    MissingContentId,
    /// The operation needs a relation identifier and none was given.
    MissingRelationId,
    /// The operation needs an account identifier and none was given.
    MissingAccountId,
    /// The operation needs a destination identifier and none was given.
    MissingDestinationId,
    /// The operation needs a project key and none was given.
    MissingProjectKey,
    /// The operation needs a scope identifier and none was given.
    MissingScopeId,
    /// The operation word is not one of the accepted ones.
    UnknownOperation,
    /// The resource word is not one of the accepted ones.
    UnknownResource,
    /// The content-type word is not one of the accepted ones.
    UnknownContentType,
    /// The action word is not one of the accepted ones.
    UnknownAction,
    /// The destination word is not one of the accepted ones.
    UnknownDestination,
    /// The catalog-type word is not one of the accepted ones.
    UnknownCatalogType,
    /// The scope word is not one of the accepted ones.
    UnknownScope,
}

/// Issue mutations.
#[derive(Clone, Copy, Debug, PartialEq, Eq, Structural)]
pub enum IssueOperation {
    Create,
    Update,
    Delete,
    Assign,
    Transition,
}

/// The issue-mutation rule: creation goes to the issue collection (bulk
/// creation to the bulk resource); every other operation needs the issue
/// key.
pub open spec fn issue_mutate_plan_spec(
    op: IssueOperation,
    issue_key: Option<String>,
    bulk: bool,
) -> Result<RequestPlan, PlanError> {
    match op {
        IssueOperation::Create => if bulk {
            Ok(RequestPlan { method: Method::Post, endpoint: Endpoint::IssueBulk })
        } else {
            Ok(RequestPlan { method: Method::Post, endpoint: Endpoint::Issues })
        },
        IssueOperation::Update => match issue_key {
            Some(key) => Ok(RequestPlan { method: Method::Put, endpoint: Endpoint::Issue { key } }),
            None => Err(PlanError::MissingIssueKey),
        },
        IssueOperation::Delete => match issue_key {
            Some(key) => Ok(
                RequestPlan { method: Method::Delete, endpoint: Endpoint::Issue { key } },
            ),
            None => Err(PlanError::MissingIssueKey),
        },
        IssueOperation::Assign => match issue_key {
            Some(key) => Ok(
                RequestPlan { method: Method::Put, endpoint: Endpoint::IssueAssignee { key } },
            ),
            None => Err(PlanError::MissingIssueKey),
        },
        IssueOperation::Transition => match issue_key {
            Some(key) => Ok(
                RequestPlan { method: Method::Post, endpoint: Endpoint::IssueTransitions { key } },
            ),
            None => Err(PlanError::MissingIssueKey),
        },
    }
}

/// Plans an issue mutation.
pub fn issue_mutate_plan(op: IssueOperation, issue_key: Option<String>, bulk: bool) -> (r: Result<
    RequestPlan,
    PlanError,
>)
    ensures
        r == issue_mutate_plan_spec(op, issue_key, bulk),
{
    match op {
        IssueOperation::Create => if bulk {
            Ok(RequestPlan { method: Method::Post, endpoint: Endpoint::IssueBulk })
        } else {
            Ok(RequestPlan { method: Method::Post, endpoint: Endpoint::Issues })
        },
        IssueOperation::Update => match issue_key {
            Some(key) => Ok(RequestPlan { method: Method::Put, endpoint: Endpoint::Issue { key } }),
            None => Err(PlanError::MissingIssueKey),
        },
        IssueOperation::Delete => match issue_key {
            Some(key) => Ok(
                RequestPlan { method: Method::Delete, endpoint: Endpoint::Issue { key } },
            ),
            None => Err(PlanError::MissingIssueKey),
        },
        IssueOperation::Assign => match issue_key {
            Some(key) => Ok(
                RequestPlan { method: Method::Put, endpoint: Endpoint::IssueAssignee { key } },
            ),
            None => Err(PlanError::MissingIssueKey),
        },
        IssueOperation::Transition => match issue_key {
            Some(key) => Ok(
                RequestPlan { method: Method::Post, endpoint: Endpoint::IssueTransitions { key } },
            ),
            None => Err(PlanError::MissingIssueKey),
        },
    }
}

/// How an issue query is answered: one issue by key, or a search.
#[derive(Debug)]
pub enum IssueQueryKind {
    Single { key: String },
    Search { jql: String },
}

/// The issue-query rule: the key wins when both key and JQL are given, and
/// neither at all is an error.
pub open spec fn issue_query_plan_spec(issue_key: Option<String>, jql: Option<String>) -> Result<
    IssueQueryKind,
    PlanError,
> {
    match issue_key {
        Some(key) => Ok(IssueQueryKind::Single { key }),
        None => match jql {
            Some(jql) => Ok(IssueQueryKind::Search { jql }),
            None => Err(PlanError::MissingIssueKey),
        },
    }
}

/// Decides between a single-issue fetch and a JQL search.
pub fn issue_query_plan(issue_key: Option<String>, jql: Option<String>) -> (r: Result<
    IssueQueryKind,
    PlanError,
>)
    ensures
        r == issue_query_plan_spec(issue_key, jql),
{
    match issue_key {
        Some(key) => Ok(IssueQueryKind::Single { key }),
        None => match jql {
            Some(jql) => Ok(IssueQueryKind::Search { jql }),
            None => Err(PlanError::MissingIssueKey),
        },
    }
}

/// The content-management rule, shared by comments and worklogs: adding
/// needs a payload, updating needs the content identifier and a payload,
/// deleting needs the content identifier, getting needs nothing extra.
pub open spec fn content_plan_spec(
    content_type: Seq<char>,
    operation: Seq<char>,
    issue_key: String,
    content_id: Option<String>,
    has_data: bool,
) -> Result<RequestPlan, PlanError> {
    if content_type == "comment"@ {
        if operation == "add"@ {
            if has_data {
                Ok(
                    RequestPlan {
                        method: Method::Post,
                        endpoint: Endpoint::IssueComments { key: issue_key },
                    },
                )
            } else {
                Err(PlanError::MissingData)
            }
        } else if operation == "update"@ {
            match content_id {
                Some(comment_id) => if has_data {
                    Ok(
                        RequestPlan {
                            method: Method::Put,
                            endpoint: Endpoint::IssueComment { key: issue_key, comment_id },
                        },
                    )
                } else {
                    Err(PlanError::MissingData)
                },
                None => Err(PlanError::MissingContentId),
            }
        } else if operation == "delete"@ {
            match content_id {
                Some(comment_id) => Ok(
                    RequestPlan {
                        method: Method::Delete,
                        endpoint: Endpoint::IssueComment { key: issue_key, comment_id },
                    },
                ),
                None => Err(PlanError::MissingContentId),
            }
        } else if operation == "get"@ {
            Ok(
                RequestPlan {
                    method: Method::Get,
                    endpoint: Endpoint::IssueComments { key: issue_key },
                },
            )
        } else {
            Err(PlanError::UnknownOperation)
        }
    } else if content_type == "worklog"@ {
        if operation == "add"@ {
            if has_data {
                Ok(
                    RequestPlan {
                        method: Method::Post,
                        endpoint: Endpoint::IssueWorklogs { key: issue_key },
                    },
                )
            } else {
                Err(PlanError::MissingData)
            }
        } else if operation == "update"@ {
            match content_id {
                Some(worklog_id) => if has_data {
                    Ok(
                        RequestPlan {
                            method: Method::Put,
                            endpoint: Endpoint::IssueWorklog { key: issue_key, worklog_id },
                        },
                    )
                } else {
                    Err(PlanError::MissingData)
                },
                None => Err(PlanError::MissingContentId),
            }
        } else if operation == "delete"@ {
            match content_id {
                Some(worklog_id) => Ok(
                    RequestPlan {
                        method: Method::Delete,
                        endpoint: Endpoint::IssueWorklog { key: issue_key, worklog_id },
                    },
                ),
                None => Err(PlanError::MissingContentId),
            }
        } else if operation == "get"@ {
            Ok(
                RequestPlan {
                    method: Method::Get,
                    endpoint: Endpoint::IssueWorklogs { key: issue_key },
                },
            )
        } else {
            Err(PlanError::UnknownOperation)
        }
    } else {
        Err(PlanError::UnknownContentType)
    }
}

/// Plans a comment or worklog operation on an issue.
pub fn content_plan(
    content_type: &str,
    operation: &str,
    issue_key: String,
    content_id: Option<String>,
    has_data: bool,
) -> (r: Result<RequestPlan, PlanError>)
    ensures
        r == content_plan_spec(content_type@, operation@, issue_key, content_id, has_data),
{
    if str_eq(content_type, "comment") {
        if str_eq(operation, "add") {
            if has_data {
                Ok(
                    RequestPlan {
                        method: Method::Post,
                        endpoint: Endpoint::IssueComments { key: issue_key },
                    },
                )
            } else {
                Err(PlanError::MissingData)
            }
        } else if str_eq(operation, "update") {
            match content_id {
                Some(comment_id) => if has_data {
                    Ok(
                        RequestPlan {
                            method: Method::Put,
                            endpoint: Endpoint::IssueComment { key: issue_key, comment_id },
                        },
                    )
                } else {
                    Err(PlanError::MissingData)
                },
                None => Err(PlanError::MissingContentId),
            }
        } else if str_eq(operation, "delete") {
            match content_id {
                Some(comment_id) => Ok(
                    RequestPlan {
                        method: Method::Delete,
                        endpoint: Endpoint::IssueComment { key: issue_key, comment_id },
                    },
                ),
                None => Err(PlanError::MissingContentId),
            }
        } else if str_eq(operation, "get") {
            Ok(
                RequestPlan {
                    method: Method::Get,
                    endpoint: Endpoint::IssueComments { key: issue_key },
                },
            )
        } else {
            Err(PlanError::UnknownOperation)
        }
    } else if str_eq(content_type, "worklog") {
        if str_eq(operation, "add") {
            if has_data {
                Ok(
                    RequestPlan {
                        method: Method::Post,
                        endpoint: Endpoint::IssueWorklogs { key: issue_key },
                    },
                )
            } else {
                Err(PlanError::MissingData)
            }
        } else if str_eq(operation, "update") {
            match content_id {
                Some(worklog_id) => if has_data {
                    Ok(
                        RequestPlan {
                            method: Method::Put,
                            endpoint: Endpoint::IssueWorklog { key: issue_key, worklog_id },
                        },
                    )
                } else {
                    Err(PlanError::MissingData)
                },
                None => Err(PlanError::MissingContentId),
            }
        } else if str_eq(operation, "delete") {
            match content_id {
                Some(worklog_id) => Ok(
                    RequestPlan {
                        method: Method::Delete,
                        endpoint: Endpoint::IssueWorklog { key: issue_key, worklog_id },
                    },
                ),
                None => Err(PlanError::MissingContentId),
            }
        } else if str_eq(operation, "get") {
            Ok(
                RequestPlan {
                    method: Method::Get,
                    endpoint: Endpoint::IssueWorklogs { key: issue_key },
                },
            )
        } else {
            Err(PlanError::UnknownOperation)
        }
    } else {
        Err(PlanError::UnknownContentType)
    }
}

/// The social-interaction rule: watching needs the account identifier,
/// unwatching takes an optional one, voting needs nothing extra.
pub open spec fn social_plan_spec(
    action: Seq<char>,
    issue_key: String,
    account_id: Option<String>,
) -> Result<RequestPlan, PlanError> {
    if action == "watch"@ {
        match account_id {
            Some(_) => Ok(
                RequestPlan {
                    method: Method::Post,
                    endpoint: Endpoint::IssueWatchers { key: issue_key },
                },
            ),
            None => Err(PlanError::MissingAccountId),
        }
    } else if action == "unwatch"@ {
        Ok(
            RequestPlan {
                method: Method::Delete,
                endpoint: Endpoint::IssueWatchers { key: issue_key },
            },
        )
    } else if action == "vote"@ {
        Ok(RequestPlan { method: Method::Post, endpoint: Endpoint::IssueVotes { key: issue_key } })
    } else {
        Err(PlanError::UnknownAction)
    }
}

/// Plans a watch, unwatch or vote on an issue.
pub fn social_plan(action: &str, issue_key: String, account_id: &Option<String>) -> (r: Result<
    RequestPlan,
    PlanError,
>)
    ensures
        r == social_plan_spec(action@, issue_key, *account_id),
{
    if str_eq(action, "watch") {
        match account_id {
            Some(_) => Ok(
                RequestPlan {
                    method: Method::Post,
                    endpoint: Endpoint::IssueWatchers { key: issue_key },
                },
            ),
            None => Err(PlanError::MissingAccountId),
        }
    } else if str_eq(action, "unwatch") {
        Ok(
            RequestPlan {
                method: Method::Delete,
                endpoint: Endpoint::IssueWatchers { key: issue_key },
            },
        )
    } else if str_eq(action, "vote") {
        Ok(RequestPlan { method: Method::Post, endpoint: Endpoint::IssueVotes { key: issue_key } })
    } else {
        Err(PlanError::UnknownAction)
    }
}

/// The relations rule: attachments can be listed or deleted (deletion needs
/// the relation identifier), links can be created (with a payload) or
/// deleted (with the identifier).
pub open spec fn relations_plan_spec(
    relation_type: Seq<char>,
    operation: Seq<char>,
    issue_key: String,
    relation_id: Option<String>,
    has_data: bool,
) -> Result<RequestPlan, PlanError> {
    if relation_type == "attachment"@ {
        if operation == "get"@ {
            Ok(
                RequestPlan {
                    method: Method::Get,
                    endpoint: Endpoint::IssueAttachments { key: issue_key },
                },
            )
        } else if operation == "delete"@ {
            match relation_id {
                Some(attachment_id) => Ok(
                    RequestPlan {
                        method: Method::Delete,
                        endpoint: Endpoint::Attachment { attachment_id },
                    },
                ),
                None => Err(PlanError::MissingRelationId),
            }
        } else {
            Err(PlanError::UnknownOperation)
        }
    } else if relation_type == "link"@ {
        if operation == "create"@ {
            if has_data {
                Ok(RequestPlan { method: Method::Post, endpoint: Endpoint::IssueLinks })
            } else {
                Err(PlanError::MissingData)
            }
        } else if operation == "delete"@ {
            match relation_id {
                Some(link_id) => Ok(
                    RequestPlan { method: Method::Delete, endpoint: Endpoint::IssueLink { link_id } },
                ),
                None => Err(PlanError::MissingRelationId),
            }
        } else {
            Err(PlanError::UnknownOperation)
        }
    } else {
        Err(PlanError::UnknownResource)
    }
}

/// Plans an attachment or link operation on an issue.
pub fn relations_plan(
    relation_type: &str,
    operation: &str,
    issue_key: String,
    relation_id: Option<String>,
    has_data: bool,
) -> (r: Result<RequestPlan, PlanError>)
    ensures
        r == relations_plan_spec(relation_type@, operation@, issue_key, relation_id, has_data),
{
    if str_eq(relation_type, "attachment") {
        if str_eq(operation, "get") {
            Ok(
                RequestPlan {
                    method: Method::Get,
                    endpoint: Endpoint::IssueAttachments { key: issue_key },
                },
            )
        } else if str_eq(operation, "delete") {
            match relation_id {
                Some(attachment_id) => Ok(
                    RequestPlan {
                        method: Method::Delete,
                        endpoint: Endpoint::Attachment { attachment_id },
                    },
                ),
                None => Err(PlanError::MissingRelationId),
            }
        } else {
            Err(PlanError::UnknownOperation)
        }
    } else if str_eq(relation_type, "link") {
        if str_eq(operation, "create") {
            if has_data {
                Ok(RequestPlan { method: Method::Post, endpoint: Endpoint::IssueLinks })
            } else {
                Err(PlanError::MissingData)
            }
        } else if str_eq(operation, "delete") {
            match relation_id {
                Some(link_id) => Ok(
                    RequestPlan { method: Method::Delete, endpoint: Endpoint::IssueLink { link_id } },
                ),
                None => Err(PlanError::MissingRelationId),
            }
        } else {
            Err(PlanError::UnknownOperation)
        }
    } else {
        Err(PlanError::UnknownResource)
    }
}

/// Agile resources a query can ask for.
#[derive(Clone, Copy, Debug, PartialEq, Eq, Structural)]
pub enum AgileQueryResource {
    Board,
    Sprint,
    Backlog,
    Issues,
}

/// The agile-query rule: a board identifier selects one board (else the
/// collection is listed); a sprint identifier selects one sprint, else the
/// board's sprints; board issues and the backlog always need the board.
pub open spec fn agile_query_plan_spec(
    resource: AgileQueryResource,
    board_id: Option<i64>,
    sprint_id: Option<i64>,
) -> Result<RequestPlan, PlanError> {
    match resource {
        AgileQueryResource::Board => match board_id {
            Some(id) => Ok(RequestPlan { method: Method::Get, endpoint: Endpoint::Board { id } }),
            None => Ok(RequestPlan { method: Method::Get, endpoint: Endpoint::Boards }),
        },
        AgileQueryResource::Sprint => match sprint_id {
            Some(id) => Ok(RequestPlan { method: Method::Get, endpoint: Endpoint::Sprint { id } }),
            None => match board_id {
                Some(id) => Ok(
                    RequestPlan { method: Method::Get, endpoint: Endpoint::BoardSprints { id } },
                ),
                None => Err(PlanError::MissingBoardId),
            },
        },
        AgileQueryResource::Issues => match board_id {
            Some(id) => Ok(
                RequestPlan { method: Method::Get, endpoint: Endpoint::BoardIssues { id } },
            ),
            None => Err(PlanError::MissingBoardId),
        },
        AgileQueryResource::Backlog => match board_id {
            Some(id) => Ok(
                RequestPlan { method: Method::Get, endpoint: Endpoint::BoardBacklog { id } },
            ),
            None => Err(PlanError::MissingBoardId),
        },
    }
}

/// Plans an agile query over boards, sprints, board issues or the backlog.
pub fn agile_query_plan(
    resource: AgileQueryResource,
    board_id: Option<i64>,
    sprint_id: Option<i64>,
) -> (r: Result<RequestPlan, PlanError>)
    ensures
        r == agile_query_plan_spec(resource, board_id, sprint_id),
{
    match resource {
        AgileQueryResource::Board => match board_id {
            Some(id) => Ok(RequestPlan { method: Method::Get, endpoint: Endpoint::Board { id } }),
            None => Ok(RequestPlan { method: Method::Get, endpoint: Endpoint::Boards }),
        },
        AgileQueryResource::Sprint => match sprint_id {
            Some(id) => Ok(RequestPlan { method: Method::Get, endpoint: Endpoint::Sprint { id } }),
            None => match board_id {
                Some(id) => Ok(
                    RequestPlan { method: Method::Get, endpoint: Endpoint::BoardSprints { id } },
                ),
                None => Err(PlanError::MissingBoardId),
            },
        },
        AgileQueryResource::Issues => match board_id {
            Some(id) => Ok(
                RequestPlan { method: Method::Get, endpoint: Endpoint::BoardIssues { id } },
            ),
            None => Err(PlanError::MissingBoardId),
        },
        AgileQueryResource::Backlog => match board_id {
            Some(id) => Ok(
                RequestPlan { method: Method::Get, endpoint: Endpoint::BoardBacklog { id } },
            ),
            None => Err(PlanError::MissingBoardId),
        },
    }
}

/// The sprint-management rule: creation needs the board and a payload;
/// update, start and close need the sprint and a payload; deletion needs
/// only the sprint.
pub open spec fn sprint_manage_plan_spec(
    operation: Seq<char>,
    sprint_id: Option<i64>,
    board_id: Option<i64>,
    has_data: bool,
) -> Result<RequestPlan, PlanError> {
    if operation == "create"@ {
        match board_id {
            Some(_) => if has_data {
                Ok(RequestPlan { method: Method::Post, endpoint: Endpoint::Sprints })
            } else {
                Err(PlanError::MissingData)
            },
            None => Err(PlanError::MissingBoardId),
        }
    } else if operation == "update"@ || operation == "start"@ || operation == "close"@ {
        match sprint_id {
            Some(id) => if has_data {
                Ok(RequestPlan { method: Method::Put, endpoint: Endpoint::Sprint { id } })
            } else {
                Err(PlanError::MissingData)
            },
            None => Err(PlanError::MissingSprintId),
        }
    } else if operation == "delete"@ {
        match sprint_id {
            Some(id) => Ok(RequestPlan { method: Method::Delete, endpoint: Endpoint::Sprint { id } }),
            None => Err(PlanError::MissingSprintId),
        }
    } else {
        Err(PlanError::UnknownOperation)
    }
}

/// Plans a sprint creation, update, start, close or deletion.
pub fn sprint_manage_plan(
    operation: &str,
    sprint_id: Option<i64>,
    board_id: Option<i64>,
    has_data: bool,
) -> (r: Result<RequestPlan, PlanError>)
    ensures
        r == sprint_manage_plan_spec(operation@, sprint_id, board_id, has_data),
{
    if str_eq(operation, "create") {
        match board_id {
            Some(_) => if has_data {
                Ok(RequestPlan { method: Method::Post, endpoint: Endpoint::Sprints })
            } else {
                Err(PlanError::MissingData)
            },
            None => Err(PlanError::MissingBoardId),
        }
    } else if str_eq(operation, "update") || str_eq(operation, "start") || str_eq(
        operation,
        "close",
    ) {
        match sprint_id {
            Some(id) => if has_data {
                Ok(RequestPlan { method: Method::Put, endpoint: Endpoint::Sprint { id } })
            } else {
                Err(PlanError::MissingData)
            },
            None => Err(PlanError::MissingSprintId),
        }
    } else if str_eq(operation, "delete") {
        match sprint_id {
            Some(id) => Ok(RequestPlan { method: Method::Delete, endpoint: Endpoint::Sprint { id } }),
            None => Err(PlanError::MissingSprintId),
        }
    } else {
        Err(PlanError::UnknownOperation)
    }
}

/// The move rule: moving to a sprint needs the destination sprint; moving
/// to the backlog needs nothing extra.
pub open spec fn move_issues_plan_spec(
    destination: Seq<char>,
    destination_id: Option<i64>,
) -> Result<RequestPlan, PlanError> {
    if destination == "sprint"@ {
        match destination_id {
            Some(id) => Ok(
                RequestPlan { method: Method::Post, endpoint: Endpoint::SprintIssues { id } },
            ),
            None => Err(PlanError::MissingDestinationId),
        }
    } else if destination == "backlog"@ {
        Ok(RequestPlan { method: Method::Post, endpoint: Endpoint::BacklogIssues })
    } else {
        Err(PlanError::UnknownDestination)
    }
}

/// Plans moving issues to a sprint or to the backlog.
pub fn move_issues_plan(destination: &str, destination_id: Option<i64>) -> (r: Result<
    RequestPlan,
    PlanError,
>)
    ensures
        r == move_issues_plan_spec(destination@, destination_id),
{
    if str_eq(destination, "sprint") {
        match destination_id {
            Some(id) => Ok(
                RequestPlan { method: Method::Post, endpoint: Endpoint::SprintIssues { id } },
            ),
            None => Err(PlanError::MissingDestinationId),
        }
    } else if str_eq(destination, "backlog") {
        Ok(RequestPlan { method: Method::Post, endpoint: Endpoint::BacklogIssues })
    } else {
        Err(PlanError::UnknownDestination)
    }
}

/// The catalog rule: each catalog type has its endpoint; the issue-type
/// catalog is scoped to a project when a key is given, and issue types of a
/// project are read off the project resource.
pub open spec fn catalog_plan_spec(
    catalog_type: Seq<char>,
    project_key: Option<String>,
) -> Result<RequestPlan, PlanError> {
    if catalog_type == "labels"@ {
        Ok(RequestPlan { method: Method::Get, endpoint: Endpoint::Labels })
    } else if catalog_type == "priorities"@ {
        Ok(RequestPlan { method: Method::Get, endpoint: Endpoint::Priorities })
    } else if catalog_type == "resolutions"@ {
        Ok(RequestPlan { method: Method::Get, endpoint: Endpoint::Resolutions })
    } else if catalog_type == "issueTypes"@ {
        match project_key {
            Some(key) => Ok(RequestPlan { method: Method::Get, endpoint: Endpoint::Project { key } }),
            None => Ok(RequestPlan { method: Method::Get, endpoint: Endpoint::IssueTypes }),
        }
    } else if catalog_type == "statuses"@ {
        Ok(RequestPlan { method: Method::Get, endpoint: Endpoint::Statuses })
    } else {
        Err(PlanError::UnknownCatalogType)
    }
}

/// Plans a metadata-catalog fetch.
pub fn catalog_plan(catalog_type: &str, project_key: Option<String>) -> (r: Result<
    RequestPlan,
    PlanError,
>)
    ensures
        r == catalog_plan_spec(catalog_type@, project_key),
{
    if str_eq(catalog_type, "labels") {
        Ok(RequestPlan { method: Method::Get, endpoint: Endpoint::Labels })
    } else if str_eq(catalog_type, "priorities") {
        Ok(RequestPlan { method: Method::Get, endpoint: Endpoint::Priorities })
    } else if str_eq(catalog_type, "resolutions") {
        Ok(RequestPlan { method: Method::Get, endpoint: Endpoint::Resolutions })
    } else if str_eq(catalog_type, "issueTypes") {
        match project_key {
            Some(key) => Ok(RequestPlan { method: Method::Get, endpoint: Endpoint::Project { key } }),
            None => Ok(RequestPlan { method: Method::Get, endpoint: Endpoint::IssueTypes }),
        }
    } else if str_eq(catalog_type, "statuses") {
        Ok(RequestPlan { method: Method::Get, endpoint: Endpoint::Statuses })
    } else {
        Err(PlanError::UnknownCatalogType)
    }
}

/// The field-discovery rule: the global scope reads the field catalog; the
/// project scope reads createmeta and needs the project key; the issue-type
/// scope has no narrower source than the field catalog.
pub open spec fn field_discover_plan_spec(
    scope: Seq<char>,
    scope_id: Option<String>,
) -> Result<RequestPlan, PlanError> {
    if scope == "global"@ {
        Ok(RequestPlan { method: Method::Get, endpoint: Endpoint::Fields })
    } else if scope == "project"@ {
        match scope_id {
            Some(_) => Ok(RequestPlan { method: Method::Get, endpoint: Endpoint::CreateMeta }),
            None => Err(PlanError::MissingScopeId),
        }
    } else if scope == "issueType"@ {
        match scope_id {
            Some(_) => Ok(RequestPlan { method: Method::Get, endpoint: Endpoint::Fields }),
            None => Err(PlanError::MissingScopeId),
        }
    } else {
        Err(PlanError::UnknownScope)
    }
}

/// Plans a field-discovery fetch.
pub fn field_discover_plan(scope: &str, scope_id: &Option<String>) -> (r: Result<
    RequestPlan,
    PlanError,
>)
    ensures
        r == field_discover_plan_spec(scope@, *scope_id),
{
    if str_eq(scope, "global") {
        Ok(RequestPlan { method: Method::Get, endpoint: Endpoint::Fields })
    } else if str_eq(scope, "project") {
        match scope_id {
            Some(_) => Ok(RequestPlan { method: Method::Get, endpoint: Endpoint::CreateMeta }),
            None => Err(PlanError::MissingScopeId),
        }
    } else if str_eq(scope, "issueType") {
        match scope_id {
            Some(_) => Ok(RequestPlan { method: Method::Get, endpoint: Endpoint::Fields }),
            None => Err(PlanError::MissingScopeId),
        }
    } else {
        Err(PlanError::UnknownScope)
    }
}

/// The project-query rule: the plain project resource lists projects; the
/// scoped resources need the project key; issue types of a project are read
/// off the project resource.
pub open spec fn project_query_plan_spec(
    resource: Seq<char>,
    project_key: Option<String>,
) -> Result<RequestPlan, PlanError> {
    if resource == "project"@ {
        Ok(RequestPlan { method: Method::Get, endpoint: Endpoint::ProjectSearch })
    } else if resource == "versions"@ {
        match project_key {
            Some(key) => Ok(
                RequestPlan { method: Method::Get, endpoint: Endpoint::ProjectVersions { key } },
            ),
            None => Err(PlanError::MissingProjectKey),
        }
    } else if resource == "components"@ {
        match project_key {
            Some(key) => Ok(
                RequestPlan { method: Method::Get, endpoint: Endpoint::ProjectComponents { key } },
            ),
            None => Err(PlanError::MissingProjectKey),
        }
    } else if resource == "roles"@ {
        match project_key {
            Some(key) => Ok(
                RequestPlan { method: Method::Get, endpoint: Endpoint::ProjectRoles { key } },
            ),
            None => Err(PlanError::MissingProjectKey),
        }
    } else if resource == "issueTypes"@ {
        match project_key {
            Some(key) => Ok(RequestPlan { method: Method::Get, endpoint: Endpoint::Project { key } }),
            None => Err(PlanError::MissingProjectKey),
        }
    } else {
        Err(PlanError::UnknownResource)
    }
}

/// Plans a project-resource query.
pub fn project_query_plan(resource: &str, project_key: Option<String>) -> (r: Result<
    RequestPlan,
    PlanError,
>)
    ensures
        r == project_query_plan_spec(resource@, project_key),
{
    if str_eq(resource, "project") {
        Ok(RequestPlan { method: Method::Get, endpoint: Endpoint::ProjectSearch })
    } else if str_eq(resource, "versions") {
        match project_key {
            Some(key) => Ok(
                RequestPlan { method: Method::Get, endpoint: Endpoint::ProjectVersions { key } },
            ),
            None => Err(PlanError::MissingProjectKey),
        }
    } else if str_eq(resource, "components") {
        match project_key {
            Some(key) => Ok(
                RequestPlan { method: Method::Get, endpoint: Endpoint::ProjectComponents { key } },
            ),
            None => Err(PlanError::MissingProjectKey),
        }
    } else if str_eq(resource, "roles") {
        match project_key {
            Some(key) => Ok(
                RequestPlan { method: Method::Get, endpoint: Endpoint::ProjectRoles { key } },
            ),
            None => Err(PlanError::MissingProjectKey),
        }
    } else if str_eq(resource, "issueTypes") {
        match project_key {
            Some(key) => Ok(RequestPlan { method: Method::Get, endpoint: Endpoint::Project { key } }),
            None => Err(PlanError::MissingProjectKey),
        }
    } else {
        Err(PlanError::UnknownResource)
    }
}

/// The project-management rule: only creation is supported, of versions and
/// components; a payload is required.
pub open spec fn project_manage_plan_spec(
    resource: Seq<char>,
    operation: Seq<char>,
    has_data: bool,
) -> Result<RequestPlan, PlanError> {
    if operation == "create"@ {
        if !has_data {
            Err(PlanError::MissingData)
        } else if resource == "version"@ {
            Ok(RequestPlan { method: Method::Post, endpoint: Endpoint::Versions })
        } else if resource == "component"@ {
            Ok(RequestPlan { method: Method::Post, endpoint: Endpoint::Components })
        } else {
            Err(PlanError::UnknownResource)
        }
    } else {
        Err(PlanError::UnknownOperation)
    }
}

/// Plans a version or component creation.
pub fn project_manage_plan(resource: &str, operation: &str, has_data: bool) -> (r: Result<
    RequestPlan,
    PlanError,
>)
    ensures
        r == project_manage_plan_spec(resource@, operation@, has_data),
{
    if str_eq(operation, "create") {
        if !has_data {
            Err(PlanError::MissingData)
        } else if str_eq(resource, "version") {
            Ok(RequestPlan { method: Method::Post, endpoint: Endpoint::Versions })
        } else if str_eq(resource, "component") {
            Ok(RequestPlan { method: Method::Post, endpoint: Endpoint::Components })
        } else {
            Err(PlanError::UnknownResource)
        }
    } else {
        Err(PlanError::UnknownOperation)
    }
}

// ===========================================================================
// Query builders
// ===========================================================================

/// The query parameters of an issue update: the optional notification and
/// editable-override flags, in that order, each present exactly when set.
pub fn update_issue_query(notify_users: Option<bool>, override_editable_flag: Option<bool>) -> (r:
    Vec<QueryParam>)
    ensures
        r@.len() == (if notify_users is Some { 1int } else { 0int }) + (
        if override_editable_flag is Some { 1int } else { 0int }),
        notify_users matches Some(n) ==> (r@[0].name@ == "notifyUsers"@ && r@[0].value
            == QueryValue::Flag(n)),
        override_editable_flag matches Some(o) ==> {
            let i = if notify_users is Some { 1int } else { 0int };
            r@[i].name@ == "overrideEditableFlag"@ && r@[i].value == QueryValue::Flag(o)
        },
{
    let mut query: Vec<QueryParam> = Vec::new();
    if let Some(n) = notify_users {
        query.push(QueryParam { name: String::from_str("notifyUsers"), value: QueryValue::Flag(n) });
    }
    if let Some(o) = override_editable_flag {
        query.push(
            QueryParam { name: String::from_str("overrideEditableFlag"), value: QueryValue::Flag(o) },
        );
    }
    query
}

/// The query of an issue deletion: the optional subtask flag.
pub fn delete_issue_query(delete_subtasks: Option<String>) -> (r: Vec<QueryParam>)
    ensures
        delete_subtasks is None ==> r@.len() == 0,
        delete_subtasks matches Some(d) ==> (r@.len() == 1 && r@[0].name@ == "deleteSubtasks"@
            && r@[0].value == QueryValue::Text(d)),
{
    let mut query: Vec<QueryParam> = Vec::new();
    if let Some(d) = delete_subtasks {
        query.push(QueryParam { name: String::from_str("deleteSubtasks"), value: QueryValue::Text(d) });
    }
    query
}

/// The query of an unwatch: the account identifier, with the empty string
/// standing in when none was given.
pub fn unwatch_query(account_id: Option<String>) -> (r: Vec<QueryParam>)
    ensures
        r@.len() == 1,
        r@[0].name@ == "accountId"@,
        account_id matches Some(a) ==> r@[0].value == QueryValue::Text(a),
        account_id is None ==> (r@[0].value matches QueryValue::Text(t) && t@ == Seq::<
            char,
        >::empty()),
{
    let account = match account_id {
        Some(a) => a,
        None => String::new(),
    };
    let mut query: Vec<QueryParam> = Vec::new();
    query.push(QueryParam { name: String::from_str("accountId"), value: QueryValue::Text(account) });
    query
}

/// The query of a JQL parse: validation is always strict.
pub fn jql_parse_query() -> (r: Vec<QueryParam>)
    ensures
        r@.len() == 1,
        r@[0].name@ == "validation"@,
        r@[0].value matches QueryValue::Text(t) && t@ == "strict"@,
{
    let mut query: Vec<QueryParam> = Vec::new();
    query.push(
        QueryParam { name: String::from_str("validation"), value: QueryValue::Text(String::from_str("strict")) },
    );
    query
}

/// The shared pagination parameters: `startAt` then `maxResults`, each
/// present exactly when set.
pub fn pagination_query(start_at: Option<i64>, max_results: Option<i32>) -> (r: Vec<QueryParam>)
    ensures
        r@.len() == (if start_at is Some { 1int } else { 0int }) + (if max_results is Some { 1int } else { 0int }),
        start_at matches Some(s) ==> (r@[0].name@ == "startAt"@ && r@[0].value == QueryValue::Int(s)),
        max_results matches Some(m) ==> {
            let i = if start_at is Some { 1int } else { 0int };
            r@[i].name@ == "maxResults"@ && r@[i].value == QueryValue::Int(m as i64)
        },
{
    let mut query: Vec<QueryParam> = Vec::new();
    if let Some(s) = start_at {
        query.push(QueryParam { name: String::from_str("startAt"), value: QueryValue::Int(s) });
    }
    if let Some(m) = max_results {
        query.push(QueryParam { name: String::from_str("maxResults"), value: QueryValue::Int(m as i64) });
    }
    query
}

/// The query of a single-issue fetch: the joined field list, the expand
/// options and the joined property list, each present exactly when set.
pub fn issue_get_query(
    fields: Option<Vec<String>>,
    expand: Option<String>,
    properties: Option<Vec<String>>,
) -> (r: Vec<QueryParam>)
    ensures
        r@.len() == (if fields is Some { 1int } else { 0int }) + (if expand is Some { 1int } else { 0int })
            + (if properties is Some { 1int } else { 0int }),
        fields matches Some(f) ==> (r@[0].name@ == "fields"@ && (r@[0].value matches QueryValue::Text(t)
            && t@ == join_comma_spec(f@))),
        expand matches Some(e) ==> {
            let i = if fields is Some { 1int } else { 0int };
            r@[i].name@ == "expand"@ && r@[i].value == QueryValue::Text(e)
        },
        properties matches Some(p) ==> {
            let i = (if fields is Some { 1int } else { 0int }) + (if expand is Some { 1int } else { 0int });
            r@[i].name@ == "properties"@ && (r@[i].value matches QueryValue::Text(t) && t@
                == join_comma_spec(p@))
        },
{
    let mut query: Vec<QueryParam> = Vec::new();
    if let Some(f) = fields {
        let joined = join_comma(&f);
        query.push(QueryParam { name: String::from_str("fields"), value: QueryValue::Text(joined) });
    }
    if let Some(e) = expand {
        query.push(QueryParam { name: String::from_str("expand"), value: QueryValue::Text(e) });
    }
    if let Some(p) = properties {
        let joined = join_comma(&p);
        query.push(
            QueryParam { name: String::from_str("properties"), value: QueryValue::Text(joined) },
        );
    }
    query
}

/// The board-list filters: board type, board name and project, in that
/// order, each present exactly when set.
pub fn boards_filter_query(
    board_type: Option<String>,
    name: Option<String>,
    project_key_or_id: Option<String>,
) -> (r: Vec<QueryParam>)
    ensures
        r@.len() == (if board_type is Some { 1int } else { 0int }) + (if name is Some { 1int } else { 0int })
            + (if project_key_or_id is Some { 1int } else { 0int }),
        board_type matches Some(t) ==> (r@[0].name@ == "type"@ && r@[0].value == QueryValue::Text(
            t,
        )),
        name matches Some(n) ==> {
            let i = if board_type is Some { 1int } else { 0int };
            r@[i].name@ == "name"@ && r@[i].value == QueryValue::Text(n)
        },
        project_key_or_id matches Some(p) ==> {
            let i = (if board_type is Some { 1int } else { 0int }) + (
            if name is Some { 1int } else { 0int });
            r@[i].name@ == "projectKeyOrId"@ && r@[i].value == QueryValue::Text(p)
        },
{
    let mut query: Vec<QueryParam> = Vec::new();
    if let Some(t) = board_type {
        query.push(QueryParam { name: String::from_str("type"), value: QueryValue::Text(t) });
    }
    if let Some(n) = name {
        query.push(QueryParam { name: String::from_str("name"), value: QueryValue::Text(n) });
    }
    if let Some(p) = project_key_or_id {
        query.push(
            QueryParam { name: String::from_str("projectKeyOrId"), value: QueryValue::Text(p) },
        );
    }
    query
}

/// The sprint-list filter: the optional state selector.
pub fn sprint_state_query(state: Option<String>) -> (r: Vec<QueryParam>)
    ensures
        state is None ==> r@.len() == 0,
        state matches Some(s) ==> (r@.len() == 1 && r@[0].name@ == "state"@ && r@[0].value
            == QueryValue::Text(s)),
{
    let mut query: Vec<QueryParam> = Vec::new();
    if let Some(s) = state {
        query.push(QueryParam { name: String::from_str("state"), value: QueryValue::Text(s) });
    }
    query
}

/// The board-issue filters: the optional JQL narrowing and the joined field
/// list, in that order.
pub fn board_issues_query(jql: Option<String>, fields: Option<Vec<String>>) -> (r: Vec<QueryParam>)
    ensures
        r@.len() == (if jql is Some { 1int } else { 0int }) + (if fields is Some { 1int } else { 0int }),
        jql matches Some(j) ==> (r@[0].name@ == "jql"@ && r@[0].value == QueryValue::Text(j)),
        fields matches Some(f) ==> {
            let i = if jql is Some { 1int } else { 0int };
            r@[i].name@ == "fields"@ && (r@[i].value matches QueryValue::Text(t) && t@
                == join_comma_spec(f@))
        },
{
    let mut query: Vec<QueryParam> = Vec::new();
    if let Some(j) = jql {
        query.push(QueryParam { name: String::from_str("jql"), value: QueryValue::Text(j) });
    }
    if let Some(f) = fields {
        let joined = join_comma(&f);
        query.push(QueryParam { name: String::from_str("fields"), value: QueryValue::Text(joined) });
    }
    query
}

/// The query of a createmeta fetch: the project key, then the optional
/// expand options and issue-type filter.
pub fn createmeta_query(
    project_key: String,
    expand: Option<String>,
    issue_type_name: Option<String>,
) -> (r: Vec<QueryParam>)
    ensures
        r@.len() == 1 + (if expand is Some { 1int } else { 0int }) + (
        if issue_type_name is Some { 1int } else { 0int }),
        r@[0].name@ == "projectKeys"@ && r@[0].value == QueryValue::Text(project_key),
        expand matches Some(e) ==> (r@[1].name@ == "expand"@ && r@[1].value == QueryValue::Text(e)),
        issue_type_name matches Some(t) ==> {
            let i = 1 + (if expand is Some { 1int } else { 0int });
            r@[i].name@ == "issuetypeNames"@ && r@[i].value == QueryValue::Text(t)
        },
{
    let mut query: Vec<QueryParam> = Vec::new();
    query.push(
        QueryParam { name: String::from_str("projectKeys"), value: QueryValue::Text(project_key) },
    );
    if let Some(e) = expand {
        query.push(QueryParam { name: String::from_str("expand"), value: QueryValue::Text(e) });
    }
    if let Some(t) = issue_type_name {
        query.push(
            QueryParam { name: String::from_str("issuetypeNames"), value: QueryValue::Text(t) },
        );
    }
    query
}

/// The query of a user search: the query text first, then pagination and
/// the two activity filters, each present exactly when set.
pub fn user_search_query(
    query_text: String,
    start_at: Option<i32>,
    max_results: Option<i32>,
    include_active: Option<bool>,
    include_inactive: Option<bool>,
) -> (r: Vec<QueryParam>)
    ensures
        r@.len() == 1 + (if start_at is Some { 1int } else { 0int }) + (
        if max_results is Some { 1int } else { 0int }) + (if include_active is Some { 1int } else { 0int })
            + (if include_inactive is Some { 1int } else { 0int }),
        r@[0].name@ == "query"@ && r@[0].value == QueryValue::Text(query_text),
        start_at matches Some(s) ==> (r@[1].name@ == "startAt"@ && r@[1].value == QueryValue::Int(
            s as i64,
        )),
        max_results matches Some(m) ==> {
            let i = 1 + (if start_at is Some { 1int } else { 0int });
            r@[i].name@ == "maxResults"@ && r@[i].value == QueryValue::Int(m as i64)
        },
        include_active matches Some(a) ==> {
            let i = 1 + (if start_at is Some { 1int } else { 0int }) + (
            if max_results is Some { 1int } else { 0int });
            r@[i].name@ == "includeActive"@ && r@[i].value == QueryValue::Flag(a)
        },
        include_inactive matches Some(n) ==> {
            let i = 1 + (if start_at is Some { 1int } else { 0int }) + (
            if max_results is Some { 1int } else { 0int }) + (
            if include_active is Some { 1int } else { 0int });
            r@[i].name@ == "includeInactive"@ && r@[i].value == QueryValue::Flag(n)
        },
{
    let mut query: Vec<QueryParam> = Vec::new();
    query.push(QueryParam { name: String::from_str("query"), value: QueryValue::Text(query_text) });
    if let Some(s) = start_at {
        query.push(QueryParam { name: String::from_str("startAt"), value: QueryValue::Int(s as i64) });
    }
    if let Some(m) = max_results {
        query.push(QueryParam { name: String::from_str("maxResults"), value: QueryValue::Int(m as i64) });
    }
    if let Some(a) = include_active {
        query.push(QueryParam { name: String::from_str("includeActive"), value: QueryValue::Flag(a) });
    }
    if let Some(n) = include_inactive {
        query.push(
            QueryParam { name: String::from_str("includeInactive"), value: QueryValue::Flag(n) },
        );
    }
    query
}

} // verus!
