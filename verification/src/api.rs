//! Plain-data request and response shapes of the surrounding API, grouped
//! by resource family.

pub mod agile;
pub mod attachments;
pub mod comments;
pub mod content;
pub mod custom_fields;
pub mod fields;
pub mod issue;
pub mod issue_meta;
pub mod jql;
pub mod links;
pub mod metadata;
pub mod project;
pub mod social;
pub mod user;
pub mod worklogs;
