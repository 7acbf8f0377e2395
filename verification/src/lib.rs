//! Dynamic schema resolution for a multi-tenant issue tracker.
//!
//! Each tenant customises its field set, workflows and issue-type names, so a
//! portable request ("set Story Points", "move to In Progress", "create a
//! Bug") must first be translated into the tenant-specific identifiers the
//! REST API requires.  This crate holds that translation: the matching
//! heuristics, fallback chains and tie-break rules over remotely fetched
//! metadata.  Transport, JSON envelopes and the tool dispatch surface stay
//! outside; callers fetch the catalogs and hand them in as plain values.
//!
//! The heart of the crate is [`resolvers`]: field-name resolution over the
//! tenant catalog and over one issue's edit screen, issue-type resolution
//! within a project, the three-pass transition resolver, and the assignee
//! sentinel rules.  Around it, [`plan`] computes which request each
//! operation makes, [`analysis`] classifies sprint issues for metrics, and
//! [`filter`] parses field-filter strings.

pub mod adf;
pub mod analysis;
pub mod api;
pub mod args;
pub mod discovery;
pub mod enums;
pub mod filter;
pub mod model;
pub mod plan;
pub mod resolvers;
pub mod text;
