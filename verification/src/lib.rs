//! Verified core of a small baseball-league web service: team lookups,
//! the JSON replies of the REST API, the database queries and aggregation
//! pipelines it runs, the checks made on request parameters, and the
//! Twitter sign-in flow.

pub mod document;
pub mod page;
pub mod pipeline;
pub mod query;
pub mod response;
pub mod sign_in;
pub mod team;
pub mod text;
pub mod token_reply;
