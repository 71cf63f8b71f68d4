//! Client bindings for a time-tracking web service: request encoding, query
//! building and the classification of every response into one typed result.
pub mod body;
pub mod classify;
pub mod decimal;
pub mod endpoints;
pub mod params;
pub mod schema;
pub mod text;
pub mod time;

pub use body::time_entry_request;
pub use classify::{
    ApiError, ApiResult, Body, Classified, Outcome, ParsingError, ServerError, classify,
};
pub use decimal::int_text;
pub use endpoints::{
    API_URL, REPORTS_API_URL, basic_auth_credentials, current_user_query, current_user_url,
    time_entries_url, workspace_projects_url, workspace_tags_url, workspaces_url,
};
pub use params::{ReportsDetailedParams, ReportsParams, ids_text};
pub use schema::{ReportsErrorDetail, ReportsErrorJson, Tag, TimeEntry, TimeEntryResponse};
pub use text::join_texts;
pub use time::Timestamp;
