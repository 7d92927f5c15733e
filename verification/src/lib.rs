//! Inspection of moderation labels on accounts and posts: identity
//! resolution, repository paging, label queries and their aggregation.

pub mod analysis;
pub mod auth;
pub mod batching;
pub mod course;
pub mod display;
pub mod encode;
pub mod engagement;
pub mod error;
pub mod format;
pub mod http;
pub mod json;
pub mod labeler;
pub mod media;
pub mod posts;
pub mod progress;
pub mod ranking;
pub mod resolver;
pub mod selection;
pub mod stats;
pub mod text;
pub mod types;

pub use analysis::{analyze_user_posts, fetch_labels};
pub use auth::{authenticate, create_session};
pub use display::PostWithLabels;
pub use engagement::UserInfo;
pub use error::Error;
pub use format::{calculate_duration, format_timestamp, shorten_did};
pub use json::Json;
pub use labeler::LabelerClient;
pub use posts::PostClient;
pub use resolver::{resolve_did, resolve_handle};
pub use stats::BulkAnalysisStats;
pub use types::{
    AtRecord, Did, Handle, Label, LabelCategory, LabelCollection, LabelsResponse,
    ListRecordsResponse,
};
