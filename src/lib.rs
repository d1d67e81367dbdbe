//! Reading remote agent sessions: credentials, paginated event retrieval,
//! the tagged event model over JSON, and filtering and search of events.

pub mod text;
pub mod session_id;
pub mod json;
pub mod json_text;
pub mod events;
pub mod decode;
pub mod encode;
pub mod paginate;
pub mod timefmt;
pub mod search;
pub mod credentials;
pub mod sessions;
pub mod transport;
pub mod display;
pub mod loglines;
pub mod summary;
