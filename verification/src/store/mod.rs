//! What the store needs that is not the database itself: the text codes of
//! the stored enums, the statements it issues, and the host's small value
//! types.

pub mod clock;
pub mod codec;
pub mod lock;
pub mod migrations;
pub mod queries;
pub mod repo_rows;
pub mod rows;
pub mod session_rows;
