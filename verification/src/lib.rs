//! Verified core of a small SQL Server editor: text helpers, the data that
//! travels between the user interface and the database backend, the
//! backend's decisions, and the state machine behind the editor's screen.

pub mod text;
pub mod state;
pub mod api;
pub mod backend;
pub mod app;
