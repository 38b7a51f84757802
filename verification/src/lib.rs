//! External-editor round trip: materialize in-memory text as a scratch file,
//! launch an external editor on it through a templated command line, detect
//! when editing has finished, and read the result back.
//!
//! The crate holds the decision logic only: template substitution, command
//! construction, the scratch-file state machine, and outcome classification.
//! File and process operations are performed by the host around it, which
//! feeds their results back in as plain values.

pub mod config;
pub mod executor;
pub mod external_editor;
pub mod scratch;
pub mod session;
pub mod text;
