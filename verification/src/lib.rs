//! The core of a personal todo list: a table of todos, each with a title, a
//! status and a broker name, that can be created, read, changed, deleted and
//! searched.
//!
//! The crate does no input or output. [`validation`] holds what the user
//! typed to its bounds; [`services`] opens each operation, and [`store`]
//! carries it on as a conversation with the store: the service names a
//! statement, the caller runs it and reports the reply, and the service says
//! what follows. [`table`] and [`like`] say how the service reads its own
//! statements, and [`laws`] states what then holds of the operations.
//! [`logger`] and [`shell`] decide what the desktop shell does with a log
//! line, a tray menu entry and its small windows.

pub mod clock;
pub mod dto;
pub mod error;
pub mod handlers;
pub mod laws;
pub mod like;
pub mod logger;
pub mod models;
pub mod services;
pub mod shell;
pub mod store;
pub mod table;
pub mod text;
pub mod validation;
