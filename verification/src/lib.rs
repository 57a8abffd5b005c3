//! Verified core of a web control panel for Asynq task queues: the parsing of
//! task-state names, the shape of API replies, the connection state of the
//! inspector service and the decisions that the HTTP handlers make.

pub mod api;
pub mod decimal;
pub mod panel;
pub mod service;
pub mod task_state;
pub mod text;
