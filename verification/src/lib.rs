//! Watches one authentication log for failed logins.
//!
//! The library holds the rules: how arguments become parameters, which log
//! lines count as failed authentication, how bytes read from the log become
//! lines, how file events move the watcher between an absent and a present
//! file, and when the count of failures reaches its limit.

pub mod arguments;
pub mod auth_file_reader;
pub mod auth_file_watcher;
pub mod auth_message_parser;
pub mod auth_monitor;
pub mod auth_monitor_options;
pub mod auth_monitor_params;
pub mod byte_text;
pub mod file_action;
pub mod file_event_filter;
pub mod file_path;
pub mod message_parser;
pub mod text;
