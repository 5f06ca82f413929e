//! Task columns, overlays and terminal plumbing, verified.
pub mod ansi;
pub mod app;
pub mod body;
pub mod claude;
pub mod client;
pub mod column;
pub mod column_acts;
pub mod column_commands;
pub mod column_events;
pub mod column_keys;
pub mod column_rows;
pub mod column_view;
pub mod forms;
pub mod hyperlink;
pub mod input;
pub mod job;
pub mod layout;
pub mod lines;
pub mod list;
pub mod list_events;
pub mod list_ops;
pub mod mouse;
pub mod overlay;
pub mod overlay_commands;
pub mod overlay_keys;
pub mod overlay_view;
pub mod palette;
pub mod path;
pub mod progress;
pub mod repos;
pub mod repos_view;
pub mod screens;
pub mod sessions;
pub mod sort;
pub mod status;
pub mod style;
pub mod term;
pub mod text;
pub mod ui;
pub mod vt;
pub mod work;
pub mod workspace;
pub mod zellij;
