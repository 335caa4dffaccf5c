//! Verified core of a desktop selection-translation tool: settings
//! normalisation, translation history, clipboard capture decisions, bubble
//! geometry and the capture/translate pipeline as a state machine.

pub mod bubble;
pub mod capture;
pub mod capture_log;
pub mod clipboard_util;
pub mod commands;
pub mod history;
pub mod pipeline;
pub mod python_capture;
pub mod replace_flow;
pub mod selection;
pub mod settings;
pub mod text;
pub mod translation;
pub mod window_layout;
