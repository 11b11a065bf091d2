//! Feed acquisition for a terminal podcast client: URL validation, feed
//! download and parsing, OPML import and the command pipeline that ties
//! them together.

pub mod text;
pub mod podcast;
pub mod errors;
pub mod validate;
pub mod opml_parser;
pub mod podcast_factory;
pub mod podcast_download;
pub mod podcast_commands;
pub mod podcast_pipeline_interpreter;
pub mod scrollable_paragraph;
pub mod show_notes;
pub mod app;
