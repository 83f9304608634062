//! Clipboard history and data-control protocol engine of a Wayland clipboard daemon.

pub mod backend_state;
pub mod content_type;
pub mod engine_laws;
pub mod engine_model;
pub mod error;
pub mod frame_callback;
pub mod history_laws;
pub mod item;
pub mod messages;
pub mod mime_map;
pub mod offer_reader;
pub mod overlay;
pub mod preview;
pub mod protocol;
pub mod relative_time;
pub mod request;
pub mod search;
pub mod store;
pub mod store_model;
pub mod text;
