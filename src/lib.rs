//! Live-chat spam detection: per-user behaviour tracking, the decisions drawn
//! from it, and the small state machines of the chat pipeline around it.

pub mod channel;
pub mod chat_manager;
pub mod chat_params;
pub mod controller;
pub mod decision;
pub mod detector_manager;
pub mod message_data;
pub mod params;
pub mod params_extractor;
pub mod poller;
pub mod similarity;
pub mod spam_detector;
pub mod stream_finder;
pub mod text;
pub mod types;
pub mod user_data;
pub mod youtube_regexes;
