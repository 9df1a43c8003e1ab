mod text;
pub mod audio;
pub mod models;
pub mod pipeline;
pub mod scrape;
pub mod slug;
pub mod state;
pub mod transcript;
pub mod ytdlp;
