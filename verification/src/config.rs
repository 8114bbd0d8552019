use vstd::prelude::*;

verus! {

/// Where the download history is kept.
#[derive(Debug, Clone, PartialEq, Eq)]
pub struct MongoDb {
    pub connection_url: String,
    pub database: String,
    pub download_collection: String,
}

/// How the torrent client's web API is reached, and where it stores what it downloads.
#[derive(Debug, Clone, PartialEq, Eq)]
pub struct TorrentWebUI {
    pub base_url: String,
    pub username: String,
    pub password: String,
    pub download_root_path: String,
}

/// The settings of one run.
#[derive(Debug, Clone, PartialEq, Eq)]
pub struct Settings {
    pub mongodb: MongoDb,
    pub torrent_web_ui: TorrentWebUI,
    /// MIME types that count as media besides everything under `video/`.
    pub video_mime_types: Vec<String>,
}

} // verus!
