use std::sync::Arc;

use mongodb::bson::{Bson, DateTime, Document};
use removeqtorrent::config::{MongoDb, Settings, TorrentWebUI};
use removeqtorrent::downloads::{HistoryPlan, HistoryUpdater};
use removeqtorrent::mongo::MongoUpdater;
use removeqtorrent::torrents::TorrentFile;

#[test]
fn mongodb_can_update_history() {
    let config = Settings {
        mongodb: MongoDb {
            connection_url: format!(
                "mongodb://{}:{}@localhost:{}/?retryWrites=true&w=majority",
                "root", "rootpass", 27017
            ),
            database: "media".to_string(),
            download_collection: "downloads".to_string(),
        },
        torrent_web_ui: TorrentWebUI {
            base_url: "http://localhost:8080".to_string(),
            username: "admin".to_string(),
            password: "adminadmin".to_string(),
            download_root_path: "/downloads".to_string(),
        },
        video_mime_types: vec![],
    };
    let updater = MongoUpdater::new(Arc::new(config));

    let name = "name1";
    let size = 1;
    let is_media = true;

    let plan = updater.update_history(vec![TorrentFile { name: name.to_string(), size, is_media }]);

    let mut results: Vec<Document> = vec![];
    if let HistoryPlan::Insert { records, .. } = plan {
        for record in records {
            let mut document = Document::new();
            document.insert("file_name", Bson::String(record.file_name));
            document.insert("file_size", Bson::Int64(record.file_size));
            document.insert(
                "date_downloaded",
                Bson::DateTime(DateTime::from_millis(record.date_downloaded)),
            );
            results.push(document);
        }
    }
    assert_eq!(1, results.len());

    let d = &results[0];
    assert_eq!(name, d.get("file_name").unwrap().as_str().unwrap());
    assert_eq!(size as i64, d.get("file_size").unwrap().as_i64().unwrap());
    assert!(d.get("date_downloaded").unwrap().as_datetime().is_some());
}
