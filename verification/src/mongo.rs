use std::sync::Arc;
use vstd::prelude::*;

use crate::config::Settings;
use crate::downloads::entry_of;
use crate::downloads::media_entry;
use crate::downloads::media_of;
use crate::downloads::records_cover;
use crate::downloads::HistoryPlan;
use crate::downloads::HistoryPlanView;
use crate::downloads::HistoryRecord;
use crate::downloads::HistoryRecordView;
use crate::downloads::HistoryUpdater;
use crate::error::Error;
use crate::torrents::TorrentFile;
use crate::torrents::TorrentFileView;

verus! {

/// The download history in a MongoDB collection.
pub struct MongoUpdater {
    config: Arc<Settings>,
}

/// `bson::DateTime::now`, as `mongodb` hands it on, read with `timestamp_millis`: the
/// machine's clock in milliseconds since the Unix epoch. Nothing is claimed of the value.
#[verifier::external_body]
fn now_millis() -> i64 {
    mongodb::bson::DateTime::now().timestamp_millis()
}

/// The media files among the first `n + 1` files are those among the first `n`, followed by
/// file `n` if that one is media.
proof fn media_of_next(files: Seq<TorrentFileView>, n: int)
    requires
        0 <= n < files.len(),
    ensures
        media_of(files.take(n + 1)) == if files[n].is_media {
            media_of(files.take(n)).push(files[n])
        } else {
            media_of(files.take(n))
        },
{
    reveal(Seq::filter);
    assert(files.take(n + 1).drop_last() =~= files.take(n));
}

impl MongoUpdater {
    /// The settings that the updater works with.
    pub closed spec fn settings(&self) -> Settings {
        *self.config
    }

    /// An updater for the store that the settings describe.
    pub fn new(config: Arc<Settings>) -> (updater: MongoUpdater)
        ensures
            updater.settings() == *config,
    {
        MongoUpdater { config }
    }
}

impl HistoryUpdater for MongoUpdater {
    fn update_history(&self, files: Vec<TorrentFile>) -> (plan: HistoryPlan)
        ensures
            plan@ matches HistoryPlanView::Insert { database, collection, .. } ==> {
                &&& database == self.settings().mongodb.database@
                &&& collection == self.settings().mongodb.download_collection@
            },
    {
        let mut records: Vec<HistoryRecord> = Vec::new();
        let mut i: usize = 0;
        proof {
            reveal(Seq::filter);
            assert(files.deep_view().take(0) =~= Seq::empty());
        }
        while i < files.len()
            invariant
                i <= files.len(),
                records.len() == media_of(files.deep_view().take(i as int)).len(),
                records_cover(records.deep_view(), files.deep_view().take(i as int)),
            decreases files.len() - i,
        {
            proof {
                media_of_next(files.deep_view(), i as int);
            }
            if files[i].is_media {
                let ghost before = records.deep_view();
                let ghost media = media_of(files.deep_view().take(i as int));
                let record = HistoryRecord::of(&files[i], now_millis());
                records.push(record);
                assert(records.deep_view() =~= before.push(record@));
                assert(records.deep_view().map_values(|record: HistoryRecordView| entry_of(record))
                    =~= before.map_values(|record: HistoryRecordView| entry_of(record)).push(
                    entry_of(record@),
                ));
                assert(media.push(files.deep_view()[i as int]).map_values(
                    |file: TorrentFileView| media_entry(file),
                ) =~= media.map_values(|file: TorrentFileView| media_entry(file)).push(
                    media_entry(files.deep_view()[i as int]),
                ));
            }
            i += 1;
        }
        assert(files.deep_view().take(files.len() as int) =~= files.deep_view());
        if records.len() == 0 {
            HistoryPlan::Nothing
        } else {
            HistoryPlan::Insert {
                database: self.config.mongodb.database.clone(),
                collection: self.config.mongodb.download_collection.clone(),
                records,
            }
        }
    }

    fn recorded(&self, written: Result<(), String>) -> (outcome: Result<(), Error>) {
        match written {
            Ok(()) => Ok(()),
            Err(detail) => Err(Error::Persistence { detail }),
        }
    }
}

} // verus!
