use vstd::prelude::*;

use crate::error::Error;
use crate::error::ErrorView;
use crate::torrents::done_view;
use crate::torrents::TorrentFile;
use crate::torrents::TorrentFileView;

verus! {

/// One line of the download history: a media file, its size as the store holds it, and when
/// the record was made, in milliseconds since the Unix epoch.
#[derive(Debug, Clone, PartialEq, Eq)]
pub struct HistoryRecord {
    pub file_name: String,
    pub file_size: i64,
    pub date_downloaded: i64,
}

/// The mathematical value of a [`HistoryRecord`].
pub struct HistoryRecordView {
    pub file_name: Seq<char>,
    pub file_size: i64,
    pub date_downloaded: i64,
}

impl View for HistoryRecord {
    type V = HistoryRecordView;

    open spec fn view(&self) -> HistoryRecordView {
        HistoryRecordView {
            file_name: self.file_name@,
            file_size: self.file_size,
            date_downloaded: self.date_downloaded,
        }
    }
}

impl DeepView for HistoryRecord {
    type V = HistoryRecordView;

    open spec fn deep_view(&self) -> HistoryRecordView {
        self@
    }
}

/// What the history store is to be asked for.
#[derive(Debug, Clone, PartialEq, Eq)]
pub enum HistoryPlan {
    /// No file is media: the store is left alone.
    Nothing,
    /// One bulk insert of these records, which are never none, into the named collection.
    Insert { database: String, collection: String, records: Vec<HistoryRecord> },
}

/// The mathematical value of a [`HistoryPlan`].
pub enum HistoryPlanView {
    Nothing,
    Insert { database: Seq<char>, collection: Seq<char>, records: Seq<HistoryRecordView> },
}

impl View for HistoryPlan {
    type V = HistoryPlanView;

    open spec fn view(&self) -> HistoryPlanView {
        match *self {
            HistoryPlan::Nothing => HistoryPlanView::Nothing,
            HistoryPlan::Insert { database, collection, records } => HistoryPlanView::Insert {
                database: database@,
                collection: collection@,
                records: records.deep_view(),
            },
        }
    }
}

/// A byte count as the store holds it: the same 64 bits read as a signed number.
pub open spec fn stored_size(size: u64) -> i64 {
    if size <= i64::MAX {
        size as i64
    } else {
        (size - 0x1_0000_0000_0000_0000) as i64
    }
}

/// The files of a listing that are media, in the order of the listing.
pub open spec fn media_of(files: Seq<TorrentFileView>) -> Seq<TorrentFileView> {
    files.filter(|file: TorrentFileView| file.is_media)
}

/// The record of a file, made at the given time.
pub open spec fn record_of(file: TorrentFileView, at: i64) -> HistoryRecordView {
    HistoryRecordView {
        file_name: file.name,
        file_size: stored_size(file.size),
        date_downloaded: at,
    }
}

/// What a record says of its file: the name and the stored size.
pub open spec fn entry_of(record: HistoryRecordView) -> (Seq<char>, i64) {
    (record.file_name, record.file_size)
}

/// What the record of a file is to say of it: the name and the stored size.
pub open spec fn media_entry(file: TorrentFileView) -> (Seq<char>, i64) {
    (file.name, stored_size(file.size))
}

/// The records that a plan asks to insert: none for a plan that leaves the store alone.
pub open spec fn planned(plan: HistoryPlanView) -> Seq<HistoryRecordView> {
    match plan {
        HistoryPlanView::Nothing => Seq::empty(),
        HistoryPlanView::Insert { records, .. } => records,
    }
}

/// Whether the records are those of the media files of a listing: one for each, in the
/// listing's order, with the file's name and stored size.
pub open spec fn records_cover(
    records: Seq<HistoryRecordView>,
    files: Seq<TorrentFileView>,
) -> bool {
    records.map_values(|record: HistoryRecordView| entry_of(record)) =~= media_of(files).map_values(
        |file: TorrentFileView| media_entry(file),
    )
}

/// Whether a plan is the one that a listing calls for: its records are those of the listing's
/// media files, and it leaves the store alone exactly when there is no such file.
pub open spec fn plans(plan: HistoryPlanView, files: Seq<TorrentFileView>) -> bool {
    &&& records_cover(planned(plan), files)
    &&& plan is Nothing <==> media_of(files).len() == 0
}

/// A listing without media files asks nothing of the store: the plan for it is to leave the
/// store alone, and holds no record.
pub proof fn no_media_no_write(files: Seq<TorrentFileView>, plan: HistoryPlanView)
    requires
        forall|i: int| 0 <= i < files.len() ==> !files[i].is_media,
        plans(plan, files),
    ensures
        plan is Nothing,
        planned(plan).len() == 0,
{
    let media = |file: TorrentFileView| file.is_media;
    if media_of(files).len() > 0 {
        files.lemma_filter_pred(media, 0);
        files.lemma_filter_contains_rev(media, media_of(files)[0]);
    }
}

/// The plan for a listing records exactly the files that are flagged as media: one record for
/// each of them, in the listing's order, with the file's name and stored size; every media
/// file of the listing is among those recorded, and no other file is.
pub proof fn media_files_are_what_is_written(files: Seq<TorrentFileView>, plan: HistoryPlanView)
    requires
        plans(plan, files),
    ensures
        planned(plan).len() == media_of(files).len(),
        forall|i: int|
            0 <= i < planned(plan).len() ==> {
                &&& (#[trigger] media_of(files)[i]).is_media
                &&& files.contains(media_of(files)[i])
                &&& entry_of(planned(plan)[i]) == media_entry(media_of(files)[i])
            },
        forall|i: int|
            0 <= i < files.len() && (#[trigger] files[i]).is_media ==> media_of(files).contains(
                files[i],
            ),
        plan is Insert <==> exists|i: int| 0 <= i < files.len() && (#[trigger] files[i]).is_media,
{
    let media = |file: TorrentFileView| file.is_media;
    let records = planned(plan);
    let entries = records.map_values(|record: HistoryRecordView| entry_of(record));
    let wanted = media_of(files).map_values(|file: TorrentFileView| media_entry(file));
    assert(entries.len() == records.len());
    assert(wanted.len() == media_of(files).len());
    assert forall|i: int| 0 <= i < records.len() implies {
        &&& (#[trigger] media_of(files)[i]).is_media
        &&& files.contains(media_of(files)[i])
        &&& entry_of(records[i]) == media_entry(media_of(files)[i])
    } by {
        files.lemma_filter_pred(media, i);
        files.lemma_filter_contains_rev(media, media_of(files)[i]);
        assert(entries[i] == wanted[i]);
    }
    assert forall|i: int| 0 <= i < files.len() && (#[trigger] files[i]).is_media implies media_of(
        files,
    ).contains(files[i]) by {
        files.lemma_filter_contains(media, i);
    }
    if media_of(files).len() > 0 {
        files.lemma_filter_pred(media, 0);
        files.lemma_filter_contains_rev(media, media_of(files)[0]);
        let found = files.index_of(media_of(files)[0]);
        assert(files[found].is_media);
    }
}

impl HistoryRecord {
    /// The record of a file, made at the given time.
    pub fn of(file: &TorrentFile, at: i64) -> (record: HistoryRecord)
        ensures
            record@ == record_of(file@, at),
    {
        let file_size: i64 = if file.size <= 0x7fff_ffff_ffff_ffff {
            file.size as i64
        } else {
            (file.size - 0x8000_0000_0000_0000) as i64 + i64::MIN
        };
        HistoryRecord { file_name: file.name.clone(), file_size, date_downloaded: at }
    }
}

/// The keeper of the download history: what to ask of the store for a listing, and what the
/// store's answer means. Asking is the caller's part.
pub trait HistoryUpdater {
    /// Plans the records for the media files of a listing, each stamped with the time at which
    /// it was made. The store is asked for nothing exactly when no file is media.
    fn update_history(&self, files: Vec<TorrentFile>) -> (plan: HistoryPlan)
        ensures
            plans(plan@, files.deep_view()),
    ;

    /// What the store's answer to the insert means: its failure is a persistence error.
    fn recorded(&self, written: Result<(), String>) -> (outcome: Result<(), Error>)
        ensures
            done_view(outcome) == match written {
                Ok(()) => Ok::<(), ErrorView>(()),
                Err(detail) => Err::<(), ErrorView>(ErrorView::Persistence { detail: detail@ }),
            },
    ;
}

} // verus!
