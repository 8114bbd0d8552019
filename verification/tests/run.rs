use std::sync::Arc;

use removeqtorrent::config::{MongoDb, Settings, TorrentWebUI};
use removeqtorrent::downloads::{HistoryPlan, HistoryUpdater};
use removeqtorrent::error::{AuthFailure, Error};
use removeqtorrent::execute;
use removeqtorrent::mongo::MongoUpdater;
use removeqtorrent::qtorrent::QTorrentHandler;
use removeqtorrent::run::{Action, Event, Phase, Run};
use removeqtorrent::torrents::{FilesReply, ListedFile, LoginReply, TorrentFile, TorrentsHandler};

/// What the outside answers to each request of a run, and what it was asked for.
struct World {
    login: Result<LoginReply, String>,
    files_body: Result<String, String>,
    samples: Vec<(String, Vec<u8>)>,
    insert: Result<(), String>,
    delete: Result<(), String>,
    delete_first: bool,
    inserted: Vec<(String, i64)>,
    inserts: usize,
    delete_bodies: Vec<Vec<u8>>,
    listings: usize,
}

fn world() -> World {
    World {
        login: Ok(LoginReply { set_cookie: Some(b"SID=abc123; HttpOnly; path=/".to_vec()) }),
        files_body: Ok("[]".to_string()),
        samples: vec![],
        insert: Ok(()),
        delete: Ok(()),
        delete_first: false,
        inserted: vec![],
        inserts: 0,
        delete_bodies: vec![],
        listings: 0,
    }
}

fn settings() -> Arc<Settings> {
    Arc::new(Settings {
        mongodb: MongoDb {
            connection_url: "mongodb://localhost:27017".to_string(),
            database: "media".to_string(),
            download_collection: "downloads".to_string(),
        },
        torrent_web_ui: TorrentWebUI {
            base_url: "http://localhost:8080".to_string(),
            username: "admin".to_string(),
            password: "adminadmin".to_string(),
            download_root_path: "/downloads".to_string(),
        },
        video_mime_types: vec![],
    })
}

fn matroska() -> Vec<u8> {
    let mut sample = vec![0x1a, 0x45, 0xdf, 0xa3, 0x01, 0x00, 0x00, 0x00, 0x00, 0x00, 0x00, 0x23];
    sample.extend_from_slice(&[0x42, 0x82, 0x88]);
    sample.extend_from_slice(b"matroska");
    sample.resize(300, 0);
    sample
}

fn decode(body: &str, samples: &[(String, Vec<u8>)]) -> Option<Vec<ListedFile>> {
    let value: serde_json::Value = serde_json::from_str(body).ok()?;
    let mut listing = vec![];
    for entry in value.as_array()? {
        let name = entry.get("name")?.as_str()?.to_string();
        let size = entry.get("size")?.as_u64()?;
        let sample = samples.iter().find(|(path, _)| *path == name).map(|(_, bytes)| bytes.clone());
        listing.push(ListedFile { name, size, sample });
    }
    Some(listing)
}

fn encoded_form(form: &[(String, String)]) -> Vec<u8> {
    let built = reqwest::Client::new().post("http://localhost:8080/").form(form).build().unwrap();
    built.body().unwrap().as_bytes().unwrap().to_vec()
}

/// Runs a removal against the world, step by step, and gives its result.
fn drive(hash: &str, world: &mut World) -> (Run, Result<(), Error>) {
    let handler = QTorrentHandler::new(settings());
    let updater = MongoUpdater::new(settings());
    let mut pending: Vec<Event> = vec![Event::Start];
    let mut run = Run::new(hash.to_string());
    loop {
        let event = pending.remove(0);
        let (next, action) = execute(run, event);
        run = next;
        match action {
            Action::Login => {
                let request = handler.login_request();
                assert_eq!(request.url, "http://localhost:8080/api/v2/auth/login");
                pending.push(Event::LoggedIn(handler.generate_sid(world.login.clone())));
            }
            Action::ListFiles { sid, hash } => {
                let request = handler.files_request(&sid, &hash);
                assert_eq!(request.cookie, Some(format!("SID={}", sid)));
                world.listings += 1;
                let sent = world.files_body.clone().map(|body| FilesReply {
                    listing: decode(&body, &world.samples),
                    body,
                });
                pending.push(Event::Listed(handler.list_files(sent)));
            }
            Action::Complete { files, sid, hash, delete_files } => {
                let written = match updater.update_history(files) {
                    HistoryPlan::Nothing => Ok(()),
                    HistoryPlan::Insert { records, .. } => {
                        world.inserts += 1;
                        if world.insert.is_ok() {
                            for record in records {
                                world.inserted.push((record.file_name, record.file_size));
                            }
                        }
                        world.insert.clone()
                    }
                };
                let request = handler.delete_request(&sid, &hash, delete_files);
                world.delete_bodies.push(encoded_form(&request.form));
                let recorded = Event::Recorded(updater.recorded(written));
                let deleted = Event::Deleted(handler.delete(world.delete.clone()));
                if world.delete_first {
                    pending.push(deleted);
                    pending.push(recorded);
                } else {
                    pending.push(recorded);
                    pending.push(deleted);
                }
            }
            Action::Wait => assert_eq!(pending.len(), 1),
            Action::Finish(result) => {
                assert!(pending.is_empty());
                return (run, result);
            }
            Action::Ignore => panic!("an event of the run was ignored"),
        }
    }
}

fn completing(hash: &str) -> Run {
    let (run, _) = execute(Run::new(hash.to_string()), Event::Start);
    let (run, _) = execute(run, Event::LoggedIn(Ok("abc123".to_string())));
    let (run, _) = execute(run, Event::Listed(Ok(vec![])));
    run
}

#[test]
fn media_file_is_recorded_and_torrent_deleted() {
    let mut world = world();
    world.files_body = Ok(
        r#"[{"name":"movie.mkv","size":700000000},{"name":"readme.txt","size":120}]"#.to_string(),
    );
    world.samples = vec![
        ("movie.mkv".to_string(), matroska()),
        ("readme.txt".to_string(), b"plain words\n".to_vec()),
    ];

    let (run, result) = drive("deadbeef", &mut world);

    assert_eq!(result, Ok(()));
    assert_eq!(run.phase(), &Phase::Done);
    assert_eq!(world.inserts, 1);
    assert_eq!(world.inserted, vec![("movie.mkv".to_string(), 700000000)]);
    assert_eq!(world.delete_bodies, vec![b"hashes=deadbeef&deleteFiles=false".to_vec()]);
}

#[test]
fn empty_listing_skips_the_store_and_still_deletes() {
    let mut world = world();
    world.files_body = Ok("[]".to_string());

    let (run, result) = drive("deadbeef", &mut world);

    assert_eq!(result, Ok(()));
    assert!(run.is_over());
    assert_eq!(world.inserts, 0);
    assert_eq!(world.delete_bodies.len(), 1);
}

#[test]
fn failed_listing_ends_the_run_before_the_delete() {
    let mut world = world();
    world.files_body = Err("connection reset by peer".to_string());

    let (run, result) = drive("deadbeef", &mut world);

    assert_eq!(result, Err(Error::Transport { detail: "connection reset by peer".to_string() }));
    assert_eq!(run.phase(), &Phase::Failed);
    assert_eq!(world.listings, 1);
    assert_eq!(world.inserts, 0);
    assert!(world.delete_bodies.is_empty());
}

#[test]
fn failed_store_write_fails_the_run_after_the_delete() {
    let mut world = world();
    world.files_body = Ok(r#"[{"name":"movie.mkv","size":700000000}]"#.to_string());
    world.samples = vec![("movie.mkv".to_string(), matroska())];
    world.insert = Err("no primary found".to_string());

    let (run, result) = drive("deadbeef", &mut world);

    assert_eq!(result, Err(Error::Persistence { detail: "no primary found".to_string() }));
    assert_eq!(run.phase(), &Phase::Failed);
    assert_eq!(world.inserts, 1);
    assert_eq!(world.delete_bodies, vec![b"hashes=deadbeef&deleteFiles=false".to_vec()]);
}

#[test]
fn failed_delete_fails_the_run_after_the_store_write() {
    let mut world = world();
    world.files_body = Ok(r#"[{"name":"movie.mkv","size":700000000}]"#.to_string());
    world.samples = vec![("movie.mkv".to_string(), matroska())];
    world.delete = Err("timed out".to_string());
    world.delete_first = true;

    let (run, result) = drive("deadbeef", &mut world);

    assert_eq!(result, Err(Error::Delete { detail: "timed out".to_string() }));
    assert!(run.is_over());
    assert_eq!(world.inserted, vec![("movie.mkv".to_string(), 700000000)]);
}

#[test]
fn failed_login_ends_the_run_before_the_listing() {
    let mut world = world();
    world.login = Ok(LoginReply { set_cookie: None });

    let (run, result) = drive("deadbeef", &mut world);

    assert_eq!(result, Err(Error::Authentication { failure: AuthFailure::MissingCookie }));
    assert_eq!(run.phase(), &Phase::Failed);
    assert_eq!(world.listings, 0);
    assert!(world.delete_bodies.is_empty());
}

#[test]
fn undecodable_listing_ends_the_run_with_the_body() {
    let mut world = world();
    world.files_body = Ok("Forbidden".to_string());

    let (_, result) = drive("deadbeef", &mut world);

    assert_eq!(result, Err(Error::Decode { body: "Forbidden".to_string() }));
    assert!(world.delete_bodies.is_empty());
}

#[test]
fn run_starts_idle_and_keeps_its_hash() {
    let run = Run::new("deadbeef".to_string());

    assert_eq!(run.phase(), &Phase::Idle);
    assert_eq!(run.hash(), "deadbeef");
    assert!(!run.is_over());
}

#[test]
fn steps_follow_each_other() {
    let (run, action) = execute(Run::new("deadbeef".to_string()), Event::Start);
    assert_eq!(action, Action::Login);
    assert_eq!(run.phase(), &Phase::Authenticating);

    let (run, action) = execute(run, Event::LoggedIn(Ok("abc123".to_string())));
    assert_eq!(
        action,
        Action::ListFiles { sid: "abc123".to_string(), hash: "deadbeef".to_string() }
    );
    assert_eq!(run.phase(), &Phase::Listing { sid: "abc123".to_string() });

    let files = vec![TorrentFile { name: "movie.mkv".to_string(), size: 7, is_media: true }];
    let (run, action) = execute(run, Event::Listed(Ok(files.clone())));
    assert_eq!(
        action,
        Action::Complete {
            files,
            sid: "abc123".to_string(),
            hash: "deadbeef".to_string(),
            delete_files: false,
        }
    );
    assert_eq!(run.phase(), &Phase::Completing { recording: true, deleting: true, failure: None });
    assert_eq!(run.hash(), "deadbeef");

    let (run, action) = execute(run, Event::Deleted(Ok(())));
    assert_eq!(action, Action::Wait);
    assert_eq!(run.phase(), &Phase::Completing { recording: true, deleting: false, failure: None });

    let (run, action) = execute(run, Event::Recorded(Ok(())));
    assert_eq!(action, Action::Finish(Ok(())));
    assert_eq!(run.phase(), &Phase::Done);
}

#[test]
fn first_error_is_reported_when_both_fail() {
    let store = Error::Persistence { detail: "write refused".to_string() };
    let client = Error::Delete { detail: "timed out".to_string() };

    let (run, action) = execute(completing("deadbeef"), Event::Recorded(Err(store.clone())));
    assert_eq!(action, Action::Wait);
    assert_eq!(
        run.phase(),
        &Phase::Completing { recording: false, deleting: true, failure: Some(store.clone()) }
    );
    let (run, action) = execute(run, Event::Deleted(Err(client.clone())));
    assert_eq!(action, Action::Finish(Err(store.clone())));
    assert_eq!(run.phase(), &Phase::Failed);

    let (run, action) = execute(completing("deadbeef"), Event::Deleted(Err(client.clone())));
    assert_eq!(action, Action::Wait);
    let (_, action) = execute(run, Event::Recorded(Err(store)));
    assert_eq!(action, Action::Finish(Err(client)));
}

#[test]
fn late_success_does_not_hide_an_error() {
    let store = Error::Persistence { detail: "write refused".to_string() };

    let (run, _) = execute(completing("deadbeef"), Event::Recorded(Err(store.clone())));
    let (run, action) = execute(run, Event::Deleted(Ok(())));

    assert_eq!(action, Action::Finish(Err(store)));
    assert_eq!(run.phase(), &Phase::Failed);
}

#[test]
fn events_out_of_turn_are_ignored() {
    let (run, action) = execute(Run::new("deadbeef".to_string()), Event::Deleted(Ok(())));
    assert_eq!(action, Action::Ignore);
    assert_eq!(run, Run::new("deadbeef".to_string()));

    let (run, _) = execute(run, Event::Start);
    let (run, action) = execute(run, Event::Start);
    assert_eq!(action, Action::Ignore);
    assert_eq!(run.phase(), &Phase::Authenticating);

    let (run, action) = execute(run, Event::Listed(Ok(vec![])));
    assert_eq!(action, Action::Ignore);
    assert_eq!(run.phase(), &Phase::Authenticating);

    let (run, action) = execute(completing("deadbeef"), Event::LoggedIn(Ok("other".to_string())));
    assert_eq!(action, Action::Ignore);
    assert_eq!(run, completing("deadbeef"));
}

#[test]
fn an_outcome_is_taken_once() {
    let (run, _) = execute(completing("deadbeef"), Event::Recorded(Ok(())));
    let (run, action) = execute(run, Event::Recorded(Err(Error::Persistence { detail: "late".to_string() })));

    assert_eq!(action, Action::Ignore);
    assert_eq!(run.phase(), &Phase::Completing { recording: false, deleting: true, failure: None });
}

#[test]
fn a_finished_run_ignores_everything() {
    let (run, _) = execute(completing("deadbeef"), Event::Recorded(Ok(())));
    let (done, _) = execute(run, Event::Deleted(Ok(())));
    let (done, action) = execute(done, Event::Start);
    assert_eq!(action, Action::Ignore);
    assert_eq!(done.phase(), &Phase::Done);

    let error = Error::Transport { detail: "refused".to_string() };
    let (run, _) = execute(Run::new("deadbeef".to_string()), Event::Start);
    let (failed, _) = execute(run, Event::LoggedIn(Err(error)));
    let (failed, action) = execute(failed, Event::Listed(Ok(vec![])));
    assert_eq!(action, Action::Ignore);
    assert_eq!(failed.phase(), &Phase::Failed);
    let (failed, action) = execute(failed, Event::Deleted(Ok(())));
    assert_eq!(action, Action::Ignore);
    assert!(failed.is_over());
}
