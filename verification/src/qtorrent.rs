use std::sync::Arc;
use vstd::prelude::*;
use vstd::string::*;

use crate::config::Settings;
use crate::error::AuthFailure;
use crate::error::Error;
use crate::error::ErrorView;
use crate::media::is_media_type;
use crate::media::is_video;
use crate::media::sniffed;
use crate::scan::find;
use crate::scan::find_byte;
use crate::scan::first_index_of;
use crate::scan::first_index_of_is;
use crate::scan::first_index_of_is_least;
use crate::scan::first_occurrence;
use crate::scan::first_occurrence_is_least;
use crate::torrents::listing_view;
use crate::torrents::session_view;
use crate::torrents::FilesReply;
use crate::torrents::ListedFileView;
use crate::torrents::LoginReply;
use crate::torrents::LoginReplyView;
use crate::torrents::Request;
use crate::torrents::RequestView;
use crate::torrents::TorrentFile;
use crate::torrents::TorrentFileView;
use crate::torrents::TorrentsHandler;

verus! {

/// The name of the cookie in which qBittorrent hands out and expects the session.
pub const SID_KEY: &'static str = "SID";

/// The torrent client qBittorrent, reached through its web API.
pub struct QTorrentHandler {
    config: Arc<Settings>,
}

/// The bytes that announce the session in a cookie header: the cookie's name and its `=`.
pub open spec fn sid_marker() -> Seq<u8> {
    seq!['S' as u8, 'I' as u8, 'D' as u8, '=' as u8]
}

/// Each byte read as the character of the same number.
pub open spec fn as_chars(bytes: Seq<u8>) -> Seq<char> {
    bytes.map_values(|byte: u8| byte as char)
}

/// Whether a header value is text: visible ASCII and tabs only.
pub open spec fn is_header_text(value: Seq<u8>) -> bool {
    forall|i: int| 0 <= i < value.len() ==> (32 <= #[trigger] value[i] < 127 || value[i] == 9)
}

/// The session token in a cookie header: what stands between the first `SID=` and the next `;`,
/// or the end of the header where no `;` follows. Nothing where the header holds no `SID=`.
pub open spec fn session_token(cookie: Seq<u8>) -> Option<Seq<u8>> {
    match first_occurrence(cookie, sid_marker(), 0) {
        Some(at) => {
            let start = at + sid_marker().len();
            Some(cookie.subrange(start, first_index_of(cookie, ';' as u8, start)))
        },
        None => None,
    }
}

/// A cookie header that is `SID=` and a token holds that token, be the token what it may but
/// for a `;` in it.
pub proof fn token_runs_to_the_end(token: Seq<u8>)
    requires
        !token.contains(';' as u8),
    ensures
        session_token(sid_marker() + token) == Some(token),
{
    let cookie = sid_marker() + token;
    let start = sid_marker().len() as int;
    assert(cookie.subrange(0, start) =~= sid_marker());
    assert forall|at: int| start <= at < cookie.len() implies cookie[at] != ';' as u8 by {
        assert(cookie[at] == token[at - start]);
    }
    first_index_of_is(cookie, ';' as u8, start, cookie.len() as int);
    assert(cookie.subrange(start, cookie.len() as int) =~= token);
}

/// A cookie header that is `SID=`, a token without `;`, a `;` and anything more holds that
/// token: what follows the first `;` plays no part.
pub proof fn token_stops_at_semicolon(token: Seq<u8>, rest: Seq<u8>)
    requires
        !token.contains(';' as u8),
    ensures
        session_token(sid_marker() + token + seq![';' as u8] + rest) == Some(token),
{
    let cookie = sid_marker() + token + seq![';' as u8] + rest;
    let start = sid_marker().len() as int;
    let end = start + token.len();
    assert(cookie.subrange(0, start) =~= sid_marker());
    assert forall|at: int| start <= at < end implies cookie[at] != ';' as u8 by {
        assert(cookie[at] == token[at - start]);
    }
    first_index_of_is(cookie, ';' as u8, start, end);
    assert(cookie.subrange(start, end) =~= token);
}

/// The session that a login reply carries, or why it carries none.
pub open spec fn session_of(reply: LoginReplyView) -> Result<Seq<char>, ErrorView> {
    match reply.set_cookie {
        None => Err(ErrorView::Authentication { failure: AuthFailure::MissingCookie }),
        Some(value) => if !is_header_text(value) {
            Err(ErrorView::Authentication { failure: AuthFailure::UnreadableCookie })
        } else {
            match session_token(value) {
                None => Err(ErrorView::Authentication { failure: AuthFailure::MissingSid }),
                Some(token) => Ok(as_chars(token)),
            }
        },
    }
}

/// What a login comes to: a transport error where the request did not get through, else what
/// the reply holds.
pub open spec fn login_outcome(sent: Result<LoginReply, String>) -> Result<Seq<char>, ErrorView> {
    match sent {
        Err(detail) => Err(ErrorView::Transport { detail: detail@ }),
        Ok(reply) => session_of(reply@),
    }
}

/// The login request for the given settings: the credentials as a form, no cookie.
pub open spec fn login_request_of(settings: Settings) -> RequestView {
    RequestView {
        url: settings.torrent_web_ui.base_url@ + "/api/v2/auth/login"@,
        cookie: None,
        form: seq![
            ("username"@, settings.torrent_web_ui.username@),
            ("password"@, settings.torrent_web_ui.password@),
        ],
    }
}

/// The value of the `Cookie` header that carries a session back to the client.
pub open spec fn session_cookie(sid: Seq<char>) -> Seq<char> {
    SID_KEY@ + "="@ + sid
}

/// The request for the files of a torrent: the hash as a form, the session as a cookie.
pub open spec fn files_request_of(settings: Settings, sid: Seq<char>, hash: Seq<char>)
    -> RequestView {
    RequestView {
        url: settings.torrent_web_ui.base_url@ + "/api/v2/torrents/files"@,
        cookie: Some(session_cookie(sid)),
        form: seq![("hash"@, hash)],
    }
}

/// The request that removes a torrent: the hash and the flag for the files on disk as a form,
/// the session as a cookie.
pub open spec fn delete_request_of(
    settings: Settings,
    sid: Seq<char>,
    hash: Seq<char>,
    delete_files: bool,
) -> RequestView {
    RequestView {
        url: settings.torrent_web_ui.base_url@ + "/api/v2/torrents/delete"@,
        cookie: Some(session_cookie(sid)),
        form: seq![
            ("hashes"@, hash),
            ("deleteFiles"@, if delete_files { "true"@ } else { "false"@ }),
        ],
    }
}

/// A listed file with its media flag decided: media where the type sniffed from its sample is
/// on the list of allowed types or under `video/`.
pub open spec fn classified(entry: ListedFileView, allowed: Seq<Seq<char>>) -> TorrentFileView {
    TorrentFileView {
        name: entry.name,
        size: entry.size,
        is_media: is_media_type(sniffed(entry.sample), allowed),
    }
}

/// What a listing comes to: a transport error where the request did not get through, a decode
/// error with the body where the body did not decode, else every listed file, classified.
pub open spec fn listing_outcome(sent: Result<FilesReply, String>, allowed: Seq<Seq<char>>)
    -> Result<Seq<TorrentFileView>, ErrorView> {
    match sent {
        Err(detail) => Err(ErrorView::Transport { detail: detail@ }),
        Ok(reply) => match reply@.listing {
            None => Err(ErrorView::Decode { body: reply@.body }),
            Some(entries) => Ok(
                entries.map_values(|entry: ListedFileView| classified(entry, allowed)),
            ),
        },
    }
}

/// `HeaderValue::from_bytes` followed by `HeaderValue::to_str`, of the crate `http` that
/// `reqwest` hands on: the value as a string where every byte is visible ASCII or a tab, each
/// byte then being one character; nothing where any other byte occurs.
#[verifier::external_body]
fn header_text(value: &[u8]) -> (text: Option<String>)
    ensures
        text is Some <==> is_header_text(value@),
        text matches Some(t) ==> t@ == as_chars(value@),
{
    match reqwest::header::HeaderValue::from_bytes(value) {
        Ok(header) => match header.to_str() {
            Ok(text) => Some(text.to_string()),
            Err(_) => None,
        },
        Err(_) => None,
    }
}

impl QTorrentHandler {
    /// The settings that the handler works with.
    pub closed spec fn settings(&self) -> Settings {
        *self.config
    }

    /// A handler for the client that the settings describe.
    pub fn new(config: Arc<Settings>) -> (handler: QTorrentHandler)
        ensures
            handler.settings() == *config,
    {
        QTorrentHandler { config }
    }
}

impl QTorrentHandler {
    /// The `Cookie` header for a session.
    fn cookie_for(sid: &str) -> (cookie: String)
        ensures
            cookie@ == session_cookie(sid@),
    {
        String::from_str(SID_KEY).concat("=").concat(sid)
    }

    /// The address of an operation: the configured base followed by the operation's path.
    fn address(&self, path: &str) -> (url: String)
        ensures
            url@ == self.settings().torrent_web_ui.base_url@ + path@,
    {
        let mut url = self.config.torrent_web_ui.base_url.clone();
        url.append(path);
        url
    }
}

impl TorrentsHandler for QTorrentHandler {
    fn login_request(&self) -> (request: Request)
        ensures
            request@ == login_request_of(self.settings()),
    {
        let url = self.address("/api/v2/auth/login");
        let mut form: Vec<(String, String)> = Vec::new();
        form.push((String::from_str("username"), self.config.torrent_web_ui.username.clone()));
        form.push((String::from_str("password"), self.config.torrent_web_ui.password.clone()));
        let request = Request { url, cookie: None, form };
        assert(request@.form =~= login_request_of(self.settings()).form);
        request
    }

    fn generate_sid(&self, sent: Result<LoginReply, String>) -> (session: Result<String, Error>)
        ensures
            session_view(session) == login_outcome(sent),
    {
        let reply = match sent {
            Ok(reply) => reply,
            Err(detail) => {
                return Err(Error::Transport { detail });
            },
        };
        let value = match reply.set_cookie {
            Some(value) => value,
            None => {
                return Err(Error::Authentication { failure: AuthFailure::MissingCookie });
            },
        };
        let text = match header_text(value.as_slice()) {
            Some(text) => text,
            None => {
                return Err(Error::Authentication { failure: AuthFailure::UnreadableCookie });
            },
        };
        let marker: [u8; 4] = ['S' as u8, 'I' as u8, 'D' as u8, '=' as u8];
        assert(marker@ =~= sid_marker());
        let at = match find(value.as_slice(), marker.as_slice(), 0) {
            Some(at) => at,
            None => {
                return Err(Error::Authentication { failure: AuthFailure::MissingSid });
            },
        };
        proof {
            first_occurrence_is_least(value@, sid_marker(), 0);
            assert(at + sid_marker().len() <= value@.len());
        }
        let start = at + marker.len();
        let end = find_byte(value.as_slice(), ';' as u8, start);
        proof {
            first_index_of_is_least(value@, ';' as u8, start as int);
            assert(text@.subrange(start as int, end as int) =~= as_chars(
                value@.subrange(start as int, end as int),
            ));
        }
        Ok(text.as_str().substring_ascii(start, end).to_owned())
    }

    fn files_request(&self, sid: &str, hash: &str) -> (request: Request)
        ensures
            request@ == files_request_of(self.settings(), sid@, hash@),
    {
        let url = self.address("/api/v2/torrents/files");
        let mut form: Vec<(String, String)> = Vec::new();
        form.push((String::from_str("hash"), String::from_str(hash)));
        let request = Request { url, cookie: Some(Self::cookie_for(sid)), form };
        assert(request@.form =~= files_request_of(self.settings(), sid@, hash@).form);
        request
    }

    fn list_files(&self, sent: Result<FilesReply, String>) -> (listing: Result<
        Vec<TorrentFile>,
        Error,
    >)
        ensures
            listing_view(listing) == listing_outcome(
                sent,
                self.settings().video_mime_types.deep_view(),
            ),
    {
        let reply = match sent {
            Ok(reply) => reply,
            Err(detail) => {
                return Err(Error::Transport { detail });
            },
        };
        let entries = match reply.listing {
            Some(entries) => entries,
            None => {
                return Err(Error::Decode { body: reply.body });
            },
        };
        let ghost allowed = self.settings().video_mime_types.deep_view();
        let mut files: Vec<TorrentFile> = Vec::new();
        let mut i: usize = 0;
        while i < entries.len()
            invariant
                i <= entries.len(),
                allowed == self.settings().video_mime_types.deep_view(),
                files.len() == i,
                forall|k: int|
                    0 <= k < i ==> (#[trigger] files[k])@ == classified(entries[k]@, allowed),
            decreases entries.len() - i,
        {
            let entry = &entries[i];
            let is_media = is_video(&entry.sample, &self.config);
            files.push(TorrentFile { name: entry.name.clone(), size: entry.size, is_media });
            i += 1;
        }
        assert(files.deep_view() =~= entries.deep_view().map_values(
            |entry: ListedFileView| classified(entry, allowed),
        ));
        Ok(files)
    }

    fn delete_request(&self, sid: &str, hash: &str, delete_files: bool) -> (request: Request)
        ensures
            request@ == delete_request_of(self.settings(), sid@, hash@, delete_files),
    {
        let url = self.address("/api/v2/torrents/delete");
        let flag = if delete_files {
            String::from_str("true")
        } else {
            String::from_str("false")
        };
        let mut form: Vec<(String, String)> = Vec::new();
        form.push((String::from_str("hashes"), String::from_str(hash)));
        form.push((String::from_str("deleteFiles"), flag));
        let request = Request { url, cookie: Some(Self::cookie_for(sid)), form };
        assert(request@.form =~= delete_request_of(
            self.settings(),
            sid@,
            hash@,
            delete_files,
        ).form);
        request
    }

    fn delete(&self, sent: Result<(), String>) -> (outcome: Result<(), Error>) {
        match sent {
            Ok(()) => Ok(()),
            Err(detail) => Err(Error::Delete { detail }),
        }
    }
}

} // verus!
