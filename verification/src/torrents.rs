use vstd::prelude::*;

use crate::error::AuthFailure;
use crate::error::Error;
use crate::error::ErrorView;

verus! {

/// A file of a torrent, as the torrent client lists it.
#[derive(Debug, Clone, PartialEq, Eq)]
pub struct TorrentFile {
    /// Path of the file below the download root.
    pub name: String,
    /// Size in bytes.
    pub size: u64,
    /// Whether the content on disk is media worth a history record.
    pub is_media: bool,
}

/// The mathematical value of a [`TorrentFile`].
pub struct TorrentFileView {
    pub name: Seq<char>,
    pub size: u64,
    pub is_media: bool,
}

impl View for TorrentFile {
    type V = TorrentFileView;

    open spec fn view(&self) -> TorrentFileView {
        TorrentFileView { name: self.name@, size: self.size, is_media: self.is_media }
    }
}

impl DeepView for TorrentFile {
    type V = TorrentFileView;

    open spec fn deep_view(&self) -> TorrentFileView {
        self@
    }
}

/// A form-encoded POST request to the torrent client.
#[derive(Debug, Clone, PartialEq, Eq)]
pub struct Request {
    pub url: String,
    /// The value of the `Cookie` header, where the request carries a session.
    pub cookie: Option<String>,
    /// The form's fields, in the order in which they are sent.
    pub form: Vec<(String, String)>,
}

/// The mathematical value of a [`Request`].
pub struct RequestView {
    pub url: Seq<char>,
    pub cookie: Option<Seq<char>>,
    pub form: Seq<(Seq<char>, Seq<char>)>,
}

impl View for Request {
    type V = RequestView;

    open spec fn view(&self) -> RequestView {
        RequestView {
            url: self.url@,
            cookie: self.cookie.deep_view(),
            form: self.form.deep_view(),
        }
    }
}

/// The bytes of an optional buffer.
pub open spec fn bytes_view(bytes: Option<Vec<u8>>) -> Option<Seq<u8>> {
    match bytes {
        Some(bytes) => Some(bytes@),
        None => None,
    }
}

/// What the login reply holds of interest: the value of its first `Set-Cookie` header.
#[derive(Debug, Clone, PartialEq, Eq)]
pub struct LoginReply {
    pub set_cookie: Option<Vec<u8>>,
}

/// The mathematical value of a [`LoginReply`].
pub struct LoginReplyView {
    pub set_cookie: Option<Seq<u8>>,
}

impl View for LoginReply {
    type V = LoginReplyView;

    open spec fn view(&self) -> LoginReplyView {
        LoginReplyView { set_cookie: bytes_view(self.set_cookie) }
    }
}

/// One entry of a decoded file listing, with the first bytes of the file as found on disk.
#[derive(Debug, Clone, PartialEq, Eq)]
pub struct ListedFile {
    pub name: String,
    pub size: u64,
    /// The leading bytes of the file below the download root; nothing where it could not be read.
    pub sample: Option<Vec<u8>>,
}

/// The mathematical value of a [`ListedFile`].
pub struct ListedFileView {
    pub name: Seq<char>,
    pub size: u64,
    pub sample: Option<Seq<u8>>,
}

impl View for ListedFile {
    type V = ListedFileView;

    open spec fn view(&self) -> ListedFileView {
        ListedFileView { name: self.name@, size: self.size, sample: bytes_view(self.sample) }
    }
}

impl DeepView for ListedFile {
    type V = ListedFileView;

    open spec fn deep_view(&self) -> ListedFileView {
        self@
    }
}

/// The reply to a listing request: its body, and the entries where the body decoded.
#[derive(Debug, Clone, PartialEq, Eq)]
pub struct FilesReply {
    pub body: String,
    pub listing: Option<Vec<ListedFile>>,
}

/// The mathematical value of a [`FilesReply`].
pub struct FilesReplyView {
    pub body: Seq<char>,
    pub listing: Option<Seq<ListedFileView>>,
}

impl View for FilesReply {
    type V = FilesReplyView;

    open spec fn view(&self) -> FilesReplyView {
        FilesReplyView { body: self.body@, listing: self.listing.deep_view() }
    }
}

/// The value of a session or of the failure to get one.
pub open spec fn session_view(outcome: Result<String, Error>) -> Result<Seq<char>, ErrorView> {
    match outcome {
        Ok(sid) => Ok(sid@),
        Err(error) => Err(error@),
    }
}

/// The value of a classified listing or of the failure to get one.
pub open spec fn listing_view(outcome: Result<Vec<TorrentFile>, Error>) -> Result<
    Seq<TorrentFileView>,
    ErrorView,
> {
    match outcome {
        Ok(files) => Ok(files.deep_view()),
        Err(error) => Err(error@),
    }
}

/// The value of a step that returns nothing, or of its failure.
pub open spec fn done_view(outcome: Result<(), Error>) -> Result<(), ErrorView> {
    match outcome {
        Ok(()) => Ok(()),
        Err(error) => Err(error@),
    }
}

/// The remote control of a torrent client, as far as a removal needs it: what to send for each
/// of its three operations, and what the answer means.
///
/// Sending is the caller's part. Each `Err` that is handed in says why a request did not get
/// through.
pub trait TorrentsHandler {
    /// The request that asks for a session.
    fn login_request(&self) -> (request: Request)
        ensures
            request.cookie is None,
    ;

    /// The session that the login reply carries. A request that did not get through is a
    /// transport error, and a reply without a cookie header never yields a session.
    fn generate_sid(&self, sent: Result<LoginReply, String>) -> (session: Result<String, Error>)
        ensures
            sent matches Err(detail) ==> session_view(session) == Err::<Seq<char>, ErrorView>(
                ErrorView::Transport { detail: detail@ },
            ),
            sent matches Ok(reply) && reply.set_cookie is None ==> session_view(session) == Err::<
                Seq<char>,
                ErrorView,
            >(ErrorView::Authentication { failure: AuthFailure::MissingCookie }),
    ;

    /// The request that asks for the files of a torrent, within a session.
    fn files_request(&self, sid: &str, hash: &str) -> (request: Request)
        ensures
            request.cookie is Some,
    ;

    /// The files of the reply, each with its media flag decided. A request that did not get
    /// through is a transport error; a body that did not decode is a decode error that holds
    /// the body; a listing that decoded comes back file by file, in its order.
    fn list_files(&self, sent: Result<FilesReply, String>) -> (listing: Result<
        Vec<TorrentFile>,
        Error,
    >)
        ensures
            match sent {
                Err(detail) => listing_view(listing) == Err::<Seq<TorrentFileView>, ErrorView>(
                    ErrorView::Transport { detail: detail@ },
                ),
                Ok(reply) => match reply.listing {
                    None => listing_view(listing) == Err::<Seq<TorrentFileView>, ErrorView>(
                        ErrorView::Decode { body: reply.body@ },
                    ),
                    Some(entries) => {
                        &&& listing matches Ok(files)
                        &&& files.len() == entries.len()
                        &&& forall|i: int|
                            0 <= i < files.len() ==> {
                                &&& (#[trigger] files[i]).name@ == entries[i].name@
                                &&& files[i].size == entries[i].size
                            }
                    },
                },
            },
    ;

    /// The request that removes a torrent, within a session, with or without its files on disk.
    fn delete_request(&self, sid: &str, hash: &str, delete_files: bool) -> (request: Request)
        ensures
            request.cookie is Some,
    ;

    /// What came of the delete request: that it did not get through is a delete error, and
    /// nothing else is asked of the reply.
    fn delete(&self, sent: Result<(), String>) -> (outcome: Result<(), Error>)
        ensures
            done_view(outcome) == match sent {
                Ok(()) => Ok::<(), ErrorView>(()),
                Err(detail) => Err::<(), ErrorView>(ErrorView::Delete { detail: detail@ }),
            },
    ;
}

} // verus!
