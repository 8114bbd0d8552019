use vstd::prelude::*;
use vstd::string::*;

verus! {

/// Why a login reply gave no session.
#[derive(Debug, Clone, Copy, PartialEq, Eq)]
pub enum AuthFailure {
    /// The reply had no `Set-Cookie` header.
    MissingCookie,
    /// The header's value is not plain header text.
    UnreadableCookie,
    /// The header's value names no session cookie.
    MissingSid,
}

/// What ends a run without success.
#[derive(Debug, Clone, PartialEq, Eq)]
pub enum Error {
    /// The login reply carried no usable session cookie.
    Authentication { failure: AuthFailure },
    /// A login or listing request did not get through.
    Transport { detail: String },
    /// The file listing is not the JSON that was asked for; `body` is the reply as received.
    Decode { body: String },
    /// The history store refused the connection or the write.
    Persistence { detail: String },
    /// The delete request did not get through.
    Delete { detail: String },
}

/// The mathematical value of an [`Error`].
pub enum ErrorView {
    Authentication { failure: AuthFailure },
    Transport { detail: Seq<char> },
    Decode { body: Seq<char> },
    Persistence { detail: Seq<char> },
    Delete { detail: Seq<char> },
}

impl View for Error {
    type V = ErrorView;

    open spec fn view(&self) -> ErrorView {
        match *self {
            Error::Authentication { failure } => ErrorView::Authentication { failure },
            Error::Transport { detail } => ErrorView::Transport { detail: detail@ },
            Error::Decode { body } => ErrorView::Decode { body: body@ },
            Error::Persistence { detail } => ErrorView::Persistence { detail: detail@ },
            Error::Delete { detail } => ErrorView::Delete { detail: detail@ },
        }
    }
}

impl DeepView for Error {
    type V = ErrorView;

    open spec fn deep_view(&self) -> ErrorView {
        self@
    }
}

/// The text that [`Error::message`] puts in front of what the error carries.
pub open spec fn message_prefix(error: ErrorView) -> Seq<char> {
    match error {
        ErrorView::Authentication { failure: AuthFailure::MissingCookie } =>
            "could not generate SID, no cookies found in response headers"@,
        ErrorView::Authentication { failure: AuthFailure::UnreadableCookie } =>
            "could not generate SID, the cookie in the response headers is not text"@,
        ErrorView::Authentication { failure: AuthFailure::MissingSid } =>
            "no SID cookie found in response while generating SID"@,
        ErrorView::Transport { .. } => "request failed: "@,
        ErrorView::Decode { .. } => "could not deserialize json: "@,
        ErrorView::Persistence { .. } => "could not update the download history: "@,
        ErrorView::Delete { .. } => "could not delete the torrent: "@,
    }
}

/// What an error carries along: the transport or store detail, or the undecodable body.
pub open spec fn message_payload(error: ErrorView) -> Seq<char> {
    match error {
        ErrorView::Authentication { .. } => Seq::empty(),
        ErrorView::Transport { detail } => detail,
        ErrorView::Decode { body } => body,
        ErrorView::Persistence { detail } => detail,
        ErrorView::Delete { detail } => detail,
    }
}

impl Error {
    /// The reply body that could not be decoded, for a [`Error::Decode`]; nothing for the others.
    pub fn raw_body(&self) -> (body: Option<&String>)
        ensures
            match self@ {
                ErrorView::Decode { body: raw } => body matches Some(b) && b@ == raw,
                _ => body is None,
            },
    {
        match self {
            Error::Decode { body } => Some(body),
            _ => None,
        }
    }

    /// A line for the log: what went wrong, followed by what the error carries.
    pub fn message(&self) -> (text: String)
        ensures
            text@ == message_prefix(self@) + message_payload(self@),
    {
        match self {
            Error::Authentication { failure } => {
                let text = match failure {
                    AuthFailure::MissingCookie => String::from_str(
                        "could not generate SID, no cookies found in response headers",
                    ),
                    AuthFailure::UnreadableCookie => String::from_str(
                        "could not generate SID, the cookie in the response headers is not text",
                    ),
                    AuthFailure::MissingSid => String::from_str(
                        "no SID cookie found in response while generating SID",
                    ),
                };
                assert(text@ + Seq::<char>::empty() =~= text@);
                text
            },
            Error::Transport { detail } => String::from_str("request failed: ").concat(
                detail.as_str(),
            ),
            Error::Decode { body } => String::from_str("could not deserialize json: ").concat(
                body.as_str(),
            ),
            Error::Persistence { detail } => String::from_str(
                "could not update the download history: ",
            ).concat(detail.as_str()),
            Error::Delete { detail } => String::from_str("could not delete the torrent: ").concat(
                detail.as_str(),
            ),
        }
    }
}

} // verus!
