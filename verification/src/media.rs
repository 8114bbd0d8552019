use vstd::prelude::*;
use vstd::string::*;

use crate::config::Settings;
use crate::torrents::bytes_view;

verus! {

/// The MIME type that `infer::get` reads off the given leading bytes of a file, if it knows one.
pub uninterp spec fn sniffed_mime(content: Seq<u8>) -> Option<Seq<char>>;

/// What sniffing makes of a sample: nothing where the file could not be read.
pub open spec fn sniffed(sample: Option<Seq<u8>>) -> Option<Seq<char>> {
    match sample {
        Some(content) => sniffed_mime(content),
        None => None,
    }
}

/// Whether a sniffed type makes a file media: it is on the list of allowed types as it stands,
/// or it is a type under `video/`. A file of no known type is no media.
pub open spec fn is_media_type(mime: Option<Seq<char>>, allowed: Seq<Seq<char>>) -> bool {
    match mime {
        Some(mime) => allowed.contains(mime) || "video/"@.is_prefix_of(mime),
        None => false,
    }
}

/// Every type under `video/` is media, whatever the list of allowed types holds.
pub proof fn video_types_are_media(mime: Seq<char>, allowed: Seq<Seq<char>>)
    requires
        "video/"@.is_prefix_of(mime),
    ensures
        is_media_type(Some(mime), allowed),
{
}

/// A type that is on the list of allowed types is media, whether or not it is under `video/`.
pub proof fn allowed_types_are_media(mime: Seq<char>, allowed: Seq<Seq<char>>)
    requires
        allowed.contains(mime),
    ensures
        is_media_type(Some(mime), allowed),
{
}

/// Without a sniffed type nothing is media: neither a file that could not be read nor one whose
/// content tells no type.
pub proof fn unknown_types_are_not_media(sample: Option<Seq<u8>>, allowed: Seq<Seq<char>>)
    ensures
        !is_media_type(None, allowed),
        sample is None ==> !is_media_type(sniffed(sample), allowed),
        sample matches Some(content) && sniffed_mime(content) is None ==> !is_media_type(
            sniffed(sample),
            allowed,
        ),
{
}

/// `infer::get`, with `Type::mime_type` on what it finds: the MIME type of the first of the
/// crate's matchers that accepts the bytes, which depends on the bytes alone.
#[verifier::external_body]
fn sniff(content: &[u8]) -> (mime: Option<String>)
    ensures
        mime.deep_view() == sniffed_mime(content@),
{
    infer::get(content).map(|kind| kind.mime_type().to_string())
}

/// Decides whether a file of the given sniffed type is media.
pub fn classify(mime: Option<&str>, allowed: &Vec<String>) -> (media: bool)
    ensures
        media == is_media_type(mime.deep_view(), allowed.deep_view()),
{
    let text = match mime {
        Some(text) => text,
        None => {
            return false;
        },
    };
    let owned = text.to_owned();
    let mut i: usize = 0;
    while i < allowed.len()
        invariant
            i <= allowed.len(),
            mime == Some(text),
            owned@ == text@,
            forall|k: int| 0 <= k < i ==> allowed.deep_view()[k] != text@,
        decreases allowed.len() - i,
    {
        if allowed[i] == owned {
            assert(allowed.deep_view()[i as int] == text@);
            return true;
        }
        i += 1;
    }
    proof {
        reveal_strlit("video/");
    }
    if text.unicode_len() < 6 {
        return false;
    }
    let head = text.substring_char(0, 6).to_owned();
    let video = "video/".to_owned();
    head == video
}

/// Decides whether a file is media from its leading bytes: sniffs their type and classifies it
/// against the configured list. A file that could not be read is no media.
pub fn is_video(sample: &Option<Vec<u8>>, config: &Settings) -> (media: bool)
    ensures
        media == is_media_type(sniffed(bytes_view(*sample)), config.video_mime_types.deep_view()),
{
    match sample {
        Some(content) => match sniff(content.as_slice()) {
            Some(mime) => classify(Some(mime.as_str()), &config.video_mime_types),
            None => false,
        },
        None => false,
    }
}

} // verus!
