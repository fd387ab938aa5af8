use vstd::prelude::*;
use crate::composer::StoredFile;
use crate::weburl::{url_parts, Url};

verus! {

/// A downloadable file as a chat message describes it: an opaque identifier
/// and, when known, its size in bytes.
pub struct FileRef {
    pub file_id: String,
    pub file_size: Option<i64>,
}

/// What a chat message carries.
pub enum MessageType {
    Text(String),
    /// The sizes of one photo, smallest first.
    Photo(Vec<FileRef>),
    Sticker(FileRef),
    Document(FileRef),
    Audio(FileRef),
    Video(FileRef),
    Voice(FileRef),
    Other,
}

/// An attachment to relay: its identifier and its size in bytes.
pub struct TGFile {
    pub file_id: String,
    pub file_size: i64,
}

/// Where the content to relay comes from.
pub enum RelaySource {
    /// A file attached to the message, to be resolved through the bot API.
    Upload(TGFile),
    /// A URL sent as the message's text.
    Rehost(Url),
}

/// Why fetching a source failed.
pub enum FetchError {
    Network,
    Http,
    FileSystem,
}

/// The attachment a message carries: the largest size of a photo (the last
/// one), or the file of a sticker, document, audio, video or voice message.
pub open spec fn attachment_of(msg: MessageType) -> Option<FileRef> {
    match msg {
        MessageType::Photo(sizes) => if sizes@.len() > 0 {
            Some(sizes@.last())
        } else {
            None
        },
        MessageType::Sticker(f) => Some(f),
        MessageType::Document(f) => Some(f),
        MessageType::Audio(f) => Some(f),
        MessageType::Video(f) => Some(f),
        MessageType::Voice(f) => Some(f),
        _ => None,
    }
}

/// `r` is what `TGFile::from_message` owes for `msg`: the message's
/// attachment, when it has one whose size is known.
pub open spec fn is_tgfile_of(r: Option<TGFile>, msg: MessageType) -> bool {
    match attachment_of(msg) {
        Some(f) => match f.file_size {
            Some(size) => r matches Some(t) && t.file_id@ == f.file_id@ && t.file_size == size,
            None => r is None,
        },
        None => r is None,
    }
}

/// `r` is what `relay_source` owes for `msg`: the attachment, or for a text
/// that parses as an absolute URL that URL, or nothing.
pub open spec fn is_source_of(r: Option<RelaySource>, msg: MessageType) -> bool {
    match msg {
        MessageType::Text(t) => match url_parts(t@) {
            Some(parts) => r matches Some(RelaySource::Rehost(u)) && parts == (
                u.prefix@,
                u.segs(),
                u.suffix@,
            ),
            None => r is None,
        },
        _ => match r {
            Some(RelaySource::Upload(f)) => is_tgfile_of(Some(f), msg),
            Some(RelaySource::Rehost(_)) => false,
            None => is_tgfile_of(None, msg),
        },
    }
}

fn tgfile(f: FileRef) -> (r: Option<TGFile>)
    ensures
        match f.file_size {
            Some(size) => r matches Some(t) && t.file_id@ == f.file_id@ && t.file_size == size,
            None => r is None,
        },
{
    match f.file_size {
        Some(size) => Some(TGFile { file_id: f.file_id, file_size: size }),
        None => None,
    }
}

impl TGFile {
    /// The attachment of a message, when it has one whose size is known.
    pub fn from_message(msg: MessageType) -> (r: Option<TGFile>)
        ensures
            is_tgfile_of(r, msg),
    {
        match msg {
            MessageType::Photo(sizes) => {
                let mut sizes = sizes;
                match sizes.pop() {
                    Some(largest) => tgfile(largest),
                    None => None,
                }
            },
            MessageType::Sticker(f) => tgfile(f),
            MessageType::Document(f) => tgfile(f),
            MessageType::Audio(f) => tgfile(f),
            MessageType::Video(f) => tgfile(f),
            MessageType::Voice(f) => tgfile(f),
            _ => None,
        }
    }
}

/// What to relay for a message: its attachment, or the URL its text holds;
/// nothing for a text that is no absolute URL, which is no error.
pub fn relay_source(msg: MessageType) -> (r: Option<RelaySource>)
    ensures
        is_source_of(r, msg),
{
    match msg {
        MessageType::Text(t) => match Url::parse(t.as_str()) {
            Some(u) => Some(RelaySource::Rehost(u)),
            None => None,
        },
        other => match TGFile::from_message(other) {
            Some(f) => Some(RelaySource::Upload(f)),
            None => None,
        },
    }
}

/// The reply that a relay attempt earns: the public URL of the stored file
/// when the fetch succeeded, and no reply when it failed.
pub fn reply_text(stored: &StoredFile, outcome: &Result<(), FetchError>) -> (r: Option<String>)
    ensures
        outcome is Ok <==> r is Some,
        r matches Some(t) ==> t@ == stored.public_url.text(),
{
    match outcome {
        Ok(()) => Some(stored.public_url.serialize()),
        Err(_) => None,
    }
}

/// A text that does not parse as an absolute URL gives nothing to relay:
/// whatever `relay_source` returns for it is `None`, so nothing is fetched,
/// stored or answered for it.
pub proof fn law_text_without_url_relays_nothing(t: String, r: Option<RelaySource>)
    requires
        url_parts(t@) is None,
        is_source_of(r, MessageType::Text(t)),
    ensures
        r is None,
{
}

} // verus!
