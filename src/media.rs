use vstd::prelude::*;
use vstd::string::{StrSliceExecFns, StringExecFns};

verus! {

/// The largest file, in bytes, that the bot platform lets a bot download directly.
pub const MAX_INLINE_SIZE: u64 = 20 * 1024 * 1024;

/// How an image reached the bot.
#[derive(Clone, Copy, Debug, PartialEq, Eq, Structural)]
pub enum ReceivedImage {
    /// Sent as a file, with its metadata intact.
    Document,
}

/// How an image is fetched.
#[derive(Debug)]
pub enum ImageSelection {
    /// Downloaded directly.
    Inline { file_id: String, media_kind: ReceivedImage },
    /// Over the size limit: downloaded through the secondary client.
    TooLarge { file_id: String, media_kind: ReceivedImage, size: u64 },
}

/// Chooses the download path from the reported size: an unknown size or one
/// within `MAX_INLINE_SIZE` is fetched inline, a larger one the other way.
pub fn select_image(file_id: String, media_kind: ReceivedImage, size: Option<u64>) -> (r: ImageSelection)
    ensures
        match size {
            Some(n) if n > MAX_INLINE_SIZE => r == (ImageSelection::TooLarge { file_id, media_kind, size: n }),
            _ => r == (ImageSelection::Inline { file_id, media_kind }),
        },
{
    if let Some(n) = size {
        if n > MAX_INLINE_SIZE {
            return ImageSelection::TooLarge { file_id, media_kind, size: n };
        }
    }
    ImageSelection::Inline { file_id, media_kind }
}

/// What a message carries, as far as the bot cares.
#[derive(Debug)]
pub enum IncomingMedia {
    /// A compressed photo, stripped of its metadata by the platform.
    Photo,
    /// A file, with the essence of its MIME type and its size when known.
    Document { mime: Option<String>, file_id: String, size: Option<u64> },
    /// Anything else.
    Other,
}

/// `s` starts with `image/`.
pub open spec fn is_image_type(s: Seq<char>) -> bool {
    s.len() >= 6 && s.subrange(0, 6) == seq!['i', 'm', 'a', 'g', 'e', '/']
}

fn starts_with_image(s: &str) -> (r: bool)
    ensures
        r == is_image_type(s@),
{
    let n = s.unicode_len();
    if n < 6 {
        return false;
    }
    let r = s.get_char(0) == 'i' && s.get_char(1) == 'm' && s.get_char(2) == 'a' && s.get_char(3) == 'g'
        && s.get_char(4) == 'e' && s.get_char(5) == '/';
    assert(r == (s@.subrange(0, 6) =~= seq!['i', 'm', 'a', 'g', 'e', '/']));
    r
}

/// The image of a message: a document whose MIME type is an image type.
pub fn image_file_id(media: IncomingMedia) -> (r: Option<ImageSelection>)
    ensures
        match media {
            IncomingMedia::Document { mime: Some(m), file_id, size } if is_image_type(m@) => match size {
                Some(n) if n > MAX_INLINE_SIZE => r == Some(ImageSelection::TooLarge {
                    file_id,
                    media_kind: ReceivedImage::Document,
                    size: n,
                }),
                _ => r == Some(ImageSelection::Inline { file_id, media_kind: ReceivedImage::Document }),
            },
            _ => r.is_none(),
        },
{
    match media {
        IncomingMedia::Document { mime: Some(m), file_id, size } => {
            if starts_with_image(m.as_str()) {
                Some(select_image(file_id, ReceivedImage::Document, size))
            } else {
                None
            }
        },
        _ => None,
    }
}

/// What the bot answers to a message.
#[derive(Debug)]
pub enum Reply {
    /// Ask for the image to be sent again as a file.
    ResendAsDocument,
    /// Fetch the image and caption it.
    Process(ImageSelection),
    /// Ask for an image.
    RequestImage,
}

/// Decides the answer: photos are refused, image files are processed, the
/// rest is answered with a request for an image.
pub fn plan_reply(media: IncomingMedia) -> (r: Reply)
    ensures
        media is Photo ==> r is ResendAsDocument,
        media is Other ==> r is RequestImage,
        match media {
            IncomingMedia::Document { mime: Some(m), file_id, size } if is_image_type(m@) => r == Reply::Process(
                match size {
                    Some(n) if n > MAX_INLINE_SIZE => ImageSelection::TooLarge {
                        file_id,
                        media_kind: ReceivedImage::Document,
                        size: n,
                    },
                    _ => ImageSelection::Inline { file_id, media_kind: ReceivedImage::Document },
                },
            ),
            IncomingMedia::Document { .. } => r is RequestImage,
            _ => true,
        },
{
    match media {
        IncomingMedia::Photo => Reply::ResendAsDocument,
        m => match image_file_id(m) {
            Some(sel) => Reply::Process(sel),
            None => Reply::RequestImage,
        },
    }
}

/// `c` is the letter `lower` or its upper-case form `upper`.
pub open spec fn ascii_fold_eq(c: char, lower: char, upper: char) -> bool {
    c == lower || c == upper
}

/// A language tag names Chinese in its simplified form: `zh`, or `zh-` and a
/// subtag, case and `_` ignored.
pub open spec fn is_zh_tag(s: Seq<char>) -> bool {
    &&& s.len() >= 2
    &&& ascii_fold_eq(s[0], 'z', 'Z')
    &&& ascii_fold_eq(s[1], 'h', 'H')
    &&& (s.len() == 2 || s[2] == '-' || s[2] == '_')
}

/// The locale of the bot's own messages for a language tag: `zh-CN` for
/// Chinese, else `en`.
pub open spec fn locale_for(code: Option<Seq<char>>) -> Seq<char> {
    match code {
        Some(c) if is_zh_tag(crate::strings::trim(c, crate::strings::Strip::Space)) => "zh-CN"@,
        _ => "en"@,
    }
}

/// A normalised tag (lower case, `-` as separator) is `zh` or starts with `zh-`.
pub fn is_simplified_chinese_code(code: &str) -> (r: bool)
    ensures
        r == (code@ == seq!['z', 'h'] || (code@.len() >= 3 && code@.subrange(0, 3) == seq!['z', 'h', '-'])),
{
    let n = code.unicode_len();
    if n < 2 || code.get_char(0) != 'z' || code.get_char(1) != 'h' {
        assert(n >= 3 ==> code@.subrange(0, 3)[0] == code@[0] && code@.subrange(0, 3)[1] == code@[1]);
        return false;
    }
    if n == 2 {
        assert(code@ =~= seq!['z', 'h']);
        return true;
    }
    let r = code.get_char(2) == '-';
    assert(r == (code@.subrange(0, 3) =~= seq!['z', 'h', '-']));
    r
}

/// The locale of the bot's messages for the user's language tag.
pub fn locale_from_language_code(language_code: Option<&str>) -> (r: &'static str)
    ensures
        r@ == locale_for(match language_code {
            Some(c) => Some(c@),
            None => None,
        }),
{
    let zh = match language_code {
        Some(code) => {
            let t = crate::strings::trimmed(code, crate::strings::Strip::Space, true);
            let n = t.unicode_len();
            n >= 2 && (t.get_char(0) == 'z' || t.get_char(0) == 'Z') && (t.get_char(1) == 'h' || t.get_char(1) == 'H')
                && (n == 2 || t.get_char(2) == '-' || t.get_char(2) == '_')
        },
        None => false,
    };
    if zh { "zh-CN" } else { "en" }
}

/// A file name that no other download shares: chat, message and time.
pub open spec fn temp_file_text(chat_id: i64, message_id: i32, millis: u64, ext: Seq<char>) -> Seq<char> {
    "tmp-"@ + crate::text::signed_decimal(chat_id as int) + "-"@ + crate::text::signed_decimal(message_id as int)
        + "-"@ + crate::text::decimal(millis as nat) + "."@ + ext
}

/// The name of the cache file of a large download.
pub fn temp_file_name(chat_id: i64, message_id: i32, millis: u64, ext: &str) -> (r: String)
    ensures
        r@ == temp_file_text(chat_id, message_id, millis, ext@),
{
    let mut s = String::from_str("tmp-");
    crate::text::push_signed(&mut s, chat_id as i128);
    s.append("-");
    crate::text::push_signed(&mut s, message_id as i128);
    s.append("-");
    crate::text::push_decimal(&mut s, millis as u128);
    s.append(".");
    s.append(ext);
    assert(s@ =~= temp_file_text(chat_id, message_id, millis, ext@));
    s
}

/// What happened while looking for the conversation of a large file on the
/// secondary client.
#[derive(Clone, Copy, Debug, PartialEq, Eq, Structural)]
pub enum PeerEvent {
    /// The search begins; the chat may have a username.
    Started { has_username: bool },
    /// The username lookup answered.
    UsernameLookup { found: bool },
    /// The next visible conversation, with its numeric id where it has one.
    Dialog { id: Option<i64> },
    /// No visible conversation is left.
    DialogsExhausted,
}

/// What to do next in that search.
#[derive(Clone, Copy, Debug, PartialEq, Eq, Structural)]
pub enum PeerAction {
    /// Look the username up.
    ResolveUsername,
    /// Fetch the next visible conversation.
    NextDialog,
    /// Use the peer that the username lookup found.
    UseResolved,
    /// Use the conversation just seen.
    UseDialog,
    /// The conversation cannot be found: fail the request.
    NotFound,
}

/// One step of the search for the conversation `chat_id`: by username first
/// when there is one, then by scanning the visible conversations for the
/// same id, and failure when none matches.
pub fn peer_step(event: PeerEvent, chat_id: i64) -> (r: PeerAction)
    ensures
        r == (match event {
            PeerEvent::Started { has_username } => if has_username {
                PeerAction::ResolveUsername
            } else {
                PeerAction::NextDialog
            },
            PeerEvent::UsernameLookup { found } => if found {
                PeerAction::UseResolved
            } else {
                PeerAction::NextDialog
            },
            PeerEvent::Dialog { id } => if id == Some(chat_id) {
                PeerAction::UseDialog
            } else {
                PeerAction::NextDialog
            },
            PeerEvent::DialogsExhausted => PeerAction::NotFound,
        }),
{
    match event {
        PeerEvent::Started { has_username } => if has_username {
            PeerAction::ResolveUsername
        } else {
            PeerAction::NextDialog
        },
        PeerEvent::UsernameLookup { found } => if found {
            PeerAction::UseResolved
        } else {
            PeerAction::NextDialog
        },
        PeerEvent::Dialog { id } => {
            let matches_chat = match id {
                Some(i) => i == chat_id,
                None => false,
            };
            if matches_chat {
                PeerAction::UseDialog
            } else {
                PeerAction::NextDialog
            }
        },
        PeerEvent::DialogsExhausted => PeerAction::NotFound,
    }
}

} // verus!
