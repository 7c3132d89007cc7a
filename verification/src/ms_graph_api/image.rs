//! Images embedded in chat messages: how they are recognised in a hosted
//! content address and how the file that stands for one is named.

use crate::encoding::base64_url_decode;
use crate::encoding::base64_url_decoded;
use crate::encoding::utf8_to_string;
use crate::ident::print_uuid;
use crate::ident::random_uuid;
use crate::ident::uuid_text;
use crate::pattern::capture_all;
use crate::pattern::capture_first;
use crate::pattern::regex_capture_all;
use crate::pattern::regex_capture_first;
use crate::pattern::PatternError;
use crate::text::str_eq;
use vstd::prelude::*;
use vstd::string::*;
use vstd::utf8::*;

verus! {

/// An image taken from a message: the file name it gets on the ticket, its
/// bytes, and the content type it was served with.
pub struct GraphApiImage {
    pub name: String,
    pub data: Vec<u8>,
    pub mime_str: String,
}

/// Why no content id could be read from an encoded hosted-content segment.
#[derive(Clone, Copy, Debug, PartialEq, Eq, Structural)]
pub enum ImageIdError {
    /// The segment is not URL-safe base64.
    Undecodable,
    /// The decoded bytes are not UTF-8.
    NotText,
    /// The matching engine refused the id pattern.
    Pattern,
    /// The decoded text holds no `id=` entry.
    Missing,
}

/// Addresses of hosted contents; the first group is the encoded segment.
pub const HOSTED_CONTENT_PATTERN: &'static str =
    "https://graph\\.microsoft\\.com/v1\\.0/teams/[^\\s\\\"]+/messages/[^\\s\\\"]+/hostedContents/([^\\s\\|\\]\\\\\\\"\\/]+)";

/// The `id=` entry of a decoded segment; the first group is the id.
pub const IMAGE_ID_PATTERN: &'static str = "id=([^,]+)";

/// The groups that took part in their match, in order.
pub open spec fn participating(groups: Seq<Option<Seq<char>>>) -> Seq<Seq<char>>
    decreases groups.len(),
{
    if groups.len() == 0 {
        Seq::empty()
    } else {
        match groups.last() {
            Some(text) => participating(groups.drop_last()).push(text),
            None => participating(groups.drop_last()),
        }
    }
}

/// The encoded segments of all hosted-content addresses in `text`, or `None`
/// where the engine refuses the pattern.
pub open spec fn hosted_contents(text: Seq<char>) -> Option<Seq<Seq<char>>> {
    match regex_capture_all(HOSTED_CONTENT_PATTERN@, text, 1) {
        Some(groups) => Some(participating(groups)),
        None => None,
    }
}

/// The content id that an encoded segment carries.
pub open spec fn image_id(encoded: Seq<char>) -> Result<Seq<char>, ImageIdError> {
    match base64_url_decoded(encoded) {
        None => Err(ImageIdError::Undecodable),
        Some(bytes) => if !valid_utf8(bytes) {
            Err(ImageIdError::NotText)
        } else {
            match regex_capture_first(IMAGE_ID_PATTERN@, decode_utf8(bytes), 1) {
                None => Err(ImageIdError::Pattern),
                Some(None) => Err(ImageIdError::Missing),
                Some(Some(id)) => Ok(id),
            }
        },
    }
}

/// The content id carried by the first hosted-content address in `url`:
/// `None` where the engine refuses the address pattern, `Some(None)` where no
/// id can be recovered.
pub open spec fn embedded_image_id(url: Seq<char>) -> Option<Option<Seq<char>>> {
    match hosted_contents(url) {
        None => None,
        Some(segments) => if segments.len() == 0 {
            Some(None)
        } else {
            match image_id(segments[0]) {
                Ok(id) => Some(Some(id)),
                Err(_) => Some(None),
            }
        },
    }
}

/// The file extension that goes with a content type.
pub open spec fn extension_for(content_type: Option<Seq<char>>) -> Seq<char> {
    match content_type {
        Some(t) => if t == "image/png"@ {
            "png"@
        } else if t == "image/jpeg"@ {
            "jpg"@
        } else if t == "image/gif"@ {
            "gif"@
        } else if t == "image/svg+xml"@ {
            "svg"@
        } else {
            "ext"@
        },
        None => "ext"@,
    }
}

/// The file name of an image with content id `id`.
pub open spec fn image_name(id: Seq<char>, content_type: Option<Seq<char>>) -> Seq<char> {
    id + "."@ + extension_for(content_type)
}

/// Keeps the groups that took part in their match.
pub fn keep_participating(groups: Vec<Option<String>>) -> (kept: Vec<String>)
    ensures
        kept.deep_view() == participating(groups.deep_view()),
{
    let mut kept: Vec<String> = Vec::new();
    let mut k: usize = 0;
    while k < groups.len()
        invariant
            k <= groups.len(),
            kept.deep_view() == participating(groups.deep_view().take(k as int)),
        decreases groups.len() - k,
    {
        let ghost seen = groups.deep_view().take(k as int);
        let ghost next = groups.deep_view().take(k + 1);
        assert(next.drop_last() =~= seen);
        assert(next.last() == groups@[k as int].deep_view());
        let ghost before = kept.deep_view();
        match &groups[k] {
            Some(text) => {
                kept.push(text.clone());
                assert(kept.deep_view() =~= before.push(text@));
            },
            None => {},
        }
        k += 1;
    }
    assert(groups.deep_view().take(k as int) =~= groups.deep_view());
    kept
}

/// The encoded segments of all hosted-content addresses in `text`.
pub fn extract_hosted_contents(text: &str) -> (r: Result<Vec<String>, PatternError>)
    ensures
        match r {
            Ok(segments) => hosted_contents(text@) == Some(segments.deep_view()),
            Err(_) => hosted_contents(text@) is None,
        },
{
    match capture_all(HOSTED_CONTENT_PATTERN, text, 1) {
        Ok(groups) => Ok(keep_participating(groups)),
        Err(_) => Err(PatternError::Rejected),
    }
}

/// Decodes a hosted-content segment and reads the content id from it.
pub fn get_image_id(encoded: &str) -> (r: Result<String, ImageIdError>)
    ensures
        match r {
            Ok(id) => image_id(encoded@) == Ok::<Seq<char>, ImageIdError>(id@),
            Err(e) => image_id(encoded@) == Err::<Seq<char>, ImageIdError>(e),
        },
{
    let bytes = match base64_url_decode(encoded) {
        Ok(bytes) => bytes,
        Err(_) => { return Err(ImageIdError::Undecodable); },
    };
    let text = match utf8_to_string(bytes) {
        Ok(text) => text,
        Err(_) => { return Err(ImageIdError::NotText); },
    };
    match capture_first(IMAGE_ID_PATTERN, text.as_str(), 1) {
        Ok(Some(id)) => Ok(id),
        Ok(None) => Err(ImageIdError::Missing),
        Err(_) => Err(ImageIdError::Pattern),
    }
}

/// The content id embedded in `url`, or `fallback` where none can be
/// recovered.
pub fn attachment_id_or(url: &str, fallback: String) -> (r: Result<String, PatternError>)
    ensures
        match embedded_image_id(url@) {
            None => r is Err,
            Some(None) => r is Ok && r->Ok_0@ == fallback@,
            Some(Some(id)) => r is Ok && r->Ok_0@ == id,
        },
{
    let segments = match extract_hosted_contents(url) {
        Ok(segments) => segments,
        Err(e) => { return Err(e); },
    };
    if segments.len() == 0 {
        return Ok(fallback);
    }
    assert(segments.deep_view()[0] == segments@[0]@);
    match get_image_id(segments[0].as_str()) {
        Ok(id) => Ok(id),
        Err(_) => Ok(fallback),
    }
}

/// The content id embedded in `url`; where none can be recovered, a freshly
/// drawn random identifier in its printed form.
pub fn get_teams_attachment_id(url: &str) -> (r: Result<String, PatternError>)
    ensures
        match embedded_image_id(url@) {
            None => r is Err,
            Some(None) => r is Ok && exists|drawn: u128| r->Ok_0@ == uuid_text(drawn),
            Some(Some(id)) => r is Ok && r->Ok_0@ == id,
        },
{
    let drawn = random_uuid();
    attachment_id_or(url, print_uuid(drawn))
}

/// The file extension that goes with the content type of a download.
pub fn get_image_extension(content_type: &Option<String>) -> (r: String)
    ensures
        r@ == extension_for(content_type.deep_view()),
{
    let extension = match content_type {
        Some(t) => {
            if str_eq(t.as_str(), "image/png") {
                "png"
            } else if str_eq(t.as_str(), "image/jpeg") {
                "jpg"
            } else if str_eq(t.as_str(), "image/gif") {
                "gif"
            } else if str_eq(t.as_str(), "image/svg+xml") {
                "svg"
            } else {
                "ext"
            }
        },
        None => "ext",
    };
    extension.to_string()
}

impl GraphApiImage {
    /// The image that a download from `url` yields when its content id falls
    /// back to `fallback_id`: named after the content id and the content
    /// type, and carrying the content type as served (empty if there was
    /// none).
    pub fn named_or(
        url: &str,
        content_type: Option<String>,
        data: Vec<u8>,
        fallback_id: String,
    ) -> (r: Result<GraphApiImage, PatternError>)
        ensures
            match embedded_image_id(url@) {
                None => r is Err,
                Some(found) => {
                    &&& r is Ok
                    &&& r->Ok_0.name@ == image_name(
                        match found {
                            Some(id) => id,
                            None => fallback_id@,
                        },
                        content_type.deep_view(),
                    )
                    &&& r->Ok_0.data@ == data@
                    &&& r->Ok_0.mime_str@ == match content_type {
                        Some(t) => t@,
                        None => Seq::<char>::empty(),
                    }
                },
            },
    {
        let id = match attachment_id_or(url, fallback_id) {
            Ok(id) => id,
            Err(e) => { return Err(e); },
        };
        let extension = get_image_extension(&content_type);
        let mut name = id;
        name.append(".");
        name.append(extension.as_str());
        let mime_str = match content_type {
            Some(t) => t,
            None => String::new(),
        };
        Ok(GraphApiImage { name, data, mime_str })
    }

    /// The image that a download from `url` yields. Where the address
    /// carries no content id, the name starts with a freshly drawn random
    /// identifier instead.
    pub fn from_download(url: &str, content_type: Option<String>, data: Vec<u8>) -> (r: Result<
        GraphApiImage,
        PatternError,
    >)
        ensures
            match embedded_image_id(url@) {
                None => r is Err,
                Some(found) => {
                    &&& r is Ok
                    &&& r->Ok_0.data@ == data@
                    &&& r->Ok_0.mime_str@ == match content_type {
                        Some(t) => t@,
                        None => Seq::<char>::empty(),
                    }
                    &&& match found {
                        Some(id) => r->Ok_0.name@ == image_name(id, content_type.deep_view()),
                        None => exists|drawn: u128|
                            r->Ok_0.name@ == image_name(
                                uuid_text(drawn),
                                content_type.deep_view(),
                            ),
                    }
                },
            },
    {
        let drawn = random_uuid();
        GraphApiImage::named_or(url, content_type, data, print_uuid(drawn))
    }
}

} // verus!
