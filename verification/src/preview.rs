//! How the preview text and the content kind of an entry follow from its payloads.

use crate::content_type::{sniffed_type, ClipboardContentType};
use crate::mime_map::{
    lookup, mime_map_get, mime_map_get_index, mime_pairs, payload_as_slice, MimePair,
};
use crate::text::{decimal, decode, first_chars, prefix_upto, push_decimal};
use bytes::Bytes;
use indexmap::IndexMap;
use vstd::prelude::*;
use vstd::string::*;
use vstd::utf8::*;

verus! {

/// The largest number of characters that a text preview keeps.
pub const PREVIEW_CHARS: usize = 200;

/// The MIME type whose payload, when present, makes an entry an image.
pub open spec fn image_mime() -> Seq<char> {
    "image/png"@
}

/// The MIME type whose payload, when present and well-formed, is previewed as text.
pub open spec fn text_mime() -> Seq<char> {
    "text/plain;charset=utf-8"@
}

/// The text shown in place of a payload that has no text preview.
pub open spec fn placeholder(mime: Seq<char>, len: nat) -> Seq<char> {
    "<"@ + mime + " "@ + decimal(len) + " bytes>"@
}

/// The text that a non-image map previews as, if it has any: the decoded
/// UTF-8 text payload.
pub open spec fn text_of(pairs: Seq<MimePair>) -> Option<Seq<char>> {
    match lookup(pairs, text_mime()) {
        Some(t) => if valid_utf8(t) {
            Some(decode_utf8(t))
        } else {
            None
        },
        None => None,
    }
}

/// The preview of a map with at least one pair.
pub open spec fn derived_preview(pairs: Seq<MimePair>) -> Seq<char> {
    match lookup(pairs, image_mime()) {
        Some(png) => placeholder(image_mime(), png.len()),
        None => match text_of(pairs) {
            Some(t) => prefix_upto(t, PREVIEW_CHARS as int),
            None => placeholder(pairs[0].0, pairs[0].1.len()),
        },
    }
}

/// The content kind of a map with at least one pair.
pub open spec fn derived_type(pairs: Seq<MimePair>) -> ClipboardContentType {
    match lookup(pairs, image_mime()) {
        Some(_) => ClipboardContentType::Image,
        None => match text_of(pairs) {
            Some(t) => sniffed_type(prefix_upto(t, PREVIEW_CHARS as int)),
            None => ClipboardContentType::Other,
        },
    }
}

/// Builds the placeholder text for a payload of `len` bytes under `mime`.
pub fn make_placeholder(mime: &str, len: usize) -> (r: String)
    ensures
        r@ == placeholder(mime@, len as nat),
{
    let mut out = String::from_str("<");
    out.append(mime);
    out.append(" ");
    push_decimal(&mut out, len as u64);
    out.append(" bytes>");
    out
}

/// Derives the preview text and the content kind of a map of payloads.
pub fn derive_preview(mime: &IndexMap<String, Bytes>) -> (r: (String, ClipboardContentType))
    requires
        mime_pairs(*mime).len() > 0,
    ensures
        r.0@ == derived_preview(mime_pairs(*mime)),
        r.1 == derived_type(mime_pairs(*mime)),
{
    match mime_map_get(mime, "image/png") {
        Some(png) => (make_placeholder("image/png", payload_as_slice(png).len()), ClipboardContentType::Image),
        None => {
            let text = match mime_map_get(mime, "text/plain;charset=utf-8") {
                Some(t) => decode(payload_as_slice(t)),
                None => None,
            };
            match text {
                Some(s) => {
                    let preview = first_chars(s.as_str(), PREVIEW_CHARS);
                    let kind = ClipboardContentType::type_from_preview(preview.as_str());
                    (preview, kind)
                },
                None => {
                    let first = mime_map_get_index(mime, 0);
                    let (key, value) = first.unwrap();
                    (make_placeholder(key.as_str(), payload_as_slice(value).len()), ClipboardContentType::Other)
                },
            }
        },
    }
}

} // verus!
