//! A clipboard history entry and the payload-free preview made from it.

use crate::content_type::ClipboardContentType;
use crate::mime_map::{mime_map_clone, mime_pairs, MimePair};
use bytes::Bytes;
use indexmap::IndexMap;
use vstd::prelude::*;
use vstd::std_specs::convert::FromSpecImpl;

verus! {

/// A history entry: the payloads of one clipboard selection under their MIME
/// types, and what was derived from them when the entry was made.
#[derive(Debug)]
pub struct ClipboardItem {
    pub item_id: u64,
    pub content_preview: String,
    pub content_type: ClipboardContentType,
    /// Seconds since the Unix epoch at which the entry was made.
    pub timestamp: u64,
    pub pinned: bool,
    pub mime_data: IndexMap<String, Bytes>,
    pub thumbnail: Option<Vec<u8>>,
}

/// What a [`ClipboardItem`] holds, as plain values.
pub ghost struct ItemView {
    pub item_id: u64,
    pub content_preview: Seq<char>,
    pub content_type: ClipboardContentType,
    pub timestamp: u64,
    pub pinned: bool,
    pub mime_data: Seq<MimePair>,
    pub thumbnail: Option<Seq<u8>>,
}

/// The view of an optional byte vector.
pub open spec fn bytes_view(b: Option<Vec<u8>>) -> Option<Seq<u8>> {
    match b {
        Some(v) => Some(v@),
        None => None,
    }
}

impl View for ClipboardItem {
    type V = ItemView;

    open spec fn view(&self) -> ItemView {
        ItemView {
            item_id: self.item_id,
            content_preview: self.content_preview@,
            content_type: self.content_type,
            timestamp: self.timestamp,
            pinned: self.pinned,
            mime_data: mime_pairs(self.mime_data),
            thumbnail: bytes_view(self.thumbnail),
        }
    }
}

impl Clone for ClipboardItem {
    fn clone(&self) -> (r: Self)
        ensures
            r@ == self@,
    {
        ClipboardItem {
            item_id: self.item_id,
            content_preview: self.content_preview.clone(),
            content_type: self.content_type,
            timestamp: self.timestamp,
            pinned: self.pinned,
            mime_data: mime_map_clone(&self.mime_data),
            thumbnail: clone_bytes(&self.thumbnail),
        }
    }
}

/// A copy of an optional byte vector.
pub fn clone_bytes(b: &Option<Vec<u8>>) -> (r: Option<Vec<u8>>)
    ensures
        bytes_view(r) == bytes_view(*b),
{
    match b {
        Some(v) => Some(v.clone()),
        None => None,
    }
}

/// What the history listing shows of an entry: everything but the payloads.
#[derive(Debug, PartialEq, Eq)]
pub struct ClipboardItemPreview {
    pub item_id: u64,
    pub content_preview: String,
    pub content_type: ClipboardContentType,
    pub timestamp: u64,
    pub pinned: bool,
    pub thumbnail: Option<Vec<u8>>,
}

/// What a [`ClipboardItemPreview`] holds, as plain values.
pub ghost struct PreviewView {
    pub item_id: u64,
    pub content_preview: Seq<char>,
    pub content_type: ClipboardContentType,
    pub timestamp: u64,
    pub pinned: bool,
    pub thumbnail: Option<Seq<u8>>,
}

impl View for ClipboardItemPreview {
    type V = PreviewView;

    open spec fn view(&self) -> PreviewView {
        PreviewView {
            item_id: self.item_id,
            content_preview: self.content_preview@,
            content_type: self.content_type,
            timestamp: self.timestamp,
            pinned: self.pinned,
            thumbnail: bytes_view(self.thumbnail),
        }
    }
}

impl Clone for ClipboardItemPreview {
    fn clone(&self) -> (r: Self)
        ensures
            r@ == self@,
    {
        ClipboardItemPreview {
            item_id: self.item_id,
            content_preview: self.content_preview.clone(),
            content_type: self.content_type,
            timestamp: self.timestamp,
            pinned: self.pinned,
            thumbnail: clone_bytes(&self.thumbnail),
        }
    }
}

/// The preview of an entry: the entry without its payloads.
pub open spec fn preview_of(item: ItemView) -> PreviewView {
    PreviewView {
        item_id: item.item_id,
        content_preview: item.content_preview,
        content_type: item.content_type,
        timestamp: item.timestamp,
        pinned: item.pinned,
        thumbnail: item.thumbnail,
    }
}

impl<'a> From<&'a ClipboardItem> for ClipboardItemPreview {
    /// The preview of `full`.
    fn from(full: &'a ClipboardItem) -> (r: Self)
        ensures
            r@ == preview_of(full@),
    {
        ClipboardItemPreview {
            item_id: full.item_id,
            content_preview: full.content_preview.clone(),
            content_type: full.content_type,
            timestamp: full.timestamp,
            pinned: full.pinned,
            thumbnail: clone_bytes(&full.thumbnail),
        }
    }
}

/// The conversion is specified on `from` itself, over views: a copy of a
/// byte vector is known to hold the same bytes, not to be the same vector.
impl<'a> FromSpecImpl<&'a ClipboardItem> for ClipboardItemPreview {
    open spec fn obeys_from_spec() -> bool {
        false
    }

    open spec fn from_spec(full: &'a ClipboardItem) -> Self {
        arbitrary()
    }
}

} // verus!
