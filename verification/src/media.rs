//! What a session plays: the item, and the stream that the backend resolved for it.

use vstd::prelude::*;
use vstd::string::*;

verus! {

/// The views of the items of a sequence, in order.
pub open spec fn views<T: View>(items: Seq<T>) -> Seq<T::V> {
    Seq::new(items.len(), |i: int| items[i]@)
}

/// An item of the media library.
#[derive(Debug)]
pub struct MediaItem {
    pub id: String,
    pub title: String,
}

/// A media item as contracts see it.
pub struct MediaItemView {
    pub id: Seq<char>,
    pub title: Seq<char>,
}

impl View for MediaItem {
    type V = MediaItemView;

    open spec fn view(&self) -> MediaItemView {
        MediaItemView { id: self.id@, title: self.title@ }
    }
}

impl MediaItem {
    pub fn new(id: String, title: String) -> (item: MediaItem)
        ensures
            item@.id == id@,
            item@.title == title@,
    {
        MediaItem { id, title }
    }

    /// A second copy of the item.
    pub fn duplicate(&self) -> (copy: MediaItem)
        ensures
            copy@ == self@,
    {
        MediaItem { id: self.id.clone(), title: self.title.clone() }
    }
}

/// The size of a video picture, in pixels.
#[derive(Clone, Copy, Debug, PartialEq, Eq, Structural)]
pub struct Resolution {
    pub width: u32,
    pub height: u32,
}

/// One of the qualities in which the backend offers a stream.
#[derive(Debug)]
pub struct QualityOption {
    pub name: String,
    pub url: String,
    /// Whether the backend has to transcode the stream for this quality.
    pub requires_transcode: bool,
}

/// A quality option as contracts see it.
pub struct QualityOptionView {
    pub name: Seq<char>,
    pub url: Seq<char>,
    pub requires_transcode: bool,
}

impl View for QualityOption {
    type V = QualityOptionView;

    open spec fn view(&self) -> QualityOptionView {
        QualityOptionView {
            name: self.name@,
            url: self.url@,
            requires_transcode: self.requires_transcode,
        }
    }
}

impl QualityOption {
    pub fn new(name: String, url: String, requires_transcode: bool) -> (option: QualityOption)
        ensures
            option@.name == name@,
            option@.url == url@,
            option@.requires_transcode == requires_transcode,
    {
        QualityOption { name, url, requires_transcode }
    }
}

/// The stream that the backend resolved for an item.
#[derive(Debug)]
pub struct StreamInfo {
    pub url: String,
    pub resolution: Resolution,
    pub bitrate: u64,
    pub video_codec: String,
    pub quality_options: Vec<QualityOption>,
}

/// A stream as contracts see it.
pub struct StreamInfoView {
    pub url: Seq<char>,
    pub resolution: Resolution,
    pub bitrate: u64,
    pub video_codec: Seq<char>,
    pub quality_options: Seq<QualityOptionView>,
}

impl View for StreamInfo {
    type V = StreamInfoView;

    open spec fn view(&self) -> StreamInfoView {
        StreamInfoView {
            url: self.url@,
            resolution: self.resolution,
            bitrate: self.bitrate,
            video_codec: self.video_codec@,
            quality_options: views(self.quality_options@),
        }
    }
}

} // verus!
