//! The canonical record and its parts, each with the mathematical view
//! that the contracts of this crate speak of.

use vstd::prelude::*;

verus! {

/// How far a subject region extends around its centre.
#[derive(Clone, Copy, Debug, PartialEq, Eq)]
pub enum RegionShape {
    /// Only the centre is known.
    Point,
    /// A circle of the given diameter.
    Circle { diameter: u32 },
    /// A rectangle of the given width and height.
    Rectangle { width: u32, height: u32 },
}

/// The region of the main subject: always a centre, and either nothing
/// more, a diameter, or a width and a height.
#[derive(Clone, Copy, Debug, PartialEq, Eq)]
pub struct SubjectArea {
    pub x: u32,
    pub y: u32,
    pub shape: RegionShape,
}

/// Resolution along the two axes, as formatted text; an axis that was not
/// read is `None`.
#[derive(Debug, PartialEq, Eq)]
pub struct Resolution {
    pub x: Option<String>,
    pub y: Option<String>,
}

/// The mathematical view of a [`Resolution`]: its texts as sequences of characters.
pub struct ResolutionView {
    pub x: Option<Seq<char>>,
    pub y: Option<Seq<char>>,
}

/// GPS position, as formatted text; an axis that was not read is `None`.
#[derive(Debug, PartialEq, Eq)]
pub struct Gps {
    pub latitude: Option<String>,
    pub longitude: Option<String>,
}

/// The mathematical view of a [`Gps`] position: its texts as sequences of characters.
pub struct GpsView {
    pub latitude: Option<Seq<char>>,
    pub longitude: Option<Seq<char>>,
}

/// One embedded thumbnail, as the XMP packet describes it.
#[derive(Debug, PartialEq, Eq)]
pub struct Thumbnail {
    pub format: String,
    pub width: String,
    pub height: String,
    pub image: String,
}

/// The mathematical view of a [`Thumbnail`]: its texts as sequences of characters.
pub struct ThumbnailView {
    pub format: Seq<char>,
    pub width: Seq<char>,
    pub height: Seq<char>,
    pub image: Seq<char>,
}

/// The canonical record: scalar fields as text (empty when unset) and the
/// multi-valued fields in structured form.
#[derive(Debug, PartialEq, Eq)]
pub struct Record {
    pub title: String,
    pub author: String,
    pub width: String,
    pub height: String,
    pub resolution: Resolution,
    pub make: String,
    pub model: String,
    pub flash_found: String,
    pub copyright: String,
    pub description: String,
    pub gps: Gps,
    pub xmp: String,
    pub iptc: String,
    pub subject_area: Option<SubjectArea>,
    pub thumbnails: Vec<Thumbnail>,
    pub original_document_id: String,
}

/// The mathematical view of a [`Record`]: its texts as sequences of characters.
pub struct RecordView {
    pub title: Seq<char>,
    pub author: Seq<char>,
    pub width: Seq<char>,
    pub height: Seq<char>,
    pub resolution: ResolutionView,
    pub make: Seq<char>,
    pub model: Seq<char>,
    pub flash_found: Seq<char>,
    pub copyright: Seq<char>,
    pub description: Seq<char>,
    pub gps: GpsView,
    pub xmp: Seq<char>,
    pub iptc: Seq<char>,
    pub subject_area: Option<SubjectArea>,
    pub thumbnails: Seq<ThumbnailView>,
    pub original_document_id: Seq<char>,
}

/// What an XMP packet contributes: a field is `Some` only where the packet
/// defines it.
#[derive(Debug, PartialEq, Eq)]
pub struct XmpRecord {
    pub title: Option<String>,
    pub author: Option<String>,
    pub copyright: Option<String>,
    pub thumbnails: Vec<Thumbnail>,
    pub original_document_id: Option<String>,
}

/// The mathematical view of an [`XmpRecord`]: its texts as sequences of characters.
pub struct XmpView {
    pub title: Option<Seq<char>>,
    pub author: Option<Seq<char>>,
    pub copyright: Option<Seq<char>>,
    pub thumbnails: Seq<ThumbnailView>,
    pub original_document_id: Option<Seq<char>>,
}

/// The record that an extraction returns. Every field is text: the scalar
/// fields as they were read (empty when unset), the multi-valued fields
/// (`resolution`, `gps`, `subject_area`, `thumbnails`) in their encoded form.
#[derive(Debug, PartialEq, Eq)]
pub struct Metadata {
    pub title: String,
    pub author: String,
    pub width: String,
    pub height: String,
    pub resolution: String,
    pub make: String,
    pub model: String,
    pub flash_found: String,
    pub copyright: String,
    pub description: String,
    pub gps: String,
    pub xmp: String,
    pub iptc: String,
    pub subject_area: String,
    pub thumbnails: String,
    pub original_document_id: String,
}

/// The mathematical view of a [`Metadata`] record: its texts as sequences of characters.
pub struct MetadataView {
    pub title: Seq<char>,
    pub author: Seq<char>,
    pub width: Seq<char>,
    pub height: Seq<char>,
    pub resolution: Seq<char>,
    pub make: Seq<char>,
    pub model: Seq<char>,
    pub flash_found: Seq<char>,
    pub copyright: Seq<char>,
    pub description: Seq<char>,
    pub gps: Seq<char>,
    pub xmp: Seq<char>,
    pub iptc: Seq<char>,
    pub subject_area: Seq<char>,
    pub thumbnails: Seq<char>,
    pub original_document_id: Seq<char>,
}

impl View for Metadata {
    type V = MetadataView;

    open spec fn view(&self) -> MetadataView {
        MetadataView {
            title: self.title@,
            author: self.author@,
            width: self.width@,
            height: self.height@,
            resolution: self.resolution@,
            make: self.make@,
            model: self.model@,
            flash_found: self.flash_found@,
            copyright: self.copyright@,
            description: self.description@,
            gps: self.gps@,
            xmp: self.xmp@,
            iptc: self.iptc@,
            subject_area: self.subject_area@,
            thumbnails: self.thumbnails@,
            original_document_id: self.original_document_id@,
        }
    }
}

/// The view of an optional string.
pub open spec fn text_view(t: Option<String>) -> Option<Seq<char>> {
    match t {
        Some(s) => Some(s@),
        None => None,
    }
}

/// The views of a list of thumbnails, in order.
pub open spec fn thumbnail_views(list: Seq<Thumbnail>) -> Seq<ThumbnailView> {
    Seq::new(list.len(), |i: int| list[i]@)
}

/// The view of an optional thumbnail.
pub open spec fn thumbnail_view(t: Option<Thumbnail>) -> Option<ThumbnailView> {
    match t {
        Some(thumbnail) => Some(thumbnail@),
        None => None,
    }
}

/// The view of an optional list of thumbnails.
pub open spec fn thumbnail_list_view(list: Option<Vec<Thumbnail>>) -> Option<Seq<ThumbnailView>> {
    match list {
        Some(thumbnails) => Some(thumbnail_views(thumbnails@)),
        None => None,
    }
}

impl View for Resolution {
    type V = ResolutionView;

    open spec fn view(&self) -> ResolutionView {
        ResolutionView { x: text_view(self.x), y: text_view(self.y) }
    }
}

impl View for Gps {
    type V = GpsView;

    open spec fn view(&self) -> GpsView {
        GpsView { latitude: text_view(self.latitude), longitude: text_view(self.longitude) }
    }
}

impl View for Thumbnail {
    type V = ThumbnailView;

    open spec fn view(&self) -> ThumbnailView {
        ThumbnailView {
            format: self.format@,
            width: self.width@,
            height: self.height@,
            image: self.image@,
        }
    }
}

impl View for Record {
    type V = RecordView;

    open spec fn view(&self) -> RecordView {
        RecordView {
            title: self.title@,
            author: self.author@,
            width: self.width@,
            height: self.height@,
            resolution: self.resolution@,
            make: self.make@,
            model: self.model@,
            flash_found: self.flash_found@,
            copyright: self.copyright@,
            description: self.description@,
            gps: self.gps@,
            xmp: self.xmp@,
            iptc: self.iptc@,
            subject_area: self.subject_area,
            thumbnails: thumbnail_views(self.thumbnails@),
            original_document_id: self.original_document_id@,
        }
    }
}

impl View for XmpRecord {
    type V = XmpView;

    open spec fn view(&self) -> XmpView {
        XmpView {
            title: text_view(self.title),
            author: text_view(self.author),
            copyright: text_view(self.copyright),
            thumbnails: thumbnail_views(self.thumbnails@),
            original_document_id: text_view(self.original_document_id),
        }
    }
}

impl RecordView {
    /// The record in which nothing is set.
    pub open spec fn empty() -> RecordView {
        RecordView {
            title: Seq::empty(),
            author: Seq::empty(),
            width: Seq::empty(),
            height: Seq::empty(),
            resolution: ResolutionView { x: None, y: None },
            make: Seq::empty(),
            model: Seq::empty(),
            flash_found: Seq::empty(),
            copyright: Seq::empty(),
            description: Seq::empty(),
            gps: GpsView { latitude: None, longitude: None },
            xmp: Seq::empty(),
            iptc: Seq::empty(),
            subject_area: None,
            thumbnails: Seq::empty(),
            original_document_id: Seq::empty(),
        }
    }
}

impl XmpView {
    /// The contribution of a packet that defines nothing.
    pub open spec fn empty() -> XmpView {
        XmpView {
            title: None,
            author: None,
            copyright: None,
            thumbnails: Seq::empty(),
            original_document_id: None,
        }
    }
}

impl Record {
    /// A record in which nothing is set.
    pub fn new() -> (r: Record)
        ensures
            r@ == RecordView::empty(),
    {
        let r = Record {
            title: String::new(),
            author: String::new(),
            width: String::new(),
            height: String::new(),
            resolution: Resolution { x: None, y: None },
            make: String::new(),
            model: String::new(),
            flash_found: String::new(),
            copyright: String::new(),
            description: String::new(),
            gps: Gps { latitude: None, longitude: None },
            xmp: String::new(),
            iptc: String::new(),
            subject_area: None,
            thumbnails: Vec::new(),
            original_document_id: String::new(),
        };
        assert(r@.thumbnails =~= Seq::empty());
        r
    }
}

impl XmpRecord {
    /// The contribution of a packet that defines nothing.
    pub fn new() -> (r: XmpRecord)
        ensures
            r@ == XmpView::empty(),
    {
        let r = XmpRecord {
            title: None,
            author: None,
            copyright: None,
            thumbnails: Vec::new(),
            original_document_id: None,
        };
        assert(r@.thumbnails =~= Seq::empty());
        r
    }
}

} // verus!
