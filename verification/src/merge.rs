//! The merge of what the native reader found with what the XMP packet
//! contributes.

use vstd::prelude::*;

use crate::record::Record;
use crate::record::RecordView;
use crate::record::XmpRecord;
use crate::record::XmpView;

verus! {

/// `native`, with `xmp` where the packet defines the field.
pub open spec fn preferred(native: Seq<char>, xmp: Option<Seq<char>>) -> Seq<char> {
    match xmp {
        Some(text) => text,
        None => native,
    }
}

/// The canonical record: title, author, copyright, thumbnails and original
/// document id come from the packet where it defines them; every other
/// field is the native reader's.
pub open spec fn merged(native: RecordView, xmp: XmpView) -> RecordView {
    RecordView {
        title: preferred(native.title, xmp.title),
        author: preferred(native.author, xmp.author),
        copyright: preferred(native.copyright, xmp.copyright),
        thumbnails: if xmp.thumbnails.len() > 0 {
            xmp.thumbnails
        } else {
            native.thumbnails
        },
        original_document_id: preferred(native.original_document_id, xmp.original_document_id),
        ..native
    }
}

/// Applies what the packet contributes on top of the native record.
pub fn merge(native: Record, xmp: XmpRecord) -> (rec: Record)
    ensures
        rec@ == merged(native@, xmp@),
{
    let mut rec = native;
    if let Some(title) = xmp.title {
        rec.title = title;
    }
    if let Some(author) = xmp.author {
        rec.author = author;
    }
    if let Some(copyright) = xmp.copyright {
        rec.copyright = copyright;
    }
    if xmp.thumbnails.len() > 0 {
        rec.thumbnails = xmp.thumbnails;
    }
    if let Some(id) = xmp.original_document_id {
        rec.original_document_id = id;
    }
    rec
}

/// A packet that defines nothing leaves the native record as it is.
pub proof fn lemma_empty_packet_keeps_native(native: RecordView)
    ensures
        merged(native, XmpView::empty()) == native,
{
}

/// The packet never touches what only the native reader knows: dimensions,
/// make, model, flash, description, resolution, GPS, subject area, the raw
/// XMP text and the IPTC block.
pub proof fn lemma_merge_keeps_native_only_fields(native: RecordView, xmp: XmpView)
    ensures
        merged(native, xmp).width == native.width,
        merged(native, xmp).height == native.height,
        merged(native, xmp).make == native.make,
        merged(native, xmp).model == native.model,
        merged(native, xmp).flash_found == native.flash_found,
        merged(native, xmp).description == native.description,
        merged(native, xmp).resolution == native.resolution,
        merged(native, xmp).gps == native.gps,
        merged(native, xmp).subject_area == native.subject_area,
        merged(native, xmp).xmp == native.xmp,
        merged(native, xmp).iptc == native.iptc,
{
}

/// Where the packet defines a title, author or copyright, that value is
/// the record's, whatever the native reader had; where it does not, the
/// native value stays.
pub proof fn lemma_packet_takes_precedence(native: RecordView, xmp: XmpView)
    ensures
        xmp.title matches Some(text) ==> merged(native, xmp).title == text,
        xmp.title is None ==> merged(native, xmp).title == native.title,
        xmp.author matches Some(text) ==> merged(native, xmp).author == text,
        xmp.author is None ==> merged(native, xmp).author == native.author,
        xmp.copyright matches Some(text) ==> merged(native, xmp).copyright == text,
        xmp.copyright is None ==> merged(native, xmp).copyright == native.copyright,
{
}

} // verus!
