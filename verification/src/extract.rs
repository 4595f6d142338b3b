//! The extraction as a whole: native reader, XMP stage, merge and encoding,
//! in that order.

use vstd::prelude::*;
use vstd::string::*;
use vstd::utf8::*;

use crate::document::document_record;
use crate::document::read_document;
use crate::document::PdfDocument;
use crate::document::PdfDocumentView;
use crate::encode::encode;
use crate::encode::encoded;
use crate::error::ExtractError;
use crate::image::image_record;
use crate::image::lemma_packet_tag_becomes_xmp;
use crate::image::packet_text;
use crate::image::read_image_fields;
use crate::image::XMP_TAG;
use crate::merge::merge;
use crate::merge::merged;
use crate::record::Metadata;
use crate::record::MetadataView;
use crate::record::Record;
use crate::record::RecordView;
use crate::tags::read_tag_directory;
use crate::tags::tag_directory;
use crate::tags::field_views;
use crate::tags::RawTagField;
use crate::tags::RawTagFieldView;
use crate::tags::TagValueView;
use crate::text::same_text;
use crate::xml::parse_xml;
use crate::xml::xml_document;
use crate::xml::XmlNode;
use crate::xml::XmlTree;
use crate::xmp::packet_record;
use crate::xmp::read_packet;

verus! {

/// Whether the declared format selects the document reader: exactly the
/// two values that denote PDF and PostScript do.
pub open spec fn is_document_format(mime_type: Seq<char>) -> bool {
    mime_type == "application/pdf"@ || mime_type == "application/postscript"@
}

/// The record that is returned for a native record and the parsed XMP
/// packet, where there is one: the packet's contribution is merged over the
/// native record and the result encoded. Without a packet the native record
/// is encoded as it is. The one failure is an incomplete thumbnail
/// descriptor in the packet.
pub open spec fn completed(native: RecordView, packet: Option<XmlTree>) -> Result<
    MetadataView,
    ExtractError,
> {
    match packet {
        Some(root) => match packet_record(root) {
            Some(xmp) => Ok(encoded(merged(native, xmp))),
            None => Err(ExtractError::IncompleteThumbnail),
        },
        None => Ok(encoded(native)),
    }
}

/// The parsed form of a raw XMP packet: `None` where the packet is empty
/// or is not well-formed XML.
pub open spec fn parsed_packet(xmp: Seq<char>) -> Option<XmlTree> {
    if xmp.len() == 0 {
        None
    } else {
        xml_document(xmp)
    }
}

/// The record that is returned for a native record: its raw XMP packet is
/// parsed and applied.
pub open spec fn finished(native: RecordView) -> Result<MetadataView, ExtractError> {
    completed(native, parsed_packet(native.xmp))
}

/// The record that is returned for the fields of a tag directory.
pub open spec fn image_extraction(fields: Seq<RawTagFieldView>) -> Result<
    MetadataView,
    ExtractError,
> {
    finished(image_record(fields))
}

/// The record that is returned for an opened document.
pub open spec fn document_extraction(document: PdfDocumentView) -> Result<
    MetadataView,
    ExtractError,
> {
    finished(document_record(document))
}

/// What the native reader gives. The declared format selects the reader:
/// the document reader works on the opened document and fails where the
/// file could not be opened; the image reader works on the file's bytes and
/// fails where their tag directory cannot be read.
pub open spec fn native_record(
    file: Seq<u8>,
    mime_type: Seq<char>,
    document: Option<PdfDocumentView>,
) -> Result<RecordView, ExtractError> {
    if is_document_format(mime_type) {
        match document {
            Some(opened) => Ok(document_record(opened)),
            None => Err(ExtractError::UnreadableDocument),
        }
    } else {
        match tag_directory(file) {
            Some(fields) => Ok(image_record(fields)),
            None => Err(ExtractError::MalformedContainer),
        }
    }
}

/// The outcome of an extraction: the native record, completed with its XMP
/// packet and encoded, or the failure of the stage that failed.
pub open spec fn extraction(
    file: Seq<u8>,
    mime_type: Seq<char>,
    document: Option<PdfDocumentView>,
) -> Result<MetadataView, ExtractError> {
    match native_record(file, mime_type, document) {
        Ok(native) => finished(native),
        Err(e) => Err(e),
    }
}

/// The view of what opening a document gave.
pub open spec fn opened_view(document: Option<PdfDocument>) -> Option<PdfDocumentView> {
    match document {
        Some(opened) => Some(opened@),
        None => None,
    }
}

/// The view of an extraction's outcome.
pub open spec fn outcome_view(r: Result<Metadata, ExtractError>) -> Result<
    MetadataView,
    ExtractError,
> {
    match r {
        Ok(metadata) => Ok(metadata@),
        Err(e) => Err(e),
    }
}

/// Whether the declared format selects the document reader.
pub fn selects_document_reader(mime_type: &String) -> (r: bool)
    ensures
        r == is_document_format(mime_type@),
{
    same_text(mime_type, "application/pdf") || same_text(mime_type, "application/postscript")
}

impl Metadata {
    /// Merges the contribution of a parsed XMP packet, where there is one,
    /// over the native record and encodes the result.
    pub fn complete(native: Record, packet: Option<&XmlNode>) -> (r: Result<Metadata, ExtractError>)
        ensures
            outcome_view(r) == completed(
                native@,
                match packet {
                    Some(root) => Some(root@),
                    None => None,
                },
            ),
    {
        match packet {
            Some(root) => match read_packet(root) {
                Ok(xmp) => Ok(encode(merge(native, xmp))),
                Err(e) => Err(e),
            },
            None => Ok(encode(native)),
        }
    }

    /// Parses the raw XMP packet of a native record, where it has one, and
    /// completes the record with it. A packet that is not well-formed XML
    /// is passed over.
    pub fn finish(native: Record) -> (r: Result<Metadata, ExtractError>)
        ensures
            outcome_view(r) == finished(native@),
    {
        if native.xmp.as_str().is_empty() {
            Metadata::complete(native, None)
        } else {
            let parsed = parse_xml(native.xmp.as_str());
            match &parsed {
                Some(root) => Metadata::complete(native, Some(root)),
                None => Metadata::complete(native, None),
            }
        }
    }

    /// Extracts the metadata that the fields of a tag directory hold.
    pub fn from_tag_directory(fields: &Vec<RawTagField>) -> (r: Result<Metadata, ExtractError>)
        ensures
            outcome_view(r) == image_extraction(field_views(fields@)),
    {
        Metadata::finish(read_image_fields(fields))
    }

    /// Extracts the metadata that an opened document holds.
    pub fn from_document(document: &PdfDocument) -> (r: Result<Metadata, ExtractError>)
        ensures
            outcome_view(r) == document_extraction(document@),
    {
        Metadata::finish(read_document(document))
    }

    /// Extracts the metadata of one file. `mime_type` is what the caller's
    /// classifier said of the file and is taken at its word: the two values
    /// that denote PDF and PostScript select the document reader, any other
    /// value the image reader. `document` is what opening the file as a
    /// document gave; it is looked at only where the document reader is
    /// selected, and `None` there means that the file could not be opened.
    pub fn get_metadata(file: Vec<u8>, mime_type: String, document: Option<PdfDocument>) -> (r:
        Result<Metadata, ExtractError>)
        ensures
            outcome_view(r) == extraction(file@, mime_type@, opened_view(document)),
    {
        if selects_document_reader(&mime_type) {
            match &document {
                Some(opened) => Metadata::from_document(opened),
                None => Err(ExtractError::UnreadableDocument),
            }
        } else {
            match read_tag_directory(&file) {
                Some(fields) => Metadata::from_tag_directory(&fields),
                None => Err(ExtractError::MalformedContainer),
            }
        }
    }
}

/// The raw XMP text of the native record is returned as it was read,
/// whatever the packet holds.
pub proof fn lemma_raw_packet_is_returned(native: RecordView, packet: Option<XmlTree>)
    ensures
        completed(native, packet) matches Ok(metadata) ==> metadata.xmp == native.xmp
            && metadata.iptc == native.iptc,
{
}

/// An image whose tag directory holds a field with tag number 700, of byte
/// type and valid UTF-8, is returned with exactly those bytes as its raw
/// XMP text. Where the directory holds several such fields, this is true of
/// the last.
pub proof fn lemma_image_packet_is_returned_exactly(
    file: Seq<u8>,
    mime_type: Seq<char>,
    document: Option<PdfDocumentView>,
    fields: Seq<RawTagFieldView>,
    i: int,
    packet: Seq<u8>,
)
    requires
        !is_document_format(mime_type),
        tag_directory(file) == Some(fields),
        0 <= i < fields.len(),
        fields[i].number == XMP_TAG,
        fields[i].value == TagValueView::Byte(packet),
        valid_utf8(packet),
        forall|j: int|
            i < j < fields.len() ==> (#[trigger] fields[j]).number != XMP_TAG || packet_text(
                fields[j],
            ) is None,
    ensures
        extraction(file, mime_type, document) matches Ok(metadata) ==> encode_utf8(metadata.xmp)
            == packet,
{
    lemma_packet_tag_becomes_xmp(fields, i, packet);
    lemma_raw_packet_is_returned(image_record(fields), parsed_packet(image_record(fields).xmp));
}

/// A raw XMP packet that is not well-formed XML does not abort the
/// extraction, and title, author and copyright stay as the native reader
/// set them.
pub proof fn lemma_malformed_packet_keeps_native(native: RecordView)
    requires
        xml_document(native.xmp) is None,
    ensures
        finished(native) matches Ok(metadata) && metadata.title == native.title && metadata.author
            == native.author && metadata.copyright == native.copyright,
        finished(native) == Ok::<MetadataView, ExtractError>(encoded(native)),
{
}

/// Where the packet defines a title, it is the title that is returned,
/// whatever the native reader found; where it defines none, the native
/// title is returned. The same holds of author and copyright.
pub proof fn lemma_packet_overrides_native(native: RecordView, root: XmlTree)
    requires
        packet_record(root) is Some,
    ensures
        completed(native, Some(root)) matches Ok(metadata) && {
            let xmp = packet_record(root)->0;
            &&& metadata.title == match xmp.title {
                Some(text) => text,
                None => native.title,
            }
            &&& metadata.author == match xmp.author {
                Some(text) => text,
                None => native.author,
            }
            &&& metadata.copyright == match xmp.copyright {
                Some(text) => text,
                None => native.copyright,
            }
        },
{
}

/// An extraction fails in three cases only, and in each the error says
/// which: the document could not be opened, the tag directory could not be
/// read, or a thumbnail descriptor of a packet that parsed is incomplete.
/// In every other case a record is returned.
pub proof fn lemma_failures(
    file: Seq<u8>,
    mime_type: Seq<char>,
    document: Option<PdfDocumentView>,
)
    ensures
        extraction(file, mime_type, document) == Err::<MetadataView, ExtractError>(
            ExtractError::UnreadableDocument,
        ) <==> is_document_format(mime_type) && document is None,
        extraction(file, mime_type, document) == Err::<MetadataView, ExtractError>(
            ExtractError::MalformedContainer,
        ) <==> !is_document_format(mime_type) && tag_directory(file) is None,
        extraction(file, mime_type, document) == Err::<MetadataView, ExtractError>(
            ExtractError::IncompleteThumbnail,
        ) <==> match native_record(file, mime_type, document) {
            Ok(native) => match parsed_packet(native.xmp) {
                Some(root) => packet_record(root) is None,
                None => false,
            },
            Err(_) => false,
        },
{
}

} // verus!
