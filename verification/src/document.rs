//! The reader for PDF and PostScript documents: from the entries of the
//! Info dictionary and the metadata stream to the canonical record.

use vstd::prelude::*;

use crate::record::Record;
use crate::record::text_view;
use crate::record::RecordView;
use crate::text::copy_text;
use crate::text::decode_text;
use crate::text::same_text;
use crate::text::utf8_text;

verus! {

/// One entry of a document's Info dictionary.
#[derive(Debug, PartialEq, Eq)]
pub struct InfoEntry {
    /// The key, without the leading slash.
    pub key: String,
    /// The value as text, where the value is a string that decodes.
    pub text: Option<String>,
}

/// What was read of an opened document.
#[derive(Debug, PartialEq, Eq)]
pub struct PdfDocument {
    /// The entries of the trailer's Info dictionary.
    pub info: Vec<InfoEntry>,
    /// The content of the catalog's metadata stream, where the catalog
    /// names one and it could be resolved.
    pub metadata: Option<Vec<u8>>,
}

/// The mathematical view of an [`InfoEntry`].
pub struct InfoEntryView {
    pub key: Seq<char>,
    pub text: Option<Seq<char>>,
}

/// The mathematical view of a [`PdfDocument`].
pub struct PdfDocumentView {
    pub info: Seq<InfoEntryView>,
    pub metadata: Option<Seq<u8>>,
}

impl View for InfoEntry {
    type V = InfoEntryView;

    open spec fn view(&self) -> InfoEntryView {
        InfoEntryView { key: self.key@, text: text_view(self.text) }
    }
}

/// The views of a list of entries, in order.
pub open spec fn entry_views(entries: Seq<InfoEntry>) -> Seq<InfoEntryView> {
    Seq::new(entries.len(), |i: int| entries[i]@)
}

impl View for PdfDocument {
    type V = PdfDocumentView;

    open spec fn view(&self) -> PdfDocumentView {
        PdfDocumentView {
            info: entry_views(self.info@),
            metadata: match self.metadata {
                Some(bytes) => Some(bytes@),
                None => None,
            },
        }
    }
}

/// The record after one Info entry is read into it: `Title`, `Author` and
/// `Subject` set title, author and description. An entry with another key,
/// or whose value is not text, leaves the record as it is.
pub open spec fn with_info_entry(rec: RecordView, entry: InfoEntryView) -> RecordView {
    match entry.text {
        Some(text) => if entry.key == "Title"@ {
            RecordView { title: text, ..rec }
        } else if entry.key == "Author"@ {
            RecordView { author: text, ..rec }
        } else if entry.key == "Subject"@ {
            RecordView { description: text, ..rec }
        } else {
            rec
        },
        None => rec,
    }
}

/// The record after the first `n` Info entries are read into `rec`.
pub open spec fn with_info_entries(
    rec: RecordView,
    entries: Seq<InfoEntryView>,
    n: nat,
) -> RecordView
    decreases n,
{
    if n == 0 {
        rec
    } else {
        with_info_entry(with_info_entries(rec, entries, (n - 1) as nat), entries[n - 1])
    }
}

/// The raw XMP packet of a document: the content of its metadata stream
/// read as UTF-8. `None` where there is no stream or it is not UTF-8.
pub open spec fn document_packet(metadata: Option<Seq<u8>>) -> Option<Seq<char>> {
    match metadata {
        Some(bytes) => utf8_text(bytes),
        None => None,
    }
}

/// The record that a document gives: its Info entries read into the empty
/// record, and its metadata stream, where it has one that decodes, as the
/// raw XMP packet.
pub open spec fn document_record(document: PdfDocumentView) -> RecordView {
    let info = with_info_entries(RecordView::empty(), document.info, document.info.len());
    match document_packet(document.metadata) {
        Some(text) => RecordView { xmp: text, ..info },
        None => info,
    }
}

/// Info entries set title, author and description and nothing else.
pub proof fn lemma_info_entries_set_three_fields(
    rec: RecordView,
    entries: Seq<InfoEntryView>,
    n: nat,
)
    ensures
        with_info_entries(rec, entries, n) == (RecordView {
            title: with_info_entries(rec, entries, n).title,
            author: with_info_entries(rec, entries, n).author,
            description: with_info_entries(rec, entries, n).description,
            ..rec
        }),
    decreases n,
{
    if n > 0 {
        lemma_info_entries_set_three_fields(rec, entries, (n - 1) as nat);
    }
}

/// A document without a metadata stream that decodes has an empty raw XMP
/// packet: the Info dictionary is kept, and nothing stands in for the
/// packet.
pub proof fn lemma_document_without_packet(document: PdfDocumentView)
    requires
        document_packet(document.metadata) is None,
    ensures
        document_record(document).xmp == Seq::<char>::empty(),
        document_record(document) == with_info_entries(
            RecordView::empty(),
            document.info,
            document.info.len(),
        ),
{
    lemma_info_entries_set_three_fields(RecordView::empty(), document.info, document.info.len());
}

/// Reads one Info entry into the record.
pub fn apply_info_entry(rec: &mut Record, entry: &InfoEntry)
    ensures
        final(rec)@ == with_info_entry(old(rec)@, entry@),
{
    if let Some(text) = &entry.text {
        if same_text(&entry.key, "Title") {
            rec.title = copy_text(text);
        } else if same_text(&entry.key, "Author") {
            rec.author = copy_text(text);
        } else if same_text(&entry.key, "Subject") {
            rec.description = copy_text(text);
        }
    }
}

/// Reads an opened document into a record.
pub fn read_document(document: &PdfDocument) -> (rec: Record)
    ensures
        rec@ == document_record(document@),
{
    let mut rec = Record::new();
    let mut i: usize = 0;
    while i < document.info.len()
        invariant
            i <= document.info.len(),
            rec@ == with_info_entries(RecordView::empty(), entry_views(document.info@), i as nat),
        decreases document.info.len() - i,
    {
        apply_info_entry(&mut rec, &document.info[i]);
        i = i + 1;
    }
    if let Some(bytes) = &document.metadata {
        if let Some(text) = decode_text(bytes) {
            rec.xmp = text;
        }
    }
    rec
}

} // verus!
