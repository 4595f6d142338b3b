use metadata_extractor::document::read_document;
use metadata_extractor::document::InfoEntry;
use metadata_extractor::document::PdfDocument;
use metadata_extractor::error::ExtractError;
use metadata_extractor::extract::selects_document_reader;
use metadata_extractor::record::Metadata;

fn entry(key: &str, text: Option<&str>) -> InfoEntry {
    InfoEntry { key: key.to_string(), text: text.map(|t| t.to_string()) }
}

fn document(info: Vec<InfoEntry>, metadata: Option<&[u8]>) -> PdfDocument {
    PdfDocument { info, metadata: metadata.map(|m| m.to_vec()) }
}

fn packet_with_title(title: &str) -> String {
    let mut out = String::new();
    out.push_str("<x:xmpmeta xmlns:x=\"adobe:ns:meta/\">");
    out.push_str("<rdf:RDF xmlns:rdf=\"http://www.w3.org/1999/02/22-rdf-syntax-ns#\">");
    out.push_str("<rdf:Description xmlns:dc=\"http://purl.org/dc/elements/1.1/\">");
    out.push_str("<dc:title><rdf:Alt><rdf:li>");
    out.push_str(title);
    out.push_str("</rdf:li></rdf:Alt></dc:title>");
    out.push_str("</rdf:Description></rdf:RDF></x:xmpmeta>");
    out
}

fn extract_pdf(opened: Option<PdfDocument>) -> Result<Metadata, ExtractError> {
    Metadata::get_metadata(Vec::new(), "application/pdf".to_string(), opened)
}

#[test]
fn exactly_two_formats_select_the_document_reader() {
    assert!(selects_document_reader(&"application/pdf".to_string()));
    assert!(selects_document_reader(&"application/postscript".to_string()));
    assert!(!selects_document_reader(&"application/PDF".to_string()));
    assert!(!selects_document_reader(&"application/pdf;version=1.7".to_string()));
    assert!(!selects_document_reader(&"image/jpeg".to_string()));
    assert!(!selects_document_reader(&String::new()));
}

#[test]
fn info_title_without_packet_is_the_title() {
    let opened = document(vec![entry("Title", Some("Foo"))], None);
    assert_eq!(extract_pdf(Some(opened)).unwrap().title, "Foo");
}

#[test]
fn info_title_with_packet_that_has_no_title_is_the_title() {
    let packet = concat_all(&[
        "<x:xmpmeta xmlns:x=\"adobe:ns:meta/\">",
        "<rdf:RDF xmlns:rdf=\"http://www.w3.org/1999/02/22-rdf-syntax-ns#\">",
        "<rdf:Description xmlns:dc=\"http://purl.org/dc/elements/1.1/\">",
        "<dc:creator><rdf:Seq><rdf:li>Ann</rdf:li></rdf:Seq></dc:creator>",
        "</rdf:Description></rdf:RDF></x:xmpmeta>",
    ]);
    let opened = document(vec![entry("Title", Some("Foo"))], Some(packet.as_bytes()));
    let metadata = extract_pdf(Some(opened)).unwrap();
    assert_eq!(metadata.title, "Foo");
    assert_eq!(metadata.author, "Ann");
}

#[test]
fn packet_title_overrides_info_title() {
    let packet = packet_with_title("Bar");
    let opened = document(vec![entry("Title", Some("Foo"))], Some(packet.as_bytes()));
    let metadata = extract_pdf(Some(opened)).unwrap();
    assert_eq!(metadata.title, "Bar");
    assert_eq!(metadata.xmp, packet);
}

#[test]
fn packet_title_that_is_empty_still_overrides() {
    let packet = packet_with_title("");
    let opened = document(vec![entry("Title", Some("Foo"))], Some(packet.as_bytes()));
    assert_eq!(extract_pdf(Some(opened)).unwrap().title, "");
}

fn concat_all(parts: &[&str]) -> String {
    let mut out = String::new();
    for part in parts {
        out.push_str(part);
    }
    out
}

#[test]
fn known_info_keys_fill_three_fields() {
    let opened = document(
        vec![
            entry("Author", Some("Ann")),
            entry("Subject", Some("About things")),
            entry("Title", Some("Things")),
        ],
        None,
    );
    let record = read_document(&opened);
    assert_eq!(record.title, "Things");
    assert_eq!(record.author, "Ann");
    assert_eq!(record.description, "About things");
    assert_eq!(record.copyright, "");
    assert_eq!(record.xmp, "");
}

#[test]
fn unknown_info_keys_are_ignored() {
    let opened = document(
        vec![
            entry("Producer", Some("A printer")),
            entry("title", Some("lower case")),
            entry("Keywords", Some("a, b")),
        ],
        None,
    );
    assert_eq!(read_document(&opened), metadata_extractor::record::Record::new());
}

#[test]
fn info_values_that_are_not_text_are_ignored() {
    let opened = document(vec![entry("Title", None), entry("Author", Some("Ann"))], None);
    let record = read_document(&opened);
    assert_eq!(record.title, "");
    assert_eq!(record.author, "Ann");
}

#[test]
fn a_later_info_entry_with_the_same_key_stays() {
    let opened = document(vec![entry("Title", Some("One")), entry("Title", Some("Two"))], None);
    assert_eq!(read_document(&opened).title, "Two");
}

#[test]
fn metadata_stream_becomes_the_raw_packet() {
    let opened = document(Vec::new(), Some("caf\u{e9}".as_bytes()));
    assert_eq!(read_document(&opened).xmp, "caf\u{e9}");
}

#[test]
fn metadata_stream_that_is_not_utf8_leaves_the_packet_empty_and_keeps_info() {
    let opened = document(vec![entry("Title", Some("Foo"))], Some(&[0x3c, 0xfe, 0xff]));
    let metadata = extract_pdf(Some(opened)).unwrap();
    assert_eq!(metadata.xmp, "");
    assert_eq!(metadata.title, "Foo");
}

#[test]
fn document_that_could_not_be_opened_is_fatal() {
    assert_eq!(extract_pdf(None), Err(ExtractError::UnreadableDocument));
    assert_eq!(
        Metadata::get_metadata(b"%PDF-1.4".to_vec(), "application/postscript".to_string(), None),
        Err(ExtractError::UnreadableDocument)
    );
}

#[test]
fn document_reader_does_not_look_at_the_bytes() {
    let opened = document(vec![entry("Title", Some("Foo"))], None);
    let metadata =
        Metadata::get_metadata(b"junk".to_vec(), "application/postscript".to_string(), Some(opened))
            .unwrap();
    assert_eq!(metadata.title, "Foo");
}

#[test]
fn image_reader_does_not_look_at_the_document() {
    let opened = document(vec![entry("Title", Some("Foo"))], None);
    assert_eq!(
        Metadata::get_metadata(b"junk".to_vec(), "image/png".to_string(), Some(opened)),
        Err(ExtractError::MalformedContainer)
    );
}

#[test]
fn document_has_the_empty_shapes_for_what_it_cannot_hold() {
    let opened = document(vec![entry("Title", Some("Foo"))], None);
    let metadata = Metadata::from_document(&opened).unwrap();
    assert_eq!(metadata.resolution, "[{}]");
    assert_eq!(metadata.gps, "[]");
    assert_eq!(metadata.subject_area, "{}");
    assert_eq!(metadata.thumbnails, "[]");
    assert_eq!(metadata.width, "");
    assert_eq!(metadata.iptc, "");
}

#[test]
fn same_document_gives_the_same_record() {
    let build = || document(vec![entry("Title", Some("Foo"))], Some(packet_with_title("Bar").as_bytes()));
    let first = extract_pdf(Some(build()));
    let second = extract_pdf(Some(build()));
    assert!(first.is_ok());
    assert_eq!(first, second);
}
