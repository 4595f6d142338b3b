use metadata_extractor::error::ExtractError;
use metadata_extractor::merge::merge;
use metadata_extractor::record::Metadata;
use metadata_extractor::record::Record;
use metadata_extractor::record::Thumbnail;
use metadata_extractor::record::XmpRecord;
use metadata_extractor::xml::XmlNode;
use metadata_extractor::xmp::read_descriptor;
use metadata_extractor::xmp::read_nested_text;
use metadata_extractor::xmp::read_packet;

const RDF: &str = "http://www.w3.org/1999/02/22-rdf-syntax-ns#";
const DC: &str = "http://purl.org/dc/elements/1.1/";
const XMP: &str = "http://ns.adobe.com/xap/1.0/";
const IMG: &str = "http://ns.adobe.com/xap/1.0/g/img/";
const MM: &str = "http://ns.adobe.com/xap/1.0/mm/";
const REF: &str = "http://ns.adobe.com/xap/1.0/sType/ResourceRef#";

fn node(name: &str, namespace: &str, text: &str, children: Vec<XmlNode>) -> XmlNode {
    XmlNode {
        name: name.to_string(),
        namespace: namespace.to_string(),
        text: text.to_string(),
        children,
    }
}

fn leaf(name: &str, namespace: &str, text: &str) -> XmlNode {
    node(name, namespace, text, Vec::new())
}

fn alt(items: Vec<XmlNode>) -> XmlNode {
    node("Alt", RDF, "", items)
}

fn li(text: &str) -> XmlNode {
    leaf("li", RDF, text)
}

fn property(name: &str, value: &str) -> XmlNode {
    node(name, DC, "", vec![alt(vec![li(value)])])
}

fn description(children: Vec<XmlNode>) -> XmlNode {
    node("Description", RDF, "", children)
}

fn packet(descriptions: Vec<XmlNode>) -> XmlNode {
    node("xmpmeta", "adobe:ns:meta/", "", vec![node("RDF", RDF, "", descriptions)])
}

fn descriptor(parts: &[(&str, &str)]) -> XmlNode {
    node("li", RDF, "", parts.iter().map(|(name, text)| leaf(name, IMG, text)).collect())
}

fn thumbnails(descriptors: Vec<XmlNode>) -> XmlNode {
    node("Thumbnails", XMP, "", vec![alt(descriptors)])
}

fn full_descriptor(format: &str, width: &str, height: &str, image: &str) -> XmlNode {
    descriptor(&[("format", format), ("width", width), ("height", height), ("image", image)])
}

fn thumbnail(format: &str, width: &str, height: &str, image: &str) -> Thumbnail {
    Thumbnail {
        format: format.to_string(),
        width: width.to_string(),
        height: height.to_string(),
        image: image.to_string(),
    }
}

fn native_with_packet(packet: &str) -> Record {
    let mut native = Record::new();
    native.title = "Native title".to_string();
    native.author = "Native author".to_string();
    native.copyright = "Native rights".to_string();
    native.make = "\"Canon\"".to_string();
    native.xmp = packet.to_string();
    native
}

#[test]
fn first_child_with_name_and_namespace_is_found() {
    let root = node(
        "node",
        "ns",
        "",
        vec![leaf("a", "other", "1"), leaf("b", "ns", "2"), leaf("a", "ns", "3"), leaf("a", "ns", "4")],
    );
    assert_eq!(root.get_child("a", "ns").map(|n| n.text.as_str()), Some("3"));
    assert_eq!(root.get_child("a", "other").map(|n| n.text.as_str()), Some("1"));
    assert_eq!(root.get_child("b", "ns").map(|n| n.text.as_str()), Some("2"));
    assert!(root.get_child("c", "ns").is_none());
    assert!(root.get_child("b", "other").is_none());
    assert!(root.get_child("node", "ns").is_none());
    assert!(root.is("node", "ns"));
    assert!(!root.is("node", "other"));
}

#[test]
fn nested_text_is_the_first_item_of_the_first_container() {
    let title = node(
        "title",
        DC,
        "outer",
        vec![alt(vec![li("first"), li("second")]), alt(vec![li("other container")])],
    );
    assert_eq!(read_nested_text(&title), Some("first".to_string()));
}

#[test]
fn nested_text_needs_a_container_and_an_item() {
    assert_eq!(read_nested_text(&leaf("title", DC, "bare text")), None);
    assert_eq!(read_nested_text(&node("title", DC, "", vec![alt(Vec::new())])), None);
}

#[test]
fn packet_defines_title_rights_and_creator() {
    let root = packet(vec![description(vec![
        property("title", "A title"),
        property("rights", "Some rights"),
        property("creator", "A creator"),
    ])]);
    let xmp = read_packet(&root).unwrap();
    assert_eq!(xmp.title, Some("A title".to_string()));
    assert_eq!(xmp.copyright, Some("Some rights".to_string()));
    assert_eq!(xmp.author, Some("A creator".to_string()));
    assert_eq!(xmp.original_document_id, None);
    assert!(xmp.thumbnails.is_empty());
}

#[test]
fn packet_without_rdf_defines_nothing() {
    let root = node("xmpmeta", "adobe:ns:meta/", "", vec![description(vec![property("title", "T")])]);
    assert_eq!(read_packet(&root), Ok(XmpRecord::new()));
}

#[test]
fn rdf_in_another_namespace_is_not_the_rdf_root() {
    let root = node(
        "xmpmeta",
        "adobe:ns:meta/",
        "",
        vec![node("RDF", "urn:other", "", vec![description(vec![property("title", "T")])])],
    );
    assert_eq!(read_packet(&root), Ok(XmpRecord::new()));
}

#[test]
fn properties_in_another_namespace_are_ignored() {
    let root = packet(vec![description(vec![node(
        "title",
        "urn:other",
        "",
        vec![alt(vec![li("not dublin core")])],
    )])]);
    assert_eq!(read_packet(&root), Ok(XmpRecord::new()));
}

#[test]
fn later_entries_overwrite_earlier_ones() {
    let root = packet(vec![
        description(vec![property("title", "One"), property("creator", "Ann")]),
        description(vec![property("title", "Two")]),
    ]);
    let xmp = read_packet(&root).unwrap();
    assert_eq!(xmp.title, Some("Two".to_string()));
    assert_eq!(xmp.author, Some("Ann".to_string()));
}

#[test]
fn property_without_container_is_left_unset() {
    let root = packet(vec![
        description(vec![property("title", "One")]),
        description(vec![leaf("title", DC, "bare")]),
    ]);
    assert_eq!(read_packet(&root).unwrap().title, Some("One".to_string()));
}

#[test]
fn original_document_id_is_read_from_derived_from() {
    let root = packet(vec![description(vec![node(
        "DerivedFrom",
        MM,
        "",
        vec![leaf("documentID", REF, "xmp.did:1"), leaf("originalDocumentID", REF, "xmp.did:0")],
    )])]);
    assert_eq!(read_packet(&root).unwrap().original_document_id, Some("xmp.did:0".to_string()));
}

#[test]
fn derived_from_without_original_id_sets_nothing() {
    let root = packet(vec![description(vec![node(
        "DerivedFrom",
        MM,
        "",
        vec![leaf("documentID", REF, "xmp.did:1")],
    )])]);
    assert_eq!(read_packet(&root).unwrap().original_document_id, None);
}

#[test]
fn descriptor_with_all_four_parts_is_read() {
    assert_eq!(
        read_descriptor(&full_descriptor("JPEG", "256", "128", "AAAA")),
        Some(thumbnail("JPEG", "256", "128", "AAAA"))
    );
}

#[test]
fn descriptor_lacking_any_part_is_incomplete() {
    let all = [("format", "JPEG"), ("width", "256"), ("height", "128"), ("image", "AAAA")];
    for missing in 0..all.len() {
        let mut parts = all.to_vec();
        parts.remove(missing);
        assert_eq!(read_descriptor(&descriptor(&parts)), None);
    }
}

#[test]
fn thumbnails_are_appended_in_document_order() {
    let root = packet(vec![
        description(vec![thumbnails(vec![
            full_descriptor("JPEG", "1", "2", "a"),
            full_descriptor("PNG", "3", "4", "b"),
        ])]),
        description(vec![property("title", "T")]),
        description(vec![thumbnails(vec![full_descriptor("GIF", "5", "6", "c")])]),
    ]);
    let xmp = read_packet(&root).unwrap();
    assert_eq!(
        xmp.thumbnails,
        vec![
            thumbnail("JPEG", "1", "2", "a"),
            thumbnail("PNG", "3", "4", "b"),
            thumbnail("GIF", "5", "6", "c"),
        ]
    );
}

#[test]
fn empty_thumbnails_property_lists_none() {
    let root = packet(vec![description(vec![
        node("Thumbnails", XMP, "", Vec::new()),
        property("title", "T"),
    ])]);
    let xmp = read_packet(&root).unwrap();
    assert!(xmp.thumbnails.is_empty());
    assert_eq!(xmp.title, Some("T".to_string()));
}

#[test]
fn incomplete_descriptor_fails_the_whole_packet() {
    let root = packet(vec![
        description(vec![property("title", "T")]),
        description(vec![thumbnails(vec![
            full_descriptor("JPEG", "1", "2", "a"),
            descriptor(&[("format", "PNG"), ("width", "3"), ("image", "b")]),
        ])]),
        description(vec![property("creator", "Ann")]),
    ]);
    assert_eq!(read_packet(&root), Err(ExtractError::IncompleteThumbnail));
}

#[test]
fn incomplete_descriptor_aborts_the_extraction() {
    let root = packet(vec![description(vec![thumbnails(vec![descriptor(&[("format", "PNG")])])])]);
    assert_eq!(
        Metadata::complete(native_with_packet(""), Some(&root)),
        Err(ExtractError::IncompleteThumbnail)
    );
}

#[test]
fn incomplete_descriptor_in_the_raw_packet_aborts_the_extraction() {
    let text = concat_all(&[
        "<x:xmpmeta xmlns:x=\"adobe:ns:meta/\">",
        "<rdf:RDF xmlns:rdf=\"http://www.w3.org/1999/02/22-rdf-syntax-ns#\">",
        "<rdf:Description xmlns:xmp=\"http://ns.adobe.com/xap/1.0/\" ",
        "xmlns:xmpGImg=\"http://ns.adobe.com/xap/1.0/g/img/\">",
        "<xmp:Thumbnails><rdf:Alt><rdf:li>",
        "<xmpGImg:width>256</xmpGImg:width><xmpGImg:height>128</xmpGImg:height>",
        "<xmpGImg:image>AAAA</xmpGImg:image>",
        "</rdf:li></rdf:Alt></xmp:Thumbnails>",
        "</rdf:Description></rdf:RDF></x:xmpmeta>",
    ]);
    assert_eq!(Metadata::finish(native_with_packet(&text)), Err(ExtractError::IncompleteThumbnail));
}

fn concat_all(parts: &[&str]) -> String {
    let mut out = String::new();
    for part in parts {
        out.push_str(part);
    }
    out
}

#[test]
fn raw_packet_is_parsed_and_applied() {
    let text = concat_all(&[
        "<x:xmpmeta xmlns:x=\"adobe:ns:meta/\">",
        "<rdf:RDF xmlns:rdf=\"http://www.w3.org/1999/02/22-rdf-syntax-ns#\">",
        "<rdf:Description xmlns:dc=\"http://purl.org/dc/elements/1.1/\" ",
        "xmlns:xmp=\"http://ns.adobe.com/xap/1.0/\" ",
        "xmlns:xmpGImg=\"http://ns.adobe.com/xap/1.0/g/img/\" ",
        "xmlns:xmpMM=\"http://ns.adobe.com/xap/1.0/mm/\" ",
        "xmlns:stRef=\"http://ns.adobe.com/xap/1.0/sType/ResourceRef#\">",
        "<dc:title><rdf:Alt><rdf:li xml:lang=\"x-default\">Packet &amp; title</rdf:li>",
        "<rdf:li xml:lang=\"de\">Titel</rdf:li></rdf:Alt></dc:title>",
        "<dc:creator><rdf:Seq><rdf:li>Ann</rdf:li><rdf:li>Bob</rdf:li></rdf:Seq></dc:creator>",
        "<xmp:Thumbnails><rdf:Alt><rdf:li rdf:parseType=\"Resource\">",
        "<xmpGImg:format>JPEG</xmpGImg:format><xmpGImg:width>256</xmpGImg:width>",
        "<xmpGImg:height>128</xmpGImg:height><xmpGImg:image>/9j/4AAQ</xmpGImg:image>",
        "</rdf:li></rdf:Alt></xmp:Thumbnails>",
        "<xmpMM:DerivedFrom rdf:parseType=\"Resource\">",
        "<stRef:originalDocumentID>xmp.did:0</stRef:originalDocumentID>",
        "</xmpMM:DerivedFrom>",
        "</rdf:Description></rdf:RDF></x:xmpmeta>",
    ]);
    let metadata = Metadata::finish(native_with_packet(&text)).unwrap();
    assert_eq!(metadata.title, "Packet & title");
    assert_eq!(metadata.author, "Ann");
    assert_eq!(metadata.copyright, "Native rights");
    assert_eq!(metadata.make, "\"Canon\"");
    assert_eq!(metadata.original_document_id, "xmp.did:0");
    assert_eq!(
        metadata.thumbnails,
        r#"[{"format":"JPEG","width":"256","height":"128","image":"/9j/4AAQ"}]"#
    );
    assert_eq!(metadata.xmp, text);
}

#[test]
fn malformed_packet_keeps_the_native_values() {
    for text in ["<unclosed", "not xml", "<a><b></a></b>", "<a xmlns='n'>", "<noNamespace/>"] {
        let metadata = Metadata::finish(native_with_packet(text)).unwrap();
        assert_eq!(metadata.title, "Native title");
        assert_eq!(metadata.author, "Native author");
        assert_eq!(metadata.copyright, "Native rights");
        assert_eq!(metadata.xmp, text);
        assert_eq!(metadata.thumbnails, "[]");
    }
}

#[test]
fn empty_packet_is_not_parsed() {
    let metadata = Metadata::finish(native_with_packet("")).unwrap();
    assert_eq!(metadata.title, "Native title");
    assert_eq!(metadata.xmp, "");
}

#[test]
fn no_packet_keeps_the_native_record() {
    let metadata = Metadata::complete(native_with_packet("<ignored/>"), None).unwrap();
    assert_eq!(metadata.title, "Native title");
    assert_eq!(metadata.author, "Native author");
    assert_eq!(metadata.copyright, "Native rights");
    assert_eq!(metadata.xmp, "<ignored/>");
}

#[test]
fn merge_takes_from_the_packet_only_what_it_defines() {
    let mut native = native_with_packet("<p/>");
    native.width = "17 pixels".to_string();
    native.iptc = "blob".to_string();
    let mut xmp = XmpRecord::new();
    xmp.title = Some("Packet title".to_string());
    xmp.original_document_id = Some("xmp.did:0".to_string());
    xmp.thumbnails = vec![thumbnail("JPEG", "1", "2", "a")];
    let merged = merge(native, xmp);
    assert_eq!(merged.title, "Packet title");
    assert_eq!(merged.author, "Native author");
    assert_eq!(merged.copyright, "Native rights");
    assert_eq!(merged.original_document_id, "xmp.did:0");
    assert_eq!(merged.thumbnails, vec![thumbnail("JPEG", "1", "2", "a")]);
    assert_eq!(merged.width, "17 pixels");
    assert_eq!(merged.make, "\"Canon\"");
    assert_eq!(merged.iptc, "blob");
    assert_eq!(merged.xmp, "<p/>");
}

#[test]
fn merge_with_an_empty_packet_changes_nothing() {
    let merged = merge(native_with_packet("<p/>"), XmpRecord::new());
    assert_eq!(merged, native_with_packet("<p/>"));
}
