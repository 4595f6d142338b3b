//! The XMP stage: from the parsed packet to what it contributes to the
//! record.

use vstd::prelude::*;

use crate::error::ExtractError;
use crate::record::text_view;
use crate::record::thumbnail_list_view;
use crate::record::thumbnail_view;
use crate::record::thumbnail_views;
use crate::record::Thumbnail;
use crate::record::ThumbnailView;
use crate::record::XmpRecord;
use crate::record::XmpView;
use crate::text::copy_text;
use crate::xml::tree_views;
use crate::xml::XmlNode;
use crate::xml::XmlTree;

verus! {

pub const RDF_NS: &'static str = "http://www.w3.org/1999/02/22-rdf-syntax-ns#";

pub const DC_NS: &'static str = "http://purl.org/dc/elements/1.1/";

pub const XMP_NS: &'static str = "http://ns.adobe.com/xap/1.0/";

pub const XMP_IMAGE_NS: &'static str = "http://ns.adobe.com/xap/1.0/g/img/";

pub const XMP_MM_NS: &'static str = "http://ns.adobe.com/xap/1.0/mm/";

pub const XMP_REF_NS: &'static str = "http://ns.adobe.com/xap/1.0/sType/ResourceRef#";

/// The first nested text value of a property: the text of the first item
/// of its container. `None` where the property has no container or the
/// container no item.
pub open spec fn nested_text(property: XmlTree) -> Option<Seq<char>> {
    if property.children.len() > 0 && property.children[0].children.len() > 0 {
        Some(property.children[0].children[0].text)
    } else {
        None
    }
}

/// The first nested text value of the property `name` of a description
/// entry, where the entry has that property.
pub open spec fn property_text(entry: XmlTree, name: Seq<char>, namespace: Seq<char>) -> Option<
    Seq<char>,
> {
    match entry.child(name, namespace) {
        Some(property) => nested_text(property),
        None => None,
    }
}

/// The original document id of a description entry: the text of
/// `originalDocumentID` inside `DerivedFrom`.
pub open spec fn derived_from_id(entry: XmlTree) -> Option<Seq<char>> {
    match entry.child("DerivedFrom"@, XMP_MM_NS@) {
        Some(derived) => match derived.child("originalDocumentID"@, XMP_REF_NS@) {
            Some(id) => Some(id.text),
            None => None,
        },
        None => None,
    }
}

/// The thumbnail that a descriptor describes; `None` where one of its four
/// parts is missing.
pub open spec fn descriptor(item: XmlTree) -> Option<ThumbnailView> {
    match (
        item.child("format"@, XMP_IMAGE_NS@),
        item.child("width"@, XMP_IMAGE_NS@),
        item.child("height"@, XMP_IMAGE_NS@),
        item.child("image"@, XMP_IMAGE_NS@),
    ) {
        (Some(format), Some(width), Some(height), Some(image)) => Some(
            ThumbnailView {
                format: format.text,
                width: width.text,
                height: height.text,
                image: image.text,
            },
        ),
        _ => None,
    }
}

/// The thumbnails of the first `n` descriptors, in order; `None` where one
/// of them is incomplete.
pub open spec fn descriptors(items: Seq<XmlTree>, n: nat) -> Option<Seq<ThumbnailView>>
    decreases n,
{
    if n == 0 {
        Some(Seq::empty())
    } else {
        match (descriptors(items, (n - 1) as nat), descriptor(items[n - 1])) {
            (Some(list), Some(thumbnail)) => Some(list.push(thumbnail)),
            _ => None,
        }
    }
}

/// The thumbnails that a description entry lists: the descriptors in the
/// container of its `Thumbnails` property. An entry without that property,
/// or with an empty property, lists none. `None` where a descriptor is
/// incomplete.
pub open spec fn entry_thumbnails(entry: XmlTree) -> Option<Seq<ThumbnailView>> {
    match entry.child("Thumbnails"@, XMP_NS@) {
        Some(property) => if property.children.len() > 0 {
            let items = property.children[0].children;
            descriptors(items, items.len())
        } else {
            Some(Seq::empty())
        },
        None => Some(Seq::empty()),
    }
}

/// `later` where it is set, else `earlier`.
pub open spec fn overwritten(earlier: Option<Seq<char>>, later: Option<Seq<char>>) -> Option<
    Seq<char>,
> {
    match later {
        Some(text) => Some(text),
        None => earlier,
    }
}

/// What the packet contributes after one more description entry: the
/// entry's title, rights, creator and original document id overwrite what
/// earlier entries set, and its thumbnails are appended. `None` where a
/// thumbnail descriptor of the entry is incomplete.
pub open spec fn with_entry(acc: XmpView, entry: XmlTree) -> Option<XmpView> {
    match entry_thumbnails(entry) {
        Some(thumbnails) => Some(
            XmpView {
                title: overwritten(acc.title, property_text(entry, "title"@, DC_NS@)),
                author: overwritten(acc.author, property_text(entry, "creator"@, DC_NS@)),
                copyright: overwritten(acc.copyright, property_text(entry, "rights"@, DC_NS@)),
                thumbnails: acc.thumbnails + thumbnails,
                original_document_id: overwritten(
                    acc.original_document_id,
                    derived_from_id(entry),
                ),
            },
        ),
        None => None,
    }
}

/// What the first `n` description entries contribute, taken in order.
pub open spec fn with_entries(entries: Seq<XmlTree>, n: nat) -> Option<XmpView>
    decreases n,
{
    if n == 0 {
        Some(XmpView::empty())
    } else {
        match with_entries(entries, (n - 1) as nat) {
            Some(acc) => with_entry(acc, entries[n - 1]),
            None => None,
        }
    }
}

/// What a parsed packet contributes: the description entries are the child
/// elements of the `RDF` element below the root. A packet without that
/// element contributes nothing. `None` where a thumbnail descriptor is
/// incomplete.
pub open spec fn packet_record(root: XmlTree) -> Option<XmpView> {
    match root.child("RDF"@, RDF_NS@) {
        Some(rdf) => with_entries(rdf.children, rdf.children.len()),
        None => Some(XmpView::empty()),
    }
}

/// Once a descriptor is incomplete, the list as a whole is.
pub proof fn lemma_descriptors_stay_incomplete(items: Seq<XmlTree>, k: nat, n: nat)
    requires
        k <= n,
        descriptors(items, k) is None,
    ensures
        descriptors(items, n) is None,
    decreases n,
{
    if k < n {
        lemma_descriptors_stay_incomplete(items, k, (n - 1) as nat);
    }
}

/// Once an entry has failed, the packet as a whole has.
pub proof fn lemma_entries_stay_failed(entries: Seq<XmlTree>, k: nat, n: nat)
    requires
        k <= n,
        with_entries(entries, k) is None,
    ensures
        with_entries(entries, n) is None,
    decreases n,
{
    if k < n {
        lemma_entries_stay_failed(entries, k, (n - 1) as nat);
    }
}

/// Takes the first nested text value of a property.
pub fn read_nested_text(property: &XmlNode) -> (r: Option<String>)
    ensures
        text_view(r) == nested_text(property@),
{
    proof {
        property.lemma_view_of_children();
    }
    if property.children.len() > 0 {
        let container = &property.children[0];
        proof {
            container.lemma_view_of_children();
        }
        if container.children.len() > 0 {
            return Some(copy_text(&container.children[0].text));
        }
    }
    None
}

/// Takes the first nested text value of the property `name` of an entry.
pub fn read_property_text(entry: &XmlNode, name: &str, namespace: &str) -> (r: Option<String>)
    ensures
        text_view(r) == property_text(entry@, name@, namespace@),
{
    match entry.get_child(name, namespace) {
        Some(property) => read_nested_text(property),
        None => None,
    }
}

/// Takes the original document id of an entry.
pub fn read_derived_from_id(entry: &XmlNode) -> (r: Option<String>)
    ensures
        text_view(r) == derived_from_id(entry@),
{
    match entry.get_child("DerivedFrom", XMP_MM_NS) {
        Some(derived) => match derived.get_child("originalDocumentID", XMP_REF_NS) {
            Some(id) => Some(copy_text(&id.text)),
            None => None,
        },
        None => None,
    }
}

/// Reads one thumbnail descriptor.
pub fn read_descriptor(item: &XmlNode) -> (r: Option<Thumbnail>)
    ensures
        thumbnail_view(r) == descriptor(item@),
{
    let format = match item.get_child("format", XMP_IMAGE_NS) {
        Some(part) => copy_text(&part.text),
        None => return None,
    };
    let width = match item.get_child("width", XMP_IMAGE_NS) {
        Some(part) => copy_text(&part.text),
        None => return None,
    };
    let height = match item.get_child("height", XMP_IMAGE_NS) {
        Some(part) => copy_text(&part.text),
        None => return None,
    };
    let image = match item.get_child("image", XMP_IMAGE_NS) {
        Some(part) => copy_text(&part.text),
        None => return None,
    };
    Some(Thumbnail { format, width, height, image })
}

/// Reads a list of thumbnail descriptors, in order.
pub fn read_descriptors(items: &Vec<XmlNode>) -> (r: Option<Vec<Thumbnail>>)
    ensures
        thumbnail_list_view(r) == descriptors(tree_views(items@), items@.len()),
{
    let mut list: Vec<Thumbnail> = Vec::new();
    let mut i: usize = 0;
    assert(thumbnail_views(list@) =~= Seq::empty());
    while i < items.len()
        invariant
            i <= items.len(),
            descriptors(tree_views(items@), i as nat) == Some(thumbnail_views(list@)),
        decreases items.len() - i,
    {
        match read_descriptor(&items[i]) {
            Some(thumbnail) => {
                let ghost before = list@;
                list.push(thumbnail);
                assert(thumbnail_views(list@) =~= thumbnail_views(before).push(thumbnail@));
            },
            None => {
                proof {
                    lemma_descriptors_stay_incomplete(
                        tree_views(items@),
                        (i + 1) as nat,
                        items@.len(),
                    );
                }
                return None;
            },
        }
        i = i + 1;
    }
    Some(list)
}

/// Reads the thumbnails that a description entry lists.
pub fn read_entry_thumbnails(entry: &XmlNode) -> (r: Option<Vec<Thumbnail>>)
    ensures
        thumbnail_list_view(r) == entry_thumbnails(entry@),
{
    match entry.get_child("Thumbnails", XMP_NS) {
        Some(property) => {
            proof {
                property.lemma_view_of_children();
            }
            if property.children.len() > 0 {
                let container = &property.children[0];
                proof {
                    container.lemma_view_of_children();
                }
                read_descriptors(&container.children)
            } else {
                let list: Vec<Thumbnail> = Vec::new();
                assert(thumbnail_views(list@) =~= Seq::empty());
                Some(list)
            }
        },
        None => {
            let list: Vec<Thumbnail> = Vec::new();
            assert(thumbnail_views(list@) =~= Seq::empty());
            Some(list)
        },
    }
}

/// Reads one description entry into what the packet has contributed so
/// far. Fails, leaving `acc` as it was, where a thumbnail descriptor of the
/// entry is incomplete.
pub fn apply_entry(acc: &mut XmpRecord, entry: &XmlNode) -> (r: Result<(), ExtractError>)
    ensures
        match with_entry(old(acc)@, entry@) {
            Some(view) => r is Ok && final(acc)@ == view,
            None => r == Err::<(), ExtractError>(ExtractError::IncompleteThumbnail) && final(acc)@
                == old(acc)@,
        },
{
    let mut thumbnails = match read_entry_thumbnails(entry) {
        Some(thumbnails) => thumbnails,
        None => return Err(ExtractError::IncompleteThumbnail),
    };
    if let Some(title) = read_property_text(entry, "title", DC_NS) {
        acc.title = Some(title);
    }
    if let Some(rights) = read_property_text(entry, "rights", DC_NS) {
        acc.copyright = Some(rights);
    }
    if let Some(creator) = read_property_text(entry, "creator", DC_NS) {
        acc.author = Some(creator);
    }
    let ghost before = acc.thumbnails@;
    let ghost added = thumbnails@;
    acc.thumbnails.append(&mut thumbnails);
    assert(thumbnail_views(acc.thumbnails@) =~= thumbnail_views(before) + thumbnail_views(added));
    if let Some(id) = read_derived_from_id(entry) {
        acc.original_document_id = Some(id);
    }
    Ok(())
}

/// Reads a parsed XMP packet: every description entry in document order.
/// Fails exactly where a thumbnail descriptor is incomplete.
pub fn read_packet(root: &XmlNode) -> (r: Result<XmpRecord, ExtractError>)
    ensures
        match packet_record(root@) {
            Some(view) => r matches Ok(record) && record@ == view,
            None => r matches Err(e) && e == ExtractError::IncompleteThumbnail,
        },
{
    let mut acc = XmpRecord::new();
    match root.get_child("RDF", RDF_NS) {
        Some(rdf) => {
            let mut i: usize = 0;
            proof {
                rdf.lemma_view_of_children();
            }
            while i < rdf.children.len()
                invariant
                    i <= rdf.children.len(),
                    root@.child("RDF"@, RDF_NS@) == Some(rdf@),
                    rdf@.children == tree_views(rdf.children@),
                    with_entries(rdf@.children, i as nat) == Some(acc@),
                decreases rdf.children.len() - i,
            {
                match apply_entry(&mut acc, &rdf.children[i]) {
                    Ok(()) => {},
                    Err(e) => {
                        proof {
                            lemma_entries_stay_failed(
                                rdf@.children,
                                (i + 1) as nat,
                                rdf@.children.len(),
                            );
                        }
                        return Err(e);
                    },
                }
                i = i + 1;
            }
            Ok(acc)
        },
        None => Ok(acc),
    }
}

} // verus!
