//! An XML document as a tree of plain values, and the parsing of one out of
//! text.

use vstd::prelude::*;

use crate::text::same_text;

verus! {

/// One element of an XML document.
#[derive(Debug, PartialEq, Eq)]
pub struct XmlNode {
    /// The local name, without prefix.
    pub name: String,
    /// The namespace the name stands in.
    pub namespace: String,
    /// The text directly inside the element, its pieces joined in order.
    pub text: String,
    /// The child elements, in document order.
    pub children: Vec<XmlNode>,
}

/// The mathematical view of an element: its names and text as sequences of
/// characters, and the views of its child elements.
pub struct XmlTree {
    pub name: Seq<char>,
    pub namespace: Seq<char>,
    pub text: Seq<char>,
    pub children: Seq<XmlTree>,
}

/// The view of an element and, through itself, of all that is below it.
pub open spec fn tree_of(node: XmlNode) -> XmlTree
    decreases node,
{
    XmlTree {
        name: node.name@,
        namespace: node.namespace@,
        text: node.text@,
        children: Seq::new(
            node.children@.len(),
            |i: int|
                if 0 <= i < node.children@.len() {
                    tree_of(node.children@[i])
                } else {
                    XmlTree {
                        name: Seq::empty(),
                        namespace: Seq::empty(),
                        text: Seq::empty(),
                        children: Seq::empty(),
                    }
                },
        ),
    }
}

impl View for XmlNode {
    type V = XmlTree;

    open spec fn view(&self) -> XmlTree {
        tree_of(*self)
    }
}

/// The views of a list of elements, in order.
pub open spec fn tree_views(nodes: Seq<XmlNode>) -> Seq<XmlTree> {
    Seq::new(nodes.len(), |i: int| nodes[i]@)
}

/// The view of what parsing a document gave.
pub open spec fn document_view(root: Option<XmlNode>) -> Option<XmlTree> {
    match root {
        Some(node) => Some(node@),
        None => None,
    }
}

/// Whether `node` has the local name `name` in the namespace `namespace`.
pub open spec fn is_named(node: XmlTree, name: Seq<char>, namespace: Seq<char>) -> bool {
    node.name == name && node.namespace == namespace
}

/// The first of `nodes` with the given name and namespace.
pub open spec fn first_named(nodes: Seq<XmlTree>, name: Seq<char>, namespace: Seq<char>) -> Option<
    XmlTree,
>
    decreases nodes.len(),
{
    if nodes.len() == 0 {
        None
    } else if is_named(nodes[0], name, namespace) {
        Some(nodes[0])
    } else {
        first_named(nodes.drop_first(), name, namespace)
    }
}

impl XmlTree {
    /// The first child element with the given name and namespace.
    pub open spec fn child(self, name: Seq<char>, namespace: Seq<char>) -> Option<XmlTree> {
        first_named(self.children, name, namespace)
    }
}

impl XmlNode {
    /// The child elements of a node's view are the views of its child
    /// elements.
    pub proof fn lemma_view_of_children(self)
        ensures
            self@.children == tree_views(self.children@),
    {
        assert(self@.children =~= tree_views(self.children@));
    }

    /// Whether the element has the given name and namespace.
    pub fn is(&self, name: &str, namespace: &str) -> (r: bool)
        ensures
            r == is_named(self@, name@, namespace@),
    {
        same_text(&self.name, name) && same_text(&self.namespace, namespace)
    }

    /// Finds the first child element with the given name and namespace.
    pub fn get_child(&self, name: &str, namespace: &str) -> (r: Option<&XmlNode>)
        ensures
            match r {
                Some(found) => self@.child(name@, namespace@) == Some(found@),
                None => self@.child(name@, namespace@) is None,
            },
    {
        let mut i: usize = 0;
        proof {
            self.lemma_view_of_children();
            assert(self@.children.skip(0) =~= self@.children);
        }
        while i < self.children.len()
            invariant
                i <= self.children.len(),
                self@.children == tree_views(self.children@),
                self@.child(name@, namespace@) == first_named(
                    self@.children.skip(i as int),
                    name@,
                    namespace@,
                ),
            decreases self.children.len() - i,
        {
            let candidate = &self.children[i];
            proof {
                let rest = self@.children.skip(i as int);
                assert(rest[0] == self@.children[i as int]);
                assert(rest.drop_first() =~= self@.children.skip(i + 1));
            }
            if candidate.is(name, namespace) {
                return Some(candidate);
            }
            i = i + 1;
        }
        None
    }
}

/// Declares `minidom::Element`, an element as `minidom` holds it, as a
/// type of which the verifier knows nothing but the name.
#[verifier::external_type_specification]
#[verifier::external_body]
pub struct ExElement(minidom::Element);

/// The root element that `minidom` parses out of `text`, with all that is
/// below it; `None` where it reports an error.
pub uninterp spec fn xml_document(text: Seq<char>) -> Option<XmlTree>;

/// Copies a `minidom::Element` and, through itself, the elements below it:
/// `Element::name`, `Element::ns`, `Element::text` and `Element::children`
/// give the four fields. Trusted; nothing is claimed of the result.
#[verifier::external_body]
fn node_of_element(element: &minidom::Element) -> XmlNode {
    XmlNode {
        name: element.name().to_string(),
        namespace: element.ns(),
        text: element.text(),
        children: element.children().map(node_of_element).collect(),
    }
}

/// Wraps the parsing of a `minidom::Element` from a string
/// (`<minidom::Element as FromStr>::from_str`).
///
/// Trusted: what comes back depends on the text alone. Nothing is claimed
/// of which texts parse.
#[verifier::external_body]
pub(crate) fn parse_xml(text: &str) -> (r: Option<XmlNode>)
    ensures
        document_view(r) == xml_document(text@),
{
    match text.parse::<minidom::Element>() {
        Ok(root) => Some(node_of_element(&root)),
        Err(_) => None,
    }
}

} // verus!
