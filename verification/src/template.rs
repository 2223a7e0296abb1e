use vstd::prelude::*;
use crate::term::opt_text;

verus! {

/// `simple_xml::Node`, an element of a parsed XML document. Nothing is said
/// of what it holds but through `node_texts`.
#[verifier::external_type_specification]
#[verifier::external_body]
pub struct ExNode(simple_xml::Node);

/// A path into an XML document: the tags to follow, outermost first.
pub type TagPath = Seq<Seq<char>>;

/// The texts below an XML node. A path of tags leads from the node to the
/// descendant that is reached by taking, at each level, the first child with
/// the tag; the map holds the content of that descendant under the path. The
/// empty path leads to the node itself.
pub uninterp spec fn node_texts(node: simple_xml::Node) -> Map<TagPath, Seq<char>>;

/// The texts below the first child with the tag, seen from that child.
pub open spec fn texts_below(texts: Map<TagPath, Seq<char>>, tag: Seq<char>) -> Map<
    TagPath,
    Seq<char>,
> {
    Map::new(
        |path: TagPath| texts.dom().contains(seq![tag] + path),
        |path: TagPath| texts[seq![tag] + path],
    )
}

/// The text under a path, if the path leads anywhere.
pub open spec fn text_at(texts: Map<TagPath, Seq<char>>, path: TagPath) -> Option<Seq<char>> {
    if texts.dom().contains(path) {
        Some(texts[path])
    } else {
        None
    }
}

/// `simple_xml::Node::get_nodes`, followed by the first of the nodes it
/// gives. The claim: where the node has children with the tag, the first of
/// them is returned, and the paths from it are the node's paths through the
/// tag; where it has none, nothing is returned and no path of the node
/// begins with the tag.
#[verifier::external_body]
fn first_child<'a>(node: &'a simple_xml::Node, tag: &str) -> (child: Option<&'a simple_xml::Node>)
    ensures
        match child {
            Some(c) => node_texts(*c) == texts_below(node_texts(*node), tag@),
            None => forall|path: TagPath|
                !node_texts(*node).dom().contains(#[trigger] (seq![tag@] + path)),
        },
{
    node.get_nodes(tag).and_then(|nodes| nodes.first())
}

/// The field `content` of `simple_xml::Node`. The claim: it is the text
/// that the node holds under the empty path, which every node has.
#[verifier::external_body]
fn content(node: &simple_xml::Node) -> (text: String)
    ensures
        text_at(node_texts(*node), Seq::<Seq<char>>::empty()) == Some(text@),
{
    node.content.clone()
}

/// The path to the identifier in the answer to a template upload.
pub open spec fn template_id_path() -> TagPath {
    seq!["template"@, "id"@]
}

/// The identifier of an uploaded template, read from the engine's answer to
/// the upload: the content of the first `id` in the first `template` of the
/// answer's root. Nothing is returned where the answer has no such node.
pub fn template_id(response: &simple_xml::Node) -> (id: Option<String>)
    ensures
        opt_text(id) == text_at(node_texts(*response), template_id_path()),
{
    let ghost texts = node_texts(*response);
    proof {
        assert(seq!["template"@] + seq!["id"@] =~= template_id_path());
    }
    let template = match first_child(response, "template") {
        Some(t) => t,
        None => {
            return None;
        },
    };
    proof {
        assert(seq!["id"@] + Seq::<Seq<char>>::empty() =~= seq!["id"@]);
    }
    let id = match first_child(template, "id") {
        Some(n) => n,
        None => {
            return None;
        },
    };
    Some(content(id))
}

} // verus!
