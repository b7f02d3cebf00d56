use vstd::prelude::*;

verus! {

/// What a markup document holds, as far as this library reads it: every
/// node of the document in document order, the document node first, each
/// as its local tag name (empty for a node that is not an element) and its
/// text. `None` when the text is not well-formed markup.
pub uninterp spec fn xml_outline(doc: Seq<char>) -> Option<Seq<(Seq<char>, Option<Seq<char>>)>>;

/// One node of a parsed document, as plain values.
pub struct OutlineNode {
    pub tag: String,
    pub text: Option<String>,
}

pub open spec fn opt_string_view(s: Option<String>) -> Option<Seq<char>> {
    match s {
        Some(t) => Some(t@),
        None => None,
    }
}

impl View for OutlineNode {
    type V = (Seq<char>, Option<Seq<char>>);

    open spec fn view(&self) -> (Seq<char>, Option<Seq<char>>) {
        (self.tag@, opt_string_view(self.text))
    }
}

pub open spec fn outline_view(nodes: Seq<OutlineNode>) -> Seq<(Seq<char>, Option<Seq<char>>)> {
    nodes.map_values(|n: OutlineNode| n@)
}

#[verifier::external_type_specification]
#[verifier::external_body]
pub struct ExXmlError(roxmltree::Error);

/// Relies on roxmltree::Document::parse to decide whether `doc` is
/// well-formed markup, and on `descendants` (the document node, then each
/// node in document order), `tag_name().name()` (the local name; empty for
/// a node that is not an element) and `text` (for an element, the text of
/// its first child when that child is a text node) to read it.
#[verifier::external_body]
pub(crate) fn parse_outline(doc: &str) -> (r: Result<Vec<OutlineNode>, roxmltree::Error>)
    ensures
        match r {
            Ok(nodes) => xml_outline(doc@) == Some(outline_view(nodes@)),
            Err(_) => xml_outline(doc@) is None,
        },
{
    let parsed = roxmltree::Document::parse(doc)?;
    Ok(parsed.descendants().map(|n| OutlineNode {
        tag: n.tag_name().name().to_string(),
        text: n.text().map(String::from),
    }).collect())
}

} // verus!
