use vstd::prelude::*;

use crate::passwords::add_record_spec;
use crate::xml::{opt_string_view, outline_view, parse_outline, xml_outline, OutlineNode};

verus! {

/// Why a configuration document gave no credential record.
#[derive(Debug, Clone, Copy, PartialEq, Eq, Structural)]
pub enum ParseError {
    /// The text is not well-formed markup.
    Malformed,
    /// No element named `name`, or the first one has no text.
    MissingName,
}

/// A network's name and, where the profile stores one in plaintext, its key.
#[derive(Debug)]
pub struct CredentialRecord {
    pub network_name: String,
    pub secret: Option<String>,
}

impl View for CredentialRecord {
    type V = (Seq<char>, Option<Seq<char>>);

    open spec fn view(&self) -> (Seq<char>, Option<Seq<char>>) {
        (self.network_name@, opt_string_view(self.secret))
    }
}

pub open spec fn name_tag() -> Seq<char> {
    seq!['n', 'a', 'm', 'e']
}

pub open spec fn key_tag() -> Seq<char> {
    seq!['k', 'e', 'y', 'M', 'a', 't', 'e', 'r', 'i', 'a', 'l']
}

/// The text of the first node tagged `tag`, in the order of `nodes`; `None`
/// when there is no such node or it has no text.
pub open spec fn first_text(nodes: Seq<(Seq<char>, Option<Seq<char>>)>, tag: Seq<char>) -> Option<Seq<char>>
    decreases nodes.len(),
{
    if nodes.len() == 0 {
        None
    } else if nodes[0].0 == tag {
        nodes[0].1
    } else {
        first_text(nodes.drop_first(), tag)
    }
}

/// The record that a document's nodes describe.
pub open spec fn record_of_outline(nodes: Seq<(Seq<char>, Option<Seq<char>>)>) -> Result<(Seq<char>, Option<Seq<char>>), ParseError> {
    match first_text(nodes, name_tag()) {
        None => Err(ParseError::MissingName),
        Some(name) => Ok((name, first_text(nodes, key_tag()))),
    }
}

/// The record that the configuration document `doc` describes.
pub open spec fn record_of_document(doc: Seq<char>) -> Result<(Seq<char>, Option<Seq<char>>), ParseError> {
    match xml_outline(doc) {
        None => Err(ParseError::Malformed),
        Some(nodes) => record_of_outline(nodes),
    }
}

pub open spec fn parse_result_view(r: Result<CredentialRecord, ParseError>) -> Result<(Seq<char>, Option<Seq<char>>), ParseError> {
    match r {
        Ok(rec) => Ok(rec@),
        Err(e) => Err(e),
    }
}

proof fn lemma_first_text_skip(nodes: Seq<(Seq<char>, Option<Seq<char>>)>, tag: Seq<char>, i: int)
    requires
        0 <= i < nodes.len(),
    ensures
        nodes[i].0 == tag ==> first_text(nodes.skip(i), tag) == nodes[i].1,
        nodes[i].0 != tag ==> first_text(nodes.skip(i), tag) == first_text(nodes.skip(i + 1), tag),
{
    assert(nodes.skip(i).drop_first() =~= nodes.skip(i + 1));
}

/// The text of the first node of `nodes` whose tag is `tag`.
pub fn find_text(nodes: &Vec<OutlineNode>, tag: &String) -> (r: Option<String>)
    ensures
        opt_string_view(r) == first_text(outline_view(nodes@), tag@),
{
    let ghost all = outline_view(nodes@);
    assert(all.skip(0) =~= all);
    let mut i: usize = 0;
    while i < nodes.len()
        invariant
            0 <= i <= nodes.len(),
            all == outline_view(nodes@),
            first_text(all, tag@) == first_text(all.skip(i as int), tag@),
        decreases nodes.len() - i,
    {
        proof {
            lemma_first_text_skip(all, tag@, i as int);
        }
        if nodes[i].tag == *tag {
            return nodes[i].text.clone();
        }
        i = i + 1;
    }
    assert(all.skip(i as int).len() == 0);
    None
}

/// The record that a parsed document's nodes describe: the text of the first
/// `name` element and, if there is one with text, of the first `keyMaterial`
/// element.
pub fn record_from_outline(nodes: &Vec<OutlineNode>) -> (r: Result<CredentialRecord, ParseError>)
    ensures
        parse_result_view(r) == record_of_outline(outline_view(nodes@)),
{
    let name_key = "name".to_owned();
    let secret_key = "keyMaterial".to_owned();
    proof {
        reveal_strlit("name");
        reveal_strlit("keyMaterial");
        assert(name_key@ =~= name_tag());
        assert(secret_key@ =~= key_tag());
    }
    match find_text(nodes, &name_key) {
        None => Err(ParseError::MissingName),
        Some(network_name) => {
            let secret = find_text(nodes, &secret_key);
            Ok(CredentialRecord { network_name, secret })
        },
    }
}

/// Extracts the network name and key from a profile's configuration document.
pub fn parse(doc: &str) -> (r: Result<CredentialRecord, ParseError>)
    ensures
        parse_result_view(r) == record_of_document(doc@),
        r matches Err(ParseError::Malformed) <==> xml_outline(doc@) is None,
{
    match parse_outline(doc) {
        Err(_) => Err(ParseError::Malformed),
        Ok(nodes) => record_from_outline(&nodes),
    }
}

proof fn lemma_first_text_absent(nodes: Seq<(Seq<char>, Option<Seq<char>>)>, tag: Seq<char>)
    requires
        forall|i: int| 0 <= i < nodes.len() ==> nodes[i].0 != tag,
    ensures
        first_text(nodes, tag) is None,
    decreases nodes.len(),
{
    if nodes.len() > 0 {
        assert(nodes[0].0 != tag);
        lemma_first_text_absent(nodes.drop_first(), tag);
    }
}

/// A well-formed document whose first `name` element holds `x` and whose
/// first `keyMaterial` element holds `y` gives the record (`x`, `y`), and
/// that record stores `y` under `x` in any map.
pub proof fn law_name_and_key(doc: Seq<char>, x: Seq<char>, y: Seq<char>, m: Map<Seq<char>, Seq<char>>)
    requires
        xml_outline(doc) is Some,
        first_text(xml_outline(doc).unwrap(), name_tag()) == Some(x),
        first_text(xml_outline(doc).unwrap(), key_tag()) == Some(y),
    ensures
        record_of_document(doc) == Ok::<_, ParseError>((x, Some(y))),
        add_record_spec(m, (x, Some(y))) == m.insert(x, y),
{
}

/// A well-formed document whose first `name` element holds `x` and which
/// has no `keyMaterial` element gives the record (`x`, no secret), and that
/// record leaves any map as it is.
pub proof fn law_name_without_key(doc: Seq<char>, x: Seq<char>, m: Map<Seq<char>, Seq<char>>)
    requires
        xml_outline(doc) is Some,
        first_text(xml_outline(doc).unwrap(), name_tag()) == Some(x),
        forall|i: int| 0 <= i < xml_outline(doc).unwrap().len() ==> xml_outline(doc).unwrap()[i].0 != key_tag(),
    ensures
        record_of_document(doc) == Ok::<_, ParseError>((x, None::<Seq<char>>)),
        add_record_spec(m, (x, None)) == m,
{
    lemma_first_text_absent(xml_outline(doc).unwrap(), key_tag());
}

/// Text that is not well-formed markup fails as malformed.
pub proof fn law_malformed(doc: Seq<char>)
    requires
        xml_outline(doc) is None,
    ensures
        record_of_document(doc) == Err::<(Seq<char>, Option<Seq<char>>), _>(ParseError::Malformed),
{
}

/// A well-formed document with no `name` element fails for the missing
/// name, whatever `keyMaterial` elements it has.
pub proof fn law_missing_name(doc: Seq<char>)
    requires
        xml_outline(doc) is Some,
        forall|i: int| 0 <= i < xml_outline(doc).unwrap().len() ==> xml_outline(doc).unwrap()[i].0 != name_tag(),
    ensures
        record_of_document(doc) == Err::<(Seq<char>, Option<Seq<char>>), _>(ParseError::MissingName),
{
    lemma_first_text_absent(xml_outline(doc).unwrap(), name_tag());
}

/// Two parses of one document give the same result.
pub proof fn law_parse_deterministic(
    doc: Seq<char>,
    r1: Result<CredentialRecord, ParseError>,
    r2: Result<CredentialRecord, ParseError>,
)
    requires
        parse_result_view(r1) == record_of_document(doc),
        parse_result_view(r2) == record_of_document(doc),
    ensures
        parse_result_view(r1) == parse_result_view(r2),
{
}

} // verus!
