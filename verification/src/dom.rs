//! The parsed page and its nodes, as the `scraper` crate provides them.
//!
//! Nothing in this module is proved. It declares the outside types, gives a
//! name to what each outside call returns, and wraps each call; the rest of
//! the crate is verified against these contracts.

use ego_tree::NodeRef;
use scraper::{ElementRef, Html, Node, Selector};
use vstd::prelude::*;

verus! {

/// A parsed page: `scraper::Html`.
#[verifier::external_type_specification]
#[verifier::external_body]
pub struct ExHtml(scraper::Html);

/// A compiled structural query: `scraper::Selector`.
#[verifier::external_type_specification]
#[verifier::external_body]
pub struct ExSelector(scraper::Selector);

/// A reference to one element of a parsed page: `scraper::ElementRef`.
#[verifier::external_type_specification]
#[verifier::external_body]
pub struct ExElementRef<'a>(scraper::ElementRef<'a>);

/// What a node of a parsed page holds: `scraper::Node`.
#[verifier::external_type_specification]
#[verifier::external_body]
pub struct ExNode(scraper::Node);

/// A reference to one node of a tree: `ego_tree::NodeRef`.
#[verifier::external_type_specification]
#[verifier::external_body]
#[verifier::reject_recursive_types(T)]
pub struct ExNodeRef<'a, T: 'a>(ego_tree::NodeRef<'a, T>);

/// The largest page, in bytes, that is handed to the parser. The parser keeps
/// text in buffers whose length is a 32-bit number and whose capacity is
/// rounded up to a power of two, so that no buffer may grow beyond
/// `0x8000_0000` bytes. A buffer holds text of the page, in which a byte
/// becomes at most three (a NUL is replaced by U+FFFD); a page within this
/// limit stays below that bound four times over.
pub const CONTENT_LIMIT: usize = 0x1fff_ffff;

/// The document that `Html::parse_document` builds from `content`.
pub uninterp spec fn parsed(content: Seq<char>) -> Html;

/// The selector that `Selector::parse` compiles from `query`, if `query` is
/// well formed.
pub uninterp spec fn compiled(query: Seq<char>) -> Option<Selector>;

/// The elements of `document` that `Html::select` yields for `selector`, in
/// the order in which it yields them.
pub uninterp spec fn selected(document: &Html, selector: Selector) -> Seq<ElementRef<'_>>;

/// The text nodes below `element` that `ElementRef::text` yields, joined.
pub uninterp spec fn text_of(element: ElementRef<'_>) -> Seq<char>;

/// The value that `Element::attr` finds for the attribute `name` of `element`.
pub uninterp spec fn attribute_of(element: ElementRef<'_>, name: Seq<char>) -> Option<Seq<char>>;

/// The tag name of `element`, as `Element::name` returns it.
pub uninterp spec fn tag_of(element: ElementRef<'_>) -> Seq<char>;

/// The children of `element`, in the order in which `NodeRef::children`
/// yields them.
pub uninterp spec fn children_of(element: ElementRef<'_>) -> Seq<NodeRef<'_, Node>>;

/// The text of `node` as `Node::as_text` returns it: none unless `node` is a
/// text node.
pub uninterp spec fn node_text_of(node: NodeRef<'_, Node>) -> Option<Seq<char>>;

/// The element that `ElementRef::wrap` makes of `node`: none unless `node`
/// is an element.
pub uninterp spec fn node_element_of(node: NodeRef<'_, Node>) -> Option<ElementRef<'_>>;

/// Trusted: `Html::parse_document`, whose result depends on the text alone.
/// It reports no failure; it stops the program where a buffer of text
/// outgrows its 32-bit length, which a page within [`CONTENT_LIMIT`] cannot
/// cause.
#[verifier::external_body]
pub(crate) fn parse(content: &str) -> (document: Html)
    requires
        content.len() <= CONTENT_LIMIT,
    ensures
        document == parsed(content@),
{
    Html::parse_document(content)
}

/// Trusted: `Selector::parse`, whose result depends on the query alone. The
/// reason for a refusal is dropped.
#[verifier::external_body]
pub(crate) fn compile(query: &str) -> (selector: Option<Selector>)
    ensures
        selector == compiled(query@),
{
    Selector::parse(query).ok()
}

/// Trusted: `Html::select`, run to its end. The matching elements depend on
/// the document and the selector alone.
#[verifier::external_body]
pub(crate) fn select<'a>(document: &'a Html, selector: &Selector) -> (found: Vec<ElementRef<'a>>)
    ensures
        found@ == selected(document, *selector),
{
    document.select(selector).collect()
}

/// Trusted: `ElementRef::text`, collected into one string.
#[verifier::external_body]
pub(crate) fn text(element: &ElementRef<'_>) -> (content: String)
    ensures
        content@ == text_of(*element),
{
    element.text().collect()
}

/// Trusted: `Element::attr` on the element that `ElementRef::value` returns.
#[verifier::external_body]
pub(crate) fn attribute(element: &ElementRef<'_>, name: &str) -> (value: Option<String>)
    ensures
        value.deep_view() == attribute_of(*element, name@),
{
    element.value().attr(name).map(|value| value.to_string())
}

/// Trusted: `Element::name` on the element that `ElementRef::value` returns.
#[verifier::external_body]
pub(crate) fn tag_name(element: &ElementRef<'_>) -> (name: String)
    ensures
        name@ == tag_of(*element),
{
    element.value().name().to_string()
}

/// Trusted: `NodeRef::children` on the node of the element, run to its end.
#[verifier::external_body]
pub(crate) fn children<'a>(element: &ElementRef<'a>) -> (kids: Vec<NodeRef<'a, Node>>)
    ensures
        kids@ == children_of(*element),
{
    element.children().collect()
}

/// Trusted: `Node::as_text` on the value of the node, which is the text of a
/// text node and nothing for any other node.
#[verifier::external_body]
pub(crate) fn node_text(node: &NodeRef<'_, Node>) -> (content: Option<String>)
    ensures
        content.deep_view() == node_text_of(*node),
{
    node.value().as_text().map(|content| content.to_string())
}

/// Trusted: `ElementRef::wrap`, which is the element of an element node and
/// nothing for any other node.
#[verifier::external_body]
pub(crate) fn node_element<'a>(node: &NodeRef<'a, Node>) -> (element: Option<ElementRef<'a>>)
    ensures
        element == node_element_of(*node),
{
    ElementRef::wrap(*node)
}

} // verus!
