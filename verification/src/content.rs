//! The body of a work: paragraphs made of plain, bold and italic spans.

use crate::text::{same_text, trim, trimmed};
use vstd::prelude::*;
use vstd::string::StringExecFns;

verus! {

/// One run of text within a paragraph, with its style.
#[derive(Debug, Clone, PartialEq, Eq)]
pub enum Content {
    Text(String),
    Bold(String),
    Italic(String),
}

/// What a [`Content`] stands for.
pub enum ContentView {
    Text(Seq<char>),
    Bold(Seq<char>),
    Italic(Seq<char>),
}

impl DeepView for Content {
    type V = ContentView;

    open spec fn deep_view(&self) -> ContentView {
        match *self {
            Content::Text(text) => ContentView::Text(text@),
            Content::Bold(text) => ContentView::Bold(text@),
            Content::Italic(text) => ContentView::Italic(text@),
        }
    }
}

/// One paragraph of the body: its spans in the order of the page.
#[derive(Default, Debug, Clone, PartialEq, Eq)]
pub struct Paragraph {
    pub content: Vec<Content>,
}

impl DeepView for Paragraph {
    type V = Seq<ContentView>;

    open spec fn deep_view(&self) -> Seq<ContentView> {
        self.content.deep_view()
    }
}

/// What the tag of an element inside a paragraph means for its text.
#[derive(Debug, Clone, Copy, PartialEq, Eq, Structural)]
pub enum Markup {
    /// `strong`: the text is bold.
    Strong,
    /// `em`: the text is italic.
    Emphasis,
    /// Any other tag: the element contributes nothing.
    Ignored,
}

/// The tag whose text is bold.
pub const STRONG: &'static str = "strong";

/// The tag whose text is italic.
pub const EMPHASIS: &'static str = "em";

/// The meaning of the tag `tag`.
pub open spec fn markup_of(tag: Seq<char>) -> Markup {
    if tag == STRONG@ {
        Markup::Strong
    } else if tag == EMPHASIS@ {
        Markup::Emphasis
    } else {
        Markup::Ignored
    }
}

/// Classifies an element inside a paragraph by its tag name.
pub fn classify(tag: &str) -> (markup: Markup)
    ensures
        markup == markup_of(tag@),
{
    if same_text(tag, STRONG) {
        Markup::Strong
    } else if same_text(tag, EMPHASIS) {
        Markup::Emphasis
    } else {
        Markup::Ignored
    }
}

/// One child of a paragraph, as the inline parser reads it.
#[derive(Debug, Clone, PartialEq, Eq)]
pub enum InlineNode {
    /// A text node, with its text.
    Text(String),
    /// An element, with its tag name and the text of everything below it.
    Element { tag: String, text: String },
    /// Any other node.
    Other,
}

/// What an [`InlineNode`] stands for.
pub enum InlineNodeView {
    Text(Seq<char>),
    Element { tag: Seq<char>, text: Seq<char> },
    Other,
}

impl DeepView for InlineNode {
    type V = InlineNodeView;

    open spec fn deep_view(&self) -> InlineNodeView {
        match *self {
            InlineNode::Text(text) => InlineNodeView::Text(text@),
            InlineNode::Element { tag, text } => InlineNodeView::Element { tag: tag@, text: text@ },
            InlineNode::Other => InlineNodeView::Other,
        }
    }
}

/// The span that one child of a paragraph yields: a text node yields its
/// trimmed text, a `strong` or `em` element its trimmed text in bold or
/// italic, anything else nothing.
pub open spec fn span_of(node: InlineNodeView) -> Option<ContentView> {
    match node {
        InlineNodeView::Text(text) => Some(ContentView::Text(trimmed(text))),
        InlineNodeView::Element { tag, text } => match markup_of(tag) {
            Markup::Strong => Some(ContentView::Bold(trimmed(text))),
            Markup::Emphasis => Some(ContentView::Italic(trimmed(text))),
            Markup::Ignored => None,
        },
        InlineNodeView::Other => None,
    }
}

/// The spans that the children of a paragraph yield, in their order.
pub open spec fn spans_of(nodes: Seq<InlineNodeView>) -> Seq<ContentView> {
    nodes.filter_map(|node: InlineNodeView| span_of(node))
}

/// The spans of `nodes` followed by `node` are those of `nodes`, followed by
/// the span of `node` if it yields one.
pub proof fn lemma_spans_push(nodes: Seq<InlineNodeView>, node: InlineNodeView)
    ensures
        spans_of(nodes.push(node)) == match span_of(node) {
            Some(span) => spans_of(nodes).push(span),
            None => spans_of(nodes),
        },
{
    assert(nodes.push(node).drop_last() == nodes);
}

/// A fresh string holding `text` without leading and trailing white space.
pub fn trimmed_copy(text: &str) -> (copy: String)
    ensures
        copy@ == trimmed(text@),
{
    String::from_str(trim(text))
}

} // verus!
