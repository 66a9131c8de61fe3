//! The extractors at work on a parsed page: each runs a structural query,
//! reads what the rules of a field need from the matches, and applies them.

use crate::content::{spans_of, InlineNode, InlineNodeView, Paragraph};
use crate::dom::{
    attribute, attribute_of, children, children_of, node_element, node_element_of, node_text,
    node_text_of, parse, parsed, select, selected, tag_name, tag_of, text, text_of,
    CONTENT_LIMIT,
};
use crate::page::{assembled, Page, PageView};
use crate::registry::{Field, Registry};
use crate::work::{
    body_of, chapters_of, number_field_of, outcome, paragraph_of, spans_of_paragraphs,
    tag_list_of, text_field_of, Candidate, CandidateView, Chapter, ChapterView, Tag, Work,
    WorkError, PARAGRAPHS,
};
use ego_tree::NodeRef;
use scraper::{ElementRef, Html, Node, Selector};
use vstd::prelude::*;

verus! {

/// The attribute that holds the address of a tag.
pub const LINK: &'static str = "href";

/// The attribute that holds the id of a chapter.
pub const VALUE: &'static str = "value";

/// The text of the first element that `selector` matches, if it matches any.
pub open spec fn first_text_of(document: &Html, selector: Selector) -> Option<Seq<char>> {
    let found = selected(document, selector);
    if found.len() == 0 {
        None
    } else {
        Some(text_of(found[0]))
    }
}

/// What the list extractors read from one matched element.
pub open spec fn candidate_of(element: ElementRef<'_>, attr: Seq<char>) -> CandidateView {
    CandidateView { text: text_of(element), attr: attribute_of(element, attr) }
}

/// What the list extractors read from the elements that `selector` matches.
pub open spec fn candidates_of(
    document: &Html,
    selector: Selector,
    attr: Seq<char>,
) -> Seq<CandidateView> {
    let found = selected(document, selector);
    Seq::new(found.len(), |i: int| candidate_of(found[i], attr))
}

/// What the inline parser reads from one child of a paragraph: the text of
/// a text node, the tag and the text of an element, nothing of any other
/// node.
pub open spec fn inline_node_of(child: NodeRef<'_, Node>) -> InlineNodeView {
    match node_text_of(child) {
        Some(text) => InlineNodeView::Text(text),
        None => match node_element_of(child) {
            Some(element) => InlineNodeView::Element {
                tag: tag_of(element),
                text: text_of(element),
            },
            None => InlineNodeView::Other,
        },
    }
}

/// What the inline parser reads from the children of `element`.
pub open spec fn inline_nodes_of(element: ElementRef<'_>) -> Seq<InlineNodeView> {
    let kids = children_of(element);
    Seq::new(kids.len(), |i: int| inline_node_of(kids[i]))
}

/// What the inline parser reads from the paragraphs that `selector` matches.
pub open spec fn paragraphs_of(document: &Html, selector: Selector) -> Seq<Seq<InlineNodeView>> {
    let found = selected(document, selector);
    Seq::new(found.len(), |i: int| inline_nodes_of(found[i]))
}

/// Everything that the queries of `registry` find in `document`.
pub open spec fn page_of(document: &Html, registry: Registry) -> PageView {
    PageView {
        title: first_text_of(document, registry.selector(Field::Title)),
        author: first_text_of(document, registry.selector(Field::Author)),
        published: first_text_of(document, registry.selector(Field::Published)),
        updated: first_text_of(document, registry.selector(Field::Updated)),
        language: first_text_of(document, registry.selector(Field::Language)),
        word_count: first_text_of(document, registry.selector(Field::WordCount)),
        hits: first_text_of(document, registry.selector(Field::Hits)),
        tags: candidates_of(document, registry.selector(Field::Tags), LINK@),
        characters: candidates_of(document, registry.selector(Field::Characters), LINK@),
        warnings: candidates_of(document, registry.selector(Field::Warnings), LINK@),
        relationships: candidates_of(document, registry.selector(Field::Relationships), LINK@),
        ratings: candidates_of(document, registry.selector(Field::Ratings), LINK@),
        chapters: candidates_of(document, registry.selector(Field::Chapters), VALUE@),
        paragraphs: paragraphs_of(document, registry.selector(Field::Body)),
    }
}

/// Reads the text of the first element that `selector` matches.
pub fn first_text(document: &Html, selector: &Selector) -> (first: Option<String>)
    ensures
        first.deep_view() == first_text_of(document, *selector),
{
    let found = select(document, selector);
    if found.len() == 0 {
        None
    } else {
        Some(text(&found[0]))
    }
}

/// Reads the text and the attribute `attr` of every element that `selector`
/// matches.
pub fn candidates(document: &Html, selector: &Selector, attr: &str) -> (list: Vec<Candidate>)
    ensures
        list.deep_view() == candidates_of(document, *selector, attr@),
{
    let found = select(document, selector);
    let mut list: Vec<Candidate> = Vec::new();
    let mut i: usize = 0;
    while i < found.len()
        invariant
            i <= found.len(),
            found@ == selected(document, *selector),
            list.len() == i,
            forall|j: int|
                0 <= j < i ==> (#[trigger] list[j]).deep_view() == candidate_of(found[j], attr@),
        decreases found.len() - i,
    {
        let candidate = Candidate { text: text(&found[i]), attr: attribute(&found[i], attr) };
        list.push(candidate);
        i += 1;
    }
    proof {
        assert(list.deep_view() =~= candidates_of(document, *selector, attr@));
    }
    list
}

/// Reads one child of a paragraph as the inline parser needs it.
pub fn inline_node(child: &NodeRef<'_, Node>) -> (node: InlineNode)
    ensures
        node.deep_view() == inline_node_of(*child),
{
    match node_text(child) {
        Some(content) => InlineNode::Text(content),
        None => match node_element(child) {
            Some(element) => InlineNode::Element {
                tag: tag_name(&element),
                text: text(&element),
            },
            None => InlineNode::Other,
        },
    }
}

/// Reads the children of `element` as the inline parser needs them.
pub fn inline_nodes(element: &ElementRef<'_>) -> (nodes: Vec<InlineNode>)
    ensures
        nodes.deep_view() == inline_nodes_of(*element),
{
    let kids = children(element);
    let mut nodes: Vec<InlineNode> = Vec::new();
    let mut i: usize = 0;
    while i < kids.len()
        invariant
            i <= kids.len(),
            kids@ == children_of(*element),
            nodes.len() == i,
            forall|j: int|
                0 <= j < i ==> (#[trigger] nodes[j]).deep_view() == inline_node_of(kids[j]),
        decreases kids.len() - i,
    {
        nodes.push(inline_node(&kids[i]));
        i += 1;
    }
    proof {
        assert(nodes.deep_view() =~= inline_nodes_of(*element));
    }
    nodes
}

/// Reads the children of every paragraph that `selector` matches.
pub fn paragraphs(document: &Html, selector: &Selector) -> (list: Vec<Vec<InlineNode>>)
    ensures
        list.deep_view() == paragraphs_of(document, *selector),
{
    let found = select(document, selector);
    let mut list: Vec<Vec<InlineNode>> = Vec::new();
    let mut i: usize = 0;
    while i < found.len()
        invariant
            i <= found.len(),
            found@ == selected(document, *selector),
            list.len() == i,
            forall|j: int|
                0 <= j < i ==> (#[trigger] list[j]).deep_view() == inline_nodes_of(found[j]),
        decreases found.len() - i,
    {
        list.push(inline_nodes(&found[i]));
        i += 1;
    }
    proof {
        assert(list.deep_view() =~= paragraphs_of(document, *selector));
    }
    list
}

impl Page {
    /// Reads from `document` everything that the queries of `registry` find.
    pub fn read(document: &Html, registry: &Registry) -> (page: Page)
        ensures
            page.deep_view() == page_of(document, *registry),
    {
        Page {
            title: first_text(document, registry.get(Field::Title)),
            author: first_text(document, registry.get(Field::Author)),
            published: first_text(document, registry.get(Field::Published)),
            updated: first_text(document, registry.get(Field::Updated)),
            language: first_text(document, registry.get(Field::Language)),
            word_count: first_text(document, registry.get(Field::WordCount)),
            hits: first_text(document, registry.get(Field::Hits)),
            tags: candidates(document, registry.get(Field::Tags), LINK),
            characters: candidates(document, registry.get(Field::Characters), LINK),
            warnings: candidates(document, registry.get(Field::Warnings), LINK),
            relationships: candidates(document, registry.get(Field::Relationships), LINK),
            ratings: candidates(document, registry.get(Field::Ratings), LINK),
            chapters: candidates(document, registry.get(Field::Chapters), VALUE),
            paragraphs: paragraphs(document, registry.get(Field::Body)),
        }
    }
}

impl Work {
    /// Extracts a text field: the trimmed text of the first element that
    /// `selector` matches.
    pub fn parse_inner_text_element(
        document: &Html,
        selector: &Selector,
        name: &'static str,
    ) -> (field: Result<String, WorkError>)
        ensures
            outcome(field) == text_field_of(first_text_of(document, *selector), name),
    {
        Work::text_field(&first_text(document, selector), name)
    }

    /// Extracts a count field from the text of the first element that
    /// `selector` matches.
    pub fn parse_inner_number_element(
        document: &Html,
        selector: &Selector,
        name: &'static str,
    ) -> (field: Result<u32, WorkError>)
        ensures
            outcome(field) == number_field_of(first_text_of(document, *selector), name),
    {
        Work::number_field(&first_text(document, selector), name)
    }

    /// Extracts a tag list from the elements that `selector` matches.
    pub fn parse_tag_list(
        document: &Html,
        selector: &Selector,
        name: &'static str,
    ) -> (list: Result<Vec<Tag>, WorkError>)
        ensures
            outcome(list) == tag_list_of(candidates_of(document, *selector, LINK@), name),
    {
        Work::tags_from(&candidates(document, selector, LINK), name)
    }

    /// Extracts the chapter list from the elements that `selector` matches.
    /// A page without a chapter menu has no chapters, which is no error.
    pub fn parse_chapters(
        document: &Html,
        selector: &Selector,
    ) -> (list: Result<Vec<Chapter>, WorkError>)
        ensures
            outcome(list) == Ok::<Seq<ChapterView>, WorkError>(
                chapters_of(candidates_of(document, *selector, VALUE@)),
            ),
    {
        Ok(Work::chapters_from(&candidates(document, selector, VALUE)))
    }

    /// Extracts one paragraph from the children of `element`.
    pub fn parse_paragraph(element: &ElementRef<'_>) -> (paragraph: Result<Paragraph, WorkError>)
        ensures
            outcome(paragraph) == paragraph_of(inline_nodes_of(*element)),
    {
        Work::paragraph_from(&inline_nodes(element))
    }

    /// Extracts the body from the paragraphs that `selector` matches,
    /// stopping at the first that fails.
    pub fn parse_paragraphs(
        document: &Html,
        selector: &Selector,
    ) -> (body: Result<Vec<Paragraph>, WorkError>)
        ensures
            outcome(body) == body_of(paragraphs_of(document, *selector)),
    {
        let found = select(document, selector);
        let ghost nodes = paragraphs_of(document, *selector);
        let mut body: Vec<Paragraph> = Vec::new();
        let mut i: usize = 0;
        while i < found.len()
            invariant
                i <= found.len(),
                found@ == selected(document, *selector),
                nodes == paragraphs_of(document, *selector),
                body.len() == i,
                forall|j: int|
                    0 <= j < i ==> (#[trigger] body[j]).deep_view() == spans_of(nodes[j]),
                forall|j: int| 0 <= j < i ==> spans_of(#[trigger] nodes[j]).len() > 0,
            decreases found.len() - i,
        {
            match Work::parse_paragraph(&found[i]) {
                Ok(paragraph) => {
                    body.push(paragraph);
                },
                Err(error) => {
                    proof {
                        assert(spans_of(nodes[i as int]).len() == 0);
                    }
                    return Err(error);
                },
            }
            i += 1;
        }
        if body.len() == 0 {
            Err(WorkError::NoItemsFound(PARAGRAPHS))
        } else {
            proof {
                assert(body.deep_view() =~= spans_of_paragraphs(nodes));
            }
            Ok(body)
        }
    }

    /// Extracts a work from a parsed page. The fields are taken in the order
    /// of [`Field`]; the first failure ends the extraction.
    pub fn parse_document(document: &Html, registry: &Registry) -> (work: Result<Work, WorkError>)
        ensures
            outcome(work) == assembled(page_of(document, *registry)),
    {
        let title = Work::parse_inner_text_element(
            document,
            registry.get(Field::Title),
            Field::Title.name(),
        )?;
        let author = Work::parse_inner_text_element(
            document,
            registry.get(Field::Author),
            Field::Author.name(),
        )?;
        let date_published = Work::parse_inner_text_element(
            document,
            registry.get(Field::Published),
            Field::Published.name(),
        )?;
        let date_updated = Work::parse_inner_text_element(
            document,
            registry.get(Field::Updated),
            Field::Updated.name(),
        )?;
        let language = Work::parse_inner_text_element(
            document,
            registry.get(Field::Language),
            Field::Language.name(),
        )?;
        let word_count = Work::parse_inner_number_element(
            document,
            registry.get(Field::WordCount),
            Field::WordCount.name(),
        )?;
        let hits = Work::parse_inner_number_element(
            document,
            registry.get(Field::Hits),
            Field::Hits.name(),
        )?;
        let tags = Work::parse_tag_list(document, registry.get(Field::Tags), Field::Tags.name())?;
        let characters = Work::parse_tag_list(
            document,
            registry.get(Field::Characters),
            Field::Characters.name(),
        )?;
        let archive_warnings = Work::parse_tag_list(
            document,
            registry.get(Field::Warnings),
            Field::Warnings.name(),
        )?;
        let relationships = Work::parse_tag_list(
            document,
            registry.get(Field::Relationships),
            Field::Relationships.name(),
        )?;
        let ratings = Work::parse_tag_list(
            document,
            registry.get(Field::Ratings),
            Field::Ratings.name(),
        )?;
        let chapters = Work::parse_chapters(document, registry.get(Field::Chapters))?;
        let body = Work::parse_paragraphs(document, registry.get(Field::Body))?;
        Ok(
            Work {
                title,
                date_published,
                date_updated,
                word_count,
                author,
                archive_warnings,
                tags,
                characters,
                relationships,
                chapters,
                hits,
                language,
                body,
                ratings,
            },
        )
    }

    /// Parses the text of a page and extracts the work from it. The page
    /// must be within [`CONTENT_LIMIT`], which `content.len()` tells.
    pub fn from_content(content: &str, registry: &Registry) -> (work: Result<Work, WorkError>)
        requires
            content.len() <= CONTENT_LIMIT,
        ensures
            outcome(work) == assembled(page_of(&parsed(content@), *registry)),
    {
        let document = parse(content);
        Work::parse_document(&document, registry)
    }
}

} // verus!
