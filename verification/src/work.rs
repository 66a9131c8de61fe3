//! A work, its parts, the errors of an extraction, and the rules that turn
//! what was found on a page into each field.

use crate::content::{
    classify, lemma_spans_push, span_of, spans_of, trimmed_copy, Content, ContentView, InlineNode,
    InlineNodeView, Markup, Paragraph,
};
use crate::text::{count_of, parse_count, trimmed};
use vstd::prelude::*;

verus! {

/// The failure of a fetch: `reqwest::Error`.
#[verifier::external_type_specification]
#[verifier::external_body]
pub struct ExTransportError(reqwest::Error);

/// One chapter of a work, as the chapter menu lists it.
#[derive(Default, Debug, Clone, PartialEq, Eq)]
pub struct Chapter {
    pub name: String,
    pub id: String,
}

/// What a [`Chapter`] stands for.
pub struct ChapterView {
    pub name: Seq<char>,
    pub id: Seq<char>,
}

impl DeepView for Chapter {
    type V = ChapterView;

    open spec fn deep_view(&self) -> ChapterView {
        ChapterView { name: self.name@, id: self.id@ }
    }
}

/// One classification of a work, with the address of its listing. In a tag
/// list that was extracted, no link is empty.
#[derive(Default, Debug, Clone)]
pub struct Tag {
    pub name: String,
    pub link: String,
}

/// What a [`Tag`] stands for.
pub struct TagView {
    pub name: Seq<char>,
    pub link: Seq<char>,
}

impl DeepView for Tag {
    type V = TagView;

    open spec fn deep_view(&self) -> TagView {
        TagView { name: self.name@, link: self.link@ }
    }
}

impl PartialEq for Tag {
    /// Two tags are equal when their names and their links are.
    fn eq(&self, other: &Self) -> (equal: bool) {
        self.name == other.name && self.link == other.link
    }
}

impl Eq for Tag {

}

impl vstd::std_specs::cmp::PartialEqSpecImpl for Tag {
    open spec fn obeys_eq_spec() -> bool {
        true
    }

    open spec fn eq_spec(&self, other: &Self) -> bool {
        self.name@ == other.name@ && self.link@ == other.link@
    }
}

/// A work with its metadata and its body.
#[derive(Default, Debug, Clone, PartialEq, Eq)]
pub struct Work {
    pub title: String,
    pub date_published: String,
    pub date_updated: String,
    pub word_count: u32,
    pub author: String,
    pub archive_warnings: Vec<Tag>,
    pub tags: Vec<Tag>,
    pub characters: Vec<Tag>,
    pub relationships: Vec<Tag>,
    pub chapters: Vec<Chapter>,
    pub hits: u32,
    pub language: String,
    pub body: Vec<Paragraph>,
    pub ratings: Vec<Tag>,
}

/// What a [`Work`] stands for.
pub struct WorkView {
    pub title: Seq<char>,
    pub date_published: Seq<char>,
    pub date_updated: Seq<char>,
    pub word_count: u32,
    pub author: Seq<char>,
    pub archive_warnings: Seq<TagView>,
    pub tags: Seq<TagView>,
    pub characters: Seq<TagView>,
    pub relationships: Seq<TagView>,
    pub chapters: Seq<ChapterView>,
    pub hits: u32,
    pub language: Seq<char>,
    pub body: Seq<Seq<ContentView>>,
    pub ratings: Seq<TagView>,
}

impl DeepView for Work {
    type V = WorkView;

    open spec fn deep_view(&self) -> WorkView {
        WorkView {
            title: self.title@,
            date_published: self.date_published@,
            date_updated: self.date_updated@,
            word_count: self.word_count,
            author: self.author@,
            archive_warnings: self.archive_warnings.deep_view(),
            tags: self.tags.deep_view(),
            characters: self.characters.deep_view(),
            relationships: self.relationships.deep_view(),
            chapters: self.chapters.deep_view(),
            hits: self.hits,
            language: self.language@,
            body: self.body.deep_view(),
            ratings: self.ratings.deep_view(),
        }
    }
}

/// Why no work could be had.
#[derive(Debug)]
pub enum WorkError {
    /// A mandatory text field matched nothing on the page.
    ElementNotFound(&'static str),
    /// The page could not be fetched.
    Network(reqwest::Error),
    /// The page that came back is the archive's answer to an unknown work.
    InvalidWorkId,
    /// A count is missing or is not a number.
    InvalidFormat(&'static str),
    /// A list that needs at least one item has none.
    NoItemsFound(&'static str),
}

/// A result with its value replaced by what the value stands for.
pub open spec fn outcome<T: DeepView>(result: Result<T, WorkError>) -> Result<T::V, WorkError> {
    match result {
        Ok(value) => Ok(value.deep_view()),
        Err(error) => Err(error),
    }
}

/// One matched node as the list extractors read it: its text, and the value
/// of the attribute that identifies it, if it has that attribute.
#[derive(Default, Debug, Clone, PartialEq, Eq)]
pub struct Candidate {
    pub text: String,
    pub attr: Option<String>,
}

/// What a [`Candidate`] stands for.
pub struct CandidateView {
    pub text: Seq<char>,
    pub attr: Option<Seq<char>>,
}

impl DeepView for Candidate {
    type V = CandidateView;

    open spec fn deep_view(&self) -> CandidateView {
        CandidateView { text: self.text@, attr: self.attr.deep_view() }
    }
}

/// The name under which an empty paragraph is reported.
pub const PARAGRAPH: &'static str = "paragraph";

/// The name under which a body without paragraphs is reported.
pub const PARAGRAPHS: &'static str = "paragraphs";

/// A text field: the trimmed text of the first match, which must exist.
pub open spec fn text_field_of(
    first: Option<Seq<char>>,
    name: &'static str,
) -> Result<Seq<char>, WorkError> {
    match first {
        Some(text) => Ok(trimmed(text)),
        None => Err(WorkError::ElementNotFound(name)),
    }
}

/// A count field: the count that the text of the first match states. A missing
/// match and a text that states no count are the same error.
pub open spec fn number_field_of(
    first: Option<Seq<char>>,
    name: &'static str,
) -> Result<u32, WorkError> {
    match first {
        Some(text) => match count_of(text) {
            Some(count) => Ok(count),
            None => Err(WorkError::InvalidFormat(name)),
        },
        None => Err(WorkError::InvalidFormat(name)),
    }
}

/// The tag that a candidate yields: none without a link, and none with an
/// empty one.
pub open spec fn tag_from(candidate: CandidateView) -> Option<TagView> {
    match candidate.attr {
        Some(link) => if link.len() > 0 {
            Some(TagView { name: trimmed(candidate.text), link })
        } else {
            None
        },
        None => None,
    }
}

/// The tags that the candidates yield, in their order.
pub open spec fn tags_of(candidates: Seq<CandidateView>) -> Seq<TagView> {
    candidates.filter_map(|candidate: CandidateView| tag_from(candidate))
}

/// A tag list: the tags of the candidates, of which there must be one.
pub open spec fn tag_list_of(
    candidates: Seq<CandidateView>,
    name: &'static str,
) -> Result<Seq<TagView>, WorkError> {
    if tags_of(candidates).len() == 0 {
        Err(WorkError::NoItemsFound(name))
    } else {
        Ok(tags_of(candidates))
    }
}

/// The chapter that a candidate yields: none without an id.
pub open spec fn chapter_from(candidate: CandidateView) -> Option<ChapterView> {
    match candidate.attr {
        Some(id) => Some(ChapterView { name: trimmed(candidate.text), id }),
        None => None,
    }
}

/// The chapters that the candidates yield, in their order.
pub open spec fn chapters_of(candidates: Seq<CandidateView>) -> Seq<ChapterView> {
    candidates.filter_map(|candidate: CandidateView| chapter_from(candidate))
}

/// A paragraph: the spans of its children, of which there must be one.
pub open spec fn paragraph_of(nodes: Seq<InlineNodeView>) -> Result<Seq<ContentView>, WorkError> {
    if spans_of(nodes).len() == 0 {
        Err(WorkError::NoItemsFound(PARAGRAPH))
    } else {
        Ok(spans_of(nodes))
    }
}

/// Whether one of the paragraphs yields no span.
pub open spec fn has_empty_paragraph(paragraphs: Seq<Seq<InlineNodeView>>) -> bool {
    exists|i: int| 0 <= i < paragraphs.len() && spans_of(#[trigger] paragraphs[i]).len() == 0
}

/// The spans of every paragraph.
pub open spec fn spans_of_paragraphs(
    paragraphs: Seq<Seq<InlineNodeView>>,
) -> Seq<Seq<ContentView>> {
    Seq::new(paragraphs.len(), |i: int| spans_of(paragraphs[i]))
}

/// The body: every paragraph, none of which may be empty, and of which there
/// must be one.
pub open spec fn body_of(
    paragraphs: Seq<Seq<InlineNodeView>>,
) -> Result<Seq<Seq<ContentView>>, WorkError> {
    if has_empty_paragraph(paragraphs) {
        Err(WorkError::NoItemsFound(PARAGRAPH))
    } else if paragraphs.len() == 0 {
        Err(WorkError::NoItemsFound(PARAGRAPHS))
    } else {
        Ok(spans_of_paragraphs(paragraphs))
    }
}

/// The tags of `candidates` followed by `candidate`.
pub proof fn lemma_tags_push(candidates: Seq<CandidateView>, candidate: CandidateView)
    ensures
        tags_of(candidates.push(candidate)) == match tag_from(candidate) {
            Some(tag) => tags_of(candidates).push(tag),
            None => tags_of(candidates),
        },
{
    assert(candidates.push(candidate).drop_last() == candidates);
}

/// The chapters of `candidates` followed by `candidate`.
pub proof fn lemma_chapters_push(candidates: Seq<CandidateView>, candidate: CandidateView)
    ensures
        chapters_of(candidates.push(candidate)) == match chapter_from(candidate) {
            Some(chapter) => chapters_of(candidates).push(chapter),
            None => chapters_of(candidates),
        },
{
    assert(candidates.push(candidate).drop_last() == candidates);
}

impl Work {
    /// Turns the text of the first match of a text field into its value.
    pub fn text_field(
        first: &Option<String>,
        name: &'static str,
    ) -> (field: Result<String, WorkError>)
        ensures
            outcome(field) == text_field_of(first.deep_view(), name),
    {
        match first {
            Some(text) => Ok(trimmed_copy(text.as_str())),
            None => Err(WorkError::ElementNotFound(name)),
        }
    }

    /// Turns the text of the first match of a count field into its value.
    pub fn number_field(
        first: &Option<String>,
        name: &'static str,
    ) -> (field: Result<u32, WorkError>)
        ensures
            outcome(field) == number_field_of(first.deep_view(), name),
    {
        match first {
            Some(text) => match parse_count(text.as_str()) {
                Some(count) => Ok(count),
                None => Err(WorkError::InvalidFormat(name)),
            },
            None => Err(WorkError::InvalidFormat(name)),
        }
    }

    /// Keeps the candidates that have a link that is not empty, as tags, in
    /// their order.
    pub fn tags_from(
        candidates: &Vec<Candidate>,
        name: &'static str,
    ) -> (list: Result<Vec<Tag>, WorkError>)
        ensures
            outcome(list) == tag_list_of(candidates.deep_view(), name),
    {
        let mut tags: Vec<Tag> = Vec::new();
        let mut i: usize = 0;
        proof {
            assert(candidates.deep_view().take(0) =~= Seq::empty());
            assert(tags.deep_view() =~= Seq::empty());
        }
        while i < candidates.len()
            invariant
                i <= candidates.len(),
                tags.deep_view() == tags_of(candidates.deep_view().take(i as int)),
            decreases candidates.len() - i,
        {
            let candidate = &candidates[i];
            proof {
                let views = candidates.deep_view();
                assert(views.take(i + 1) =~= views.take(i as int).push(candidate.deep_view()));
                lemma_tags_push(views.take(i as int), candidate.deep_view());
            }
            match &candidate.attr {
                Some(link) => {
                    if !link.as_str().is_empty() {
                        let tag = Tag {
                            name: trimmed_copy(candidate.text.as_str()),
                            link: link.clone(),
                        };
                        let ghost before = tags.deep_view();
                        let ghost added = tag.deep_view();
                        tags.push(tag);
                        proof {
                            assert(tags.deep_view() =~= before.push(added));
                        }
                    }
                },
                None => {},
            }
            i += 1;
        }
        proof {
            assert(candidates.deep_view().take(i as int) =~= candidates.deep_view());
        }
        if tags.len() == 0 {
            Err(WorkError::NoItemsFound(name))
        } else {
            Ok(tags)
        }
    }

    /// Keeps the candidates that have an id, as chapters, in their order.
    pub fn chapters_from(candidates: &Vec<Candidate>) -> (chapters: Vec<Chapter>)
        ensures
            chapters.deep_view() == chapters_of(candidates.deep_view()),
    {
        let mut chapters: Vec<Chapter> = Vec::new();
        let mut i: usize = 0;
        proof {
            assert(candidates.deep_view().take(0) =~= Seq::empty());
            assert(chapters.deep_view() =~= Seq::empty());
        }
        while i < candidates.len()
            invariant
                i <= candidates.len(),
                chapters.deep_view() == chapters_of(candidates.deep_view().take(i as int)),
            decreases candidates.len() - i,
        {
            let candidate = &candidates[i];
            proof {
                let views = candidates.deep_view();
                assert(views.take(i + 1) =~= views.take(i as int).push(candidate.deep_view()));
                lemma_chapters_push(views.take(i as int), candidate.deep_view());
            }
            match &candidate.attr {
                Some(id) => {
                    let chapter = Chapter {
                        name: trimmed_copy(candidate.text.as_str()),
                        id: id.clone(),
                    };
                    let ghost before = chapters.deep_view();
                    let ghost added = chapter.deep_view();
                    chapters.push(chapter);
                    proof {
                        assert(chapters.deep_view() =~= before.push(added));
                    }
                },
                None => {},
            }
            i += 1;
        }
        proof {
            assert(candidates.deep_view().take(i as int) =~= candidates.deep_view());
        }
        chapters
    }

    /// Reads one child of a paragraph: the span it yields, if any.
    pub fn parse_html_element(node: &InlineNode) -> (span: Option<Content>)
        ensures
            span.deep_view() == span_of(node.deep_view()),
    {
        match node {
            InlineNode::Text(text) => Some(Content::Text(trimmed_copy(text.as_str()))),
            InlineNode::Element { tag, text } => match classify(tag.as_str()) {
                Markup::Strong => Some(Content::Bold(trimmed_copy(text.as_str()))),
                Markup::Emphasis => Some(Content::Italic(trimmed_copy(text.as_str()))),
                Markup::Ignored => None,
            },
            InlineNode::Other => None,
        }
    }

    /// Reads the children of a paragraph into its spans.
    pub fn paragraph_from(nodes: &Vec<InlineNode>) -> (paragraph: Result<Paragraph, WorkError>)
        ensures
            outcome(paragraph) == paragraph_of(nodes.deep_view()),
    {
        let mut content: Vec<Content> = Vec::new();
        let mut i: usize = 0;
        proof {
            assert(nodes.deep_view().take(0) =~= Seq::empty());
            assert(content.deep_view() =~= Seq::empty());
        }
        while i < nodes.len()
            invariant
                i <= nodes.len(),
                content.deep_view() == spans_of(nodes.deep_view().take(i as int)),
            decreases nodes.len() - i,
        {
            let node = &nodes[i];
            proof {
                let views = nodes.deep_view();
                assert(views.take(i + 1) =~= views.take(i as int).push(node.deep_view()));
                lemma_spans_push(views.take(i as int), node.deep_view());
            }
            match Work::parse_html_element(node) {
                Some(span) => {
                    let ghost before = content.deep_view();
                    let ghost added = span.deep_view();
                    content.push(span);
                    proof {
                        assert(content.deep_view() =~= before.push(added));
                    }
                },
                None => {},
            }
            i += 1;
        }
        proof {
            assert(nodes.deep_view().take(i as int) =~= nodes.deep_view());
        }
        if content.len() == 0 {
            Err(WorkError::NoItemsFound(PARAGRAPH))
        } else {
            Ok(Paragraph { content })
        }
    }

    /// Reads the paragraphs of a body, each given by its children.
    pub fn body_from(
        paragraphs: &Vec<Vec<InlineNode>>,
    ) -> (body: Result<Vec<Paragraph>, WorkError>)
        ensures
            outcome(body) == body_of(paragraphs.deep_view()),
    {
        let mut body: Vec<Paragraph> = Vec::new();
        let mut i: usize = 0;
        let ghost views = paragraphs.deep_view();
        proof {
            assert(body.deep_view() =~= Seq::empty());
        }
        while i < paragraphs.len()
            invariant
                i <= paragraphs.len(),
                views == paragraphs.deep_view(),
                body.deep_view().len() == i,
                forall|j: int| 0 <= j < i ==> spans_of(#[trigger] views[j]).len() > 0,
                forall|j: int| 0 <= j < i ==> (#[trigger] body.deep_view()[j]) == spans_of(views[j]),
            decreases paragraphs.len() - i,
        {
            match Work::paragraph_from(&paragraphs[i]) {
                Ok(paragraph) => {
                    let ghost before = body.deep_view();
                    let ghost added = paragraph.deep_view();
                    body.push(paragraph);
                    proof {
                        assert(body.deep_view() =~= before.push(added));
                    }
                },
                Err(error) => {
                    proof {
                        assert(spans_of(views[i as int]).len() == 0);
                    }
                    return Err(error);
                },
            }
            i += 1;
        }
        if body.len() == 0 {
            Err(WorkError::NoItemsFound(PARAGRAPHS))
        } else {
            proof {
                assert(body.deep_view() =~= spans_of_paragraphs(views));
            }
            Ok(body)
        }
    }
}

} // verus!
