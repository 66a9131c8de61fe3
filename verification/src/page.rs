//! Everything an extraction reads from a page, as plain values, and the
//! assembly of a work from it.

use crate::content::{InlineNode, InlineNodeView};
use crate::registry::Field;
use crate::work::{
    body_of, chapters_of, number_field_of, outcome, tag_list_of, text_field_of, Candidate,
    CandidateView, Work, WorkError, WorkView,
};
use vstd::prelude::*;

verus! {

/// What the structural queries found on one page: for a text or count field
/// the text of its first match, for a list every match, for the body the
/// children of every paragraph.
#[derive(Default, Debug, Clone, PartialEq, Eq)]
pub struct Page {
    pub title: Option<String>,
    pub author: Option<String>,
    pub published: Option<String>,
    pub updated: Option<String>,
    pub language: Option<String>,
    pub word_count: Option<String>,
    pub hits: Option<String>,
    pub tags: Vec<Candidate>,
    pub characters: Vec<Candidate>,
    pub warnings: Vec<Candidate>,
    pub relationships: Vec<Candidate>,
    pub ratings: Vec<Candidate>,
    pub chapters: Vec<Candidate>,
    pub paragraphs: Vec<Vec<InlineNode>>,
}

/// What a [`Page`] stands for.
pub struct PageView {
    pub title: Option<Seq<char>>,
    pub author: Option<Seq<char>>,
    pub published: Option<Seq<char>>,
    pub updated: Option<Seq<char>>,
    pub language: Option<Seq<char>>,
    pub word_count: Option<Seq<char>>,
    pub hits: Option<Seq<char>>,
    pub tags: Seq<CandidateView>,
    pub characters: Seq<CandidateView>,
    pub warnings: Seq<CandidateView>,
    pub relationships: Seq<CandidateView>,
    pub ratings: Seq<CandidateView>,
    pub chapters: Seq<CandidateView>,
    pub paragraphs: Seq<Seq<InlineNodeView>>,
}

impl DeepView for Page {
    type V = PageView;

    open spec fn deep_view(&self) -> PageView {
        PageView {
            title: self.title.deep_view(),
            author: self.author.deep_view(),
            published: self.published.deep_view(),
            updated: self.updated.deep_view(),
            language: self.language.deep_view(),
            word_count: self.word_count.deep_view(),
            hits: self.hits.deep_view(),
            tags: self.tags.deep_view(),
            characters: self.characters.deep_view(),
            warnings: self.warnings.deep_view(),
            relationships: self.relationships.deep_view(),
            ratings: self.ratings.deep_view(),
            chapters: self.chapters.deep_view(),
            paragraphs: self.paragraphs.deep_view(),
        }
    }
}

/// The work that a page yields. The fields are taken in the order of
/// [`Field`]; the first that fails gives the error, and only if none fails is
/// there a work.
pub open spec fn assembled(page: PageView) -> Result<WorkView, WorkError> {
    let title = text_field_of(page.title, Field::Title.spec_name());
    let author = text_field_of(page.author, Field::Author.spec_name());
    let published = text_field_of(page.published, Field::Published.spec_name());
    let updated = text_field_of(page.updated, Field::Updated.spec_name());
    let language = text_field_of(page.language, Field::Language.spec_name());
    let word_count = number_field_of(page.word_count, Field::WordCount.spec_name());
    let hits = number_field_of(page.hits, Field::Hits.spec_name());
    let tags = tag_list_of(page.tags, Field::Tags.spec_name());
    let characters = tag_list_of(page.characters, Field::Characters.spec_name());
    let warnings = tag_list_of(page.warnings, Field::Warnings.spec_name());
    let relationships = tag_list_of(page.relationships, Field::Relationships.spec_name());
    let ratings = tag_list_of(page.ratings, Field::Ratings.spec_name());
    let body = body_of(page.paragraphs);
    if title is Err {
        Err(title->Err_0)
    } else if author is Err {
        Err(author->Err_0)
    } else if published is Err {
        Err(published->Err_0)
    } else if updated is Err {
        Err(updated->Err_0)
    } else if language is Err {
        Err(language->Err_0)
    } else if word_count is Err {
        Err(word_count->Err_0)
    } else if hits is Err {
        Err(hits->Err_0)
    } else if tags is Err {
        Err(tags->Err_0)
    } else if characters is Err {
        Err(characters->Err_0)
    } else if warnings is Err {
        Err(warnings->Err_0)
    } else if relationships is Err {
        Err(relationships->Err_0)
    } else if ratings is Err {
        Err(ratings->Err_0)
    } else if body is Err {
        Err(body->Err_0)
    } else {
        Ok(
            WorkView {
                title: title->Ok_0,
                date_published: published->Ok_0,
                date_updated: updated->Ok_0,
                word_count: word_count->Ok_0,
                author: author->Ok_0,
                archive_warnings: warnings->Ok_0,
                tags: tags->Ok_0,
                characters: characters->Ok_0,
                relationships: relationships->Ok_0,
                chapters: chapters_of(page.chapters),
                hits: hits->Ok_0,
                language: language->Ok_0,
                body: body->Ok_0,
                ratings: ratings->Ok_0,
            },
        )
    }
}

impl Work {
    /// Assembles a work from what was found on its page.
    pub fn assemble(page: &Page) -> (work: Result<Work, WorkError>)
        ensures
            outcome(work) == assembled(page.deep_view()),
    {
        let title = Work::text_field(&page.title, Field::Title.name())?;
        let author = Work::text_field(&page.author, Field::Author.name())?;
        let date_published = Work::text_field(&page.published, Field::Published.name())?;
        let date_updated = Work::text_field(&page.updated, Field::Updated.name())?;
        let language = Work::text_field(&page.language, Field::Language.name())?;
        let word_count = Work::number_field(&page.word_count, Field::WordCount.name())?;
        let hits = Work::number_field(&page.hits, Field::Hits.name())?;
        let tags = Work::tags_from(&page.tags, Field::Tags.name())?;
        let characters = Work::tags_from(&page.characters, Field::Characters.name())?;
        let archive_warnings = Work::tags_from(&page.warnings, Field::Warnings.name())?;
        let relationships = Work::tags_from(&page.relationships, Field::Relationships.name())?;
        let ratings = Work::tags_from(&page.ratings, Field::Ratings.name())?;
        let chapters = Work::chapters_from(&page.chapters);
        let body = Work::body_from(&page.paragraphs)?;
        Ok(
            Work {
                title,
                date_published,
                date_updated,
                word_count,
                author,
                archive_warnings,
                tags,
                characters,
                relationships,
                chapters,
                hits,
                language,
                body,
                ratings,
            },
        )
    }
}

} // verus!
