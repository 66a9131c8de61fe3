//! The fixed table of structural queries, one for each field of a work.

use crate::dom::{compile, compiled};
use scraper::Selector;
use vstd::prelude::*;

verus! {

/// The fields that are located on a page, in the order in which a work is
/// assembled.
#[derive(Debug, Clone, Copy, PartialEq, Eq, Structural)]
pub enum Field {
    Title,
    Author,
    Published,
    Updated,
    Language,
    WordCount,
    Hits,
    Tags,
    Characters,
    Warnings,
    Relationships,
    Ratings,
    Chapters,
    Body,
}

impl Field {
    /// The name under which an error reports the field.
    pub open spec fn spec_name(self) -> &'static str {
        match self {
            Field::Title => "title",
            Field::Author => "author",
            Field::Published => "published",
            Field::Updated => "updated",
            Field::Language => "language",
            Field::WordCount => "word_count",
            Field::Hits => "hits",
            Field::Tags => "tags",
            Field::Characters => "characters",
            Field::Warnings => "warnings",
            Field::Relationships => "relationships",
            Field::Ratings => "ratings",
            Field::Chapters => "chapters",
            Field::Body => "paragraphs",
        }
    }

    /// The name under which an error reports the field.
    #[verifier::when_used_as_spec(spec_name)]
    pub fn name(self) -> (name: &'static str)
        ensures
            name == self.spec_name(),
    {
        match self {
            Field::Title => "title",
            Field::Author => "author",
            Field::Published => "published",
            Field::Updated => "updated",
            Field::Language => "language",
            Field::WordCount => "word_count",
            Field::Hits => "hits",
            Field::Tags => "tags",
            Field::Characters => "characters",
            Field::Warnings => "warnings",
            Field::Relationships => "relationships",
            Field::Ratings => "ratings",
            Field::Chapters => "chapters",
            Field::Body => "paragraphs",
        }
    }

    /// The structural query that locates the field on a page.
    pub open spec fn spec_query(self) -> &'static str {
        match self {
            Field::Title => "#workskin .preface.group h2.title.heading",
            Field::Author => "#workskin .preface.group h3.byline.heading",
            Field::Published => "div.wrapper dl.work.meta.group dd.stats dd.published",
            Field::Updated => "div.wrapper dl.work.meta.group dd.stats dd.status",
            Field::Language => "div.wrapper dl.work.meta.group dd.language",
            Field::WordCount => "div.wrapper dl.work.meta.group dd.stats dd.words",
            Field::Hits => "div.wrapper dl.work.meta.group dd.stats dd.hits",
            Field::Tags => "div.wrapper dl.work.meta.group dd.freeform.tags ul.commas li a.tag",
            Field::Characters => "div.wrapper dl.work.meta.group dd.character.tags ul.commas li a.tag",
            Field::Warnings => "div.wrapper dl.work.meta.group dd.warning.tags ul.commas li a.tag",
            Field::Relationships => "div.wrapper dl.work.meta.group dd.relationship.tags ul.commas li a.tag",
            Field::Ratings => "div.wrapper dl.work.meta.group dd.rating.tags ul.commas li a.tag",
            Field::Chapters => "#selected_id option",
            Field::Body => "#workskin #chapters div.chapter div.userstuff.module p",
        }
    }

    /// The structural query that locates the field on a page.
    #[verifier::when_used_as_spec(spec_query)]
    pub fn query(self) -> (query: &'static str)
        ensures
            query == self.spec_query(),
    {
        match self {
            Field::Title => "#workskin .preface.group h2.title.heading",
            Field::Author => "#workskin .preface.group h3.byline.heading",
            Field::Published => "div.wrapper dl.work.meta.group dd.stats dd.published",
            Field::Updated => "div.wrapper dl.work.meta.group dd.stats dd.status",
            Field::Language => "div.wrapper dl.work.meta.group dd.language",
            Field::WordCount => "div.wrapper dl.work.meta.group dd.stats dd.words",
            Field::Hits => "div.wrapper dl.work.meta.group dd.stats dd.hits",
            Field::Tags => "div.wrapper dl.work.meta.group dd.freeform.tags ul.commas li a.tag",
            Field::Characters => "div.wrapper dl.work.meta.group dd.character.tags ul.commas li a.tag",
            Field::Warnings => "div.wrapper dl.work.meta.group dd.warning.tags ul.commas li a.tag",
            Field::Relationships => "div.wrapper dl.work.meta.group dd.relationship.tags ul.commas li a.tag",
            Field::Ratings => "div.wrapper dl.work.meta.group dd.rating.tags ul.commas li a.tag",
            Field::Chapters => "#selected_id option",
            Field::Body => "#workskin #chapters div.chapter div.userstuff.module p",
        }
    }
}

/// Whether every query of the table is well formed.
pub open spec fn all_queries_compile() -> bool {
    forall|field: Field| (#[trigger] compiled(field.spec_query()@)) is Some
}

/// The compiled query of every field. It is built once and only read after
/// that.
pub struct Registry {
    title: Selector,
    author: Selector,
    published: Selector,
    updated: Selector,
    language: Selector,
    word_count: Selector,
    hits: Selector,
    tags: Selector,
    characters: Selector,
    warnings: Selector,
    relationships: Selector,
    ratings: Selector,
    chapters: Selector,
    body: Selector,
}

impl Registry {
    /// The compiled query that the registry holds for `field`.
    pub closed spec fn selector(&self, field: Field) -> Selector {
        match field {
            Field::Title => self.title,
            Field::Author => self.author,
            Field::Published => self.published,
            Field::Updated => self.updated,
            Field::Language => self.language,
            Field::WordCount => self.word_count,
            Field::Hits => self.hits,
            Field::Tags => self.tags,
            Field::Characters => self.characters,
            Field::Warnings => self.warnings,
            Field::Relationships => self.relationships,
            Field::Ratings => self.ratings,
            Field::Chapters => self.chapters,
            Field::Body => self.body,
        }
    }

    /// Each selector is the one compiled from the query of its field.
    #[verifier::type_invariant]
    spec fn well_formed(&self) -> bool {
        forall|field: Field|
            compiled(field.spec_query()@) == Some(#[trigger] self.selector(field))
    }

    /// Compiles the whole table. There is a registry exactly when every
    /// query is well formed.
    pub fn new() -> (registry: Option<Registry>)
        ensures
            registry is Some <==> all_queries_compile(),
    {
        let title = compile(Field::Title.query())?;
        let author = compile(Field::Author.query())?;
        let published = compile(Field::Published.query())?;
        let updated = compile(Field::Updated.query())?;
        let language = compile(Field::Language.query())?;
        let word_count = compile(Field::WordCount.query())?;
        let hits = compile(Field::Hits.query())?;
        let tags = compile(Field::Tags.query())?;
        let characters = compile(Field::Characters.query())?;
        let warnings = compile(Field::Warnings.query())?;
        let relationships = compile(Field::Relationships.query())?;
        let ratings = compile(Field::Ratings.query())?;
        let chapters = compile(Field::Chapters.query())?;
        let body = compile(Field::Body.query())?;
        Some(
            Registry {
                title,
                author,
                published,
                updated,
                language,
                word_count,
                hits,
                tags,
                characters,
                warnings,
                relationships,
                ratings,
                chapters,
                body,
            },
        )
    }

    /// The compiled query of `field`.
    pub fn get(&self, field: Field) -> (selector: &Selector)
        ensures
            *selector == self.selector(field),
            compiled(field.spec_query()@) == Some(*selector),
    {
        proof {
            use_type_invariant(self);
            assert(compiled(field.spec_query()@) == Some(self.selector(field)));
        }
        match field {
            Field::Title => &self.title,
            Field::Author => &self.author,
            Field::Published => &self.published,
            Field::Updated => &self.updated,
            Field::Language => &self.language,
            Field::WordCount => &self.word_count,
            Field::Hits => &self.hits,
            Field::Tags => &self.tags,
            Field::Characters => &self.characters,
            Field::Warnings => &self.warnings,
            Field::Relationships => &self.relationships,
            Field::Ratings => &self.ratings,
            Field::Chapters => &self.chapters,
            Field::Body => &self.body,
        }
    }
}

} // verus!
