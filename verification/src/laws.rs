//! What holds of every extraction, stated over the models of the crate.

use crate::dom::{parsed, selected};
use crate::extract::{candidates_of, page_of, LINK, VALUE};
use crate::fetch::{checked, NOT_FOUND_MARKER};
use crate::page::{assembled, PageView};
use crate::registry::{Field, Registry};
use crate::text::{is_whitespace, lemma_trimmed, occurs_in, trimmed};
use crate::work::{
    body_of, chapters_of, number_field_of, outcome, tag_from, tag_list_of, tags_of,
    text_field_of,
    CandidateView, ChapterView, TagView, Work, WorkError, WorkView,
};
use scraper::{Html, Selector};
use vstd::prelude::*;

verus! {

/// The error of a step, if it failed.
pub open spec fn failure<T>(step: Result<T, WorkError>) -> Option<WorkError> {
    match step {
        Ok(_) => None,
        Err(error) => Some(error),
    }
}

/// The steps of an assembly in their fixed order, each with its error if it
/// fails on `page`. The chapter list is no step: it cannot fail.
pub open spec fn failures(page: PageView) -> Seq<Option<WorkError>> {
    seq![
        failure(text_field_of(page.title, Field::Title.spec_name())),
        failure(text_field_of(page.author, Field::Author.spec_name())),
        failure(text_field_of(page.published, Field::Published.spec_name())),
        failure(text_field_of(page.updated, Field::Updated.spec_name())),
        failure(text_field_of(page.language, Field::Language.spec_name())),
        failure(number_field_of(page.word_count, Field::WordCount.spec_name())),
        failure(number_field_of(page.hits, Field::Hits.spec_name())),
        failure(tag_list_of(page.tags, Field::Tags.spec_name())),
        failure(tag_list_of(page.characters, Field::Characters.spec_name())),
        failure(tag_list_of(page.warnings, Field::Warnings.spec_name())),
        failure(tag_list_of(page.relationships, Field::Relationships.spec_name())),
        failure(tag_list_of(page.ratings, Field::Ratings.spec_name())),
        failure(body_of(page.paragraphs)),
    ]
}

/// A page without a title yields the error of the title, whatever else is or
/// is not on it: no later field has a say.
pub proof fn lemma_missing_title_is_reported(page: PageView)
    requires
        page.title is None,
    ensures
        assembled(page) == Err::<WorkView, WorkError>(WorkError::ElementNotFound("title")),
{
}

/// A document in which the query of the title matches nothing yields the
/// error of the title.
pub proof fn lemma_document_without_title(document: &Html, registry: Registry)
    requires
        selected(document, registry.selector(Field::Title)).len() == 0,
    ensures
        assembled(page_of(document, registry)) == Err::<WorkView, WorkError>(
            WorkError::ElementNotFound("title"),
        ),
{
}

/// The error of an assembly is that of the first step that fails.
pub proof fn lemma_first_failure_is_reported(page: PageView, step: int)
    requires
        0 <= step < failures(page).len(),
        failures(page)[step] is Some,
        forall|earlier: int| 0 <= earlier < step ==> failures(page)[earlier] is None,
    ensures
        assembled(page) == Err::<WorkView, WorkError>(failures(page)[step]->0),
{
    let steps = failures(page);
    assert(steps.len() == 13);
    assert(forall|earlier: int| 0 <= earlier < step ==> steps[earlier] is None);
    if step > 0 {
        assert(steps[0] is None);
    }
    if step > 1 {
        assert(steps[1] is None);
    }
    if step > 2 {
        assert(steps[2] is None);
    }
    if step > 3 {
        assert(steps[3] is None);
    }
    if step > 4 {
        assert(steps[4] is None);
    }
    if step > 5 {
        assert(steps[5] is None);
    }
    if step > 6 {
        assert(steps[6] is None);
    }
    if step > 7 {
        assert(steps[7] is None);
    }
    if step > 8 {
        assert(steps[8] is None);
    }
    if step > 9 {
        assert(steps[9] is None);
    }
    if step > 10 {
        assert(steps[10] is None);
    }
    if step > 11 {
        assert(steps[11] is None);
    }
}

/// There is a work exactly when no step fails.
pub proof fn lemma_work_iff_no_failure(page: PageView)
    ensures
        assembled(page) is Ok <==> forall|step: int|
            0 <= step < failures(page).len() ==> (#[trigger] failures(page)[step]) is None,
{
    let steps = failures(page);
    assert(steps.len() == 13);
    if assembled(page) is Ok {
        assert forall|step: int| 0 <= step < steps.len() implies (#[trigger] steps[step])
            is None by {}
    }
    if forall|step: int| 0 <= step < steps.len() ==> (#[trigger] steps[step]) is None {
        assert(steps[0] is None);
        assert(steps[1] is None);
        assert(steps[2] is None);
        assert(steps[3] is None);
        assert(steps[4] is None);
        assert(steps[5] is None);
        assert(steps[6] is None);
        assert(steps[7] is None);
        assert(steps[8] is None);
        assert(steps[9] is None);
        assert(steps[10] is None);
        assert(steps[11] is None);
        assert(steps[12] is None);
    }
}

/// A text field that was extracted neither starts nor ends with white space.
pub proof fn lemma_text_fields_are_trimmed(first: Option<Seq<char>>, name: &'static str)
    ensures
        text_field_of(first, name) matches Ok(text) ==> text.len() > 0 ==> !is_whitespace(
            text.first(),
        ) && !is_whitespace(text.last()),
{
    if first is Some {
        let (from, to) = lemma_trimmed(first->0);
        if from < to {
            assert(trimmed(first->0).first() == first->0[from]);
            assert(trimmed(first->0).last() == first->0[to - 1]);
        }
    }
}

/// Where nothing matches, the chapter list is empty and the tag list is an
/// error.
pub proof fn lemma_nothing_matched(name: &'static str)
    ensures
        chapters_of(Seq::<CandidateView>::empty()) == Seq::<ChapterView>::empty(),
        tag_list_of(Seq::<CandidateView>::empty(), name) == Err::<Seq<TagView>, WorkError>(
            WorkError::NoItemsFound(name),
        ),
{
}

/// In a document in which a query matches nothing, the chapter list is empty
/// and the tag list is an error.
pub proof fn lemma_absent_region(document: &Html, selector: Selector, name: &'static str)
    requires
        selected(document, selector).len() == 0,
    ensures
        chapters_of(candidates_of(document, selector, VALUE@)).len() == 0,
        tag_list_of(candidates_of(document, selector, LINK@), name) == Err::<
            Seq<TagView>,
            WorkError,
        >(WorkError::NoItemsFound(name)),
{
    assert(candidates_of(document, selector, VALUE@) =~= Seq::empty());
    assert(candidates_of(document, selector, LINK@) =~= Seq::empty());
}

/// Whether one of `candidates` yields `tag`.
pub open spec fn comes_from(tag: TagView, candidates: Seq<CandidateView>) -> bool {
    exists|j: int| 0 <= j < candidates.len() && tag_from(#[trigger] candidates[j]) == Some(tag)
}

/// The tags of a list are exactly those that the candidates yield: each tag
/// comes from a candidate, and no candidate that yields a tag is left out.
pub proof fn lemma_tags_are_the_linked_candidates(candidates: Seq<CandidateView>)
    ensures
        tags_of(candidates).len() <= candidates.len(),
        forall|i: int|
            0 <= i < tags_of(candidates).len() ==> comes_from(
                #[trigger] tags_of(candidates)[i],
                candidates,
            ),
        forall|j: int|
            0 <= j < candidates.len() && tag_from(#[trigger] candidates[j]) is Some ==> tags_of(
                candidates,
            ).contains(tag_from(candidates[j])->0),
    decreases candidates.len(),
{
    if candidates.len() > 0 {
        let rest = candidates.drop_last();
        let last = candidates.last();
        let tags = tags_of(candidates);
        lemma_tags_are_the_linked_candidates(rest);
        assert forall|i: int| 0 <= i < tags.len() implies comes_from(
            #[trigger] tags[i],
            candidates,
        ) by {
            if i < tags_of(rest).len() {
                assert(tags[i] == tags_of(rest)[i]);
                assert(comes_from(tags_of(rest)[i], rest));
                let j = choose|j: int|
                    0 <= j < rest.len() && tag_from(#[trigger] rest[j]) == Some(tags[i]);
                assert(candidates[j] == rest[j]);
            } else {
                assert(tag_from(candidates[candidates.len() - 1]) == Some(tags[i]));
            }
        }
        assert forall|j: int|
            0 <= j < candidates.len() && tag_from(#[trigger] candidates[j]) is Some implies
            tags.contains(tag_from(candidates[j])->0) by {
            if j < rest.len() {
                assert(candidates[j] == rest[j]);
                let i = choose|i: int|
                    0 <= i < tags_of(rest).len() && tags_of(rest)[i] == tag_from(rest[j])->0;
                assert(tags[i] == tag_from(candidates[j])->0);
            } else {
                assert(tags[tags.len() - 1] == tag_from(last)->0);
            }
        }
    }
}

/// No tag of a tag list has an empty link.
pub proof fn lemma_tag_links_are_not_empty(candidates: Seq<CandidateView>)
    ensures
        forall|i: int|
            0 <= i < tags_of(candidates).len() ==> (#[trigger] tags_of(candidates)[i]).link.len()
                > 0,
{
    lemma_tags_are_the_linked_candidates(candidates);
    assert forall|i: int| 0 <= i < tags_of(candidates).len() implies (#[trigger] tags_of(
        candidates,
    )[i]).link.len() > 0 by {
        assert(comes_from(tags_of(candidates)[i], candidates));
    }
}

/// A tag list that was extracted holds at least one tag, and none of its
/// links is empty.
pub proof fn lemma_tag_list_has_links(candidates: Seq<CandidateView>, name: &'static str)
    ensures
        tag_list_of(candidates, name) matches Ok(tags) ==> tags.len() > 0 && forall|i: int|
            0 <= i < tags.len() ==> (#[trigger] tags[i]).link.len() > 0,
{
    lemma_tag_links_are_not_empty(candidates);
}

/// The position among `candidates` of the one that yields the tag at
/// position `i` of their tag list.
pub open spec fn source_of(candidates: Seq<CandidateView>, i: int) -> int
    decreases candidates.len(),
{
    if candidates.len() == 0 {
        0
    } else if i < tags_of(candidates.drop_last()).len() {
        source_of(candidates.drop_last(), i)
    } else {
        candidates.len() - 1
    }
}

/// A tag list keeps the order of the page: each tag has its source among the
/// candidates, and a later tag has a later source.
pub proof fn lemma_tags_keep_their_order(candidates: Seq<CandidateView>)
    ensures
        forall|i: int|
            0 <= i < tags_of(candidates).len() ==> {
                &&& 0 <= #[trigger] source_of(candidates, i) < candidates.len()
                &&& tag_from(candidates[source_of(candidates, i)]) == Some(tags_of(candidates)[i])
            },
        forall|i: int, k: int|
            0 <= i < k < tags_of(candidates).len() ==> #[trigger] source_of(candidates, i)
                < #[trigger] source_of(candidates, k),
    decreases candidates.len(),
{
    if candidates.len() > 0 {
        let rest = candidates.drop_last();
        let tags = tags_of(candidates);
        lemma_tags_keep_their_order(rest);
        assert forall|i: int| 0 <= i < tags.len() implies {
            &&& 0 <= #[trigger] source_of(candidates, i) < candidates.len()
            &&& tag_from(candidates[source_of(candidates, i)]) == Some(tags[i])
        } by {
            if i < tags_of(rest).len() {
                assert(candidates[source_of(rest, i)] == rest[source_of(rest, i)]);
                assert(tags[i] == tags_of(rest)[i]);
            }
        }
        assert forall|i: int, k: int| 0 <= i < k < tags.len() implies #[trigger] source_of(
            candidates,
            i,
        ) < #[trigger] source_of(candidates, k) by {
            if k < tags_of(rest).len() {
                assert(source_of(rest, i) < source_of(rest, k));
            } else {
                assert(0 <= source_of(rest, i) < rest.len());
            }
        }
    }
}

/// A body that holds the marker of the page for an unknown work is read as
/// an invalid work id, even though the fetch succeeded.
pub proof fn lemma_marker_means_invalid_id(body: String)
    requires
        occurs_in(NOT_FOUND_MARKER@, body@),
    ensures
        checked(Ok(body)) == Err::<String, WorkError>(WorkError::InvalidWorkId),
{
}

/// A failed fetch is passed on with the failure it came with.
pub proof fn lemma_failed_fetch_is_passed_on(error: reqwest::Error)
    ensures
        checked(Err(error)) == Err::<String, WorkError>(WorkError::Network(error)),
{
}

/// Two extractions from one document with one registry agree in everything:
/// both fail with the same error, or both yield works that stand for the same
/// values.
pub proof fn lemma_parse_is_repeatable(
    document: &Html,
    registry: Registry,
    first: Result<Work, WorkError>,
    second: Result<Work, WorkError>,
)
    requires
        outcome(first) == assembled(page_of(document, registry)),
        outcome(second) == assembled(page_of(document, registry)),
    ensures
        outcome(first) == outcome(second),
        first is Ok ==> second is Ok && first->Ok_0.deep_view() == second->Ok_0.deep_view(),
        first is Err ==> second is Err && first->Err_0 == second->Err_0,
{
}

/// Two extractions from the same text of a page agree in everything.
pub proof fn lemma_content_is_repeatable(
    content: Seq<char>,
    registry: Registry,
    first: Result<Work, WorkError>,
    second: Result<Work, WorkError>,
)
    requires
        outcome(first) == assembled(page_of(&parsed(content), registry)),
        outcome(second) == assembled(page_of(&parsed(content), registry)),
    ensures
        outcome(first) == outcome(second),
{
}

} // verus!
