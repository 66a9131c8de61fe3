use ao3::content::{Content, InlineNode, Paragraph};
use ao3::page::Page;
use ao3::work::{Candidate, Chapter, Tag, Work, WorkError};

fn linked(text: &str, attr: &str) -> Candidate {
    Candidate { text: text.to_string(), attr: Some(attr.to_string()) }
}

fn some(text: &str) -> Option<String> {
    Some(text.to_string())
}

fn tag(name: &str, link: &str) -> Tag {
    Tag { name: name.to_string(), link: link.to_string() }
}

fn full_page() -> Page {
    Page {
        title: some("  The Title "),
        author: some("Author Name"),
        published: some("2024-05-12"),
        updated: some("2024-06-01"),
        language: some("\n English\n"),
        word_count: some("12,345"),
        hits: some("1,234,567"),
        tags: vec![linked("Fluff", "/tags/Fluff/works")],
        characters: vec![linked("A", "/tags/A/works"), linked("B", "/tags/B/works")],
        warnings: vec![linked("No Archive Warnings Apply", "/tags/None/works")],
        relationships: vec![linked("A/B", "/tags/A*s*B/works")],
        ratings: vec![linked("General Audiences", "/tags/General/works")],
        chapters: vec![linked("1. Beginning", "101")],
        paragraphs: vec![vec![InlineNode::Text("Hello".to_string())]],
    }
}

#[test]
fn a_full_page_yields_its_work() {
    let work = Work::assemble(&full_page()).unwrap();
    let expected = Work {
        title: "The Title".to_string(),
        date_published: "2024-05-12".to_string(),
        date_updated: "2024-06-01".to_string(),
        word_count: 12345,
        author: "Author Name".to_string(),
        archive_warnings: vec![tag("No Archive Warnings Apply", "/tags/None/works")],
        tags: vec![tag("Fluff", "/tags/Fluff/works")],
        characters: vec![tag("A", "/tags/A/works"), tag("B", "/tags/B/works")],
        relationships: vec![tag("A/B", "/tags/A*s*B/works")],
        chapters: vec![Chapter { name: "1. Beginning".to_string(), id: "101".to_string() }],
        hits: 1234567,
        language: "English".to_string(),
        body: vec![Paragraph { content: vec![Content::Text("Hello".to_string())] }],
        ratings: vec![tag("General Audiences", "/tags/General/works")],
    };
    assert_eq!(work, expected);
}

#[test]
fn a_page_without_chapters_is_a_work_without_chapters() {
    let mut page = full_page();
    page.chapters = Vec::new();
    let work = Work::assemble(&page).unwrap();
    assert!(work.chapters.is_empty());
}

#[test]
fn an_empty_page_fails_for_the_title() {
    let work = Work::assemble(&Page::default());
    assert!(matches!(work, Err(WorkError::ElementNotFound("title"))));
}

#[test]
fn a_missing_title_comes_before_any_other_failure() {
    let mut page = full_page();
    page.title = None;
    page.word_count = some("many");
    page.tags = Vec::new();
    page.paragraphs = Vec::new();
    let work = Work::assemble(&page);
    assert!(matches!(work, Err(WorkError::ElementNotFound("title"))));
}

#[test]
fn each_text_field_is_mandatory() {
    let mut page = full_page();
    page.author = None;
    assert!(matches!(Work::assemble(&page), Err(WorkError::ElementNotFound("author"))));
    let mut page = full_page();
    page.published = None;
    assert!(matches!(Work::assemble(&page), Err(WorkError::ElementNotFound("published"))));
    let mut page = full_page();
    page.updated = None;
    assert!(matches!(Work::assemble(&page), Err(WorkError::ElementNotFound("updated"))));
    let mut page = full_page();
    page.language = None;
    assert!(matches!(Work::assemble(&page), Err(WorkError::ElementNotFound("language"))));
}

#[test]
fn each_count_is_mandatory() {
    let mut page = full_page();
    page.word_count = None;
    assert!(matches!(Work::assemble(&page), Err(WorkError::InvalidFormat("word_count"))));
    let mut page = full_page();
    page.word_count = some("12,34x");
    assert!(matches!(Work::assemble(&page), Err(WorkError::InvalidFormat("word_count"))));
    let mut page = full_page();
    page.hits = some("");
    assert!(matches!(Work::assemble(&page), Err(WorkError::InvalidFormat("hits"))));
}

#[test]
fn each_tag_list_is_mandatory() {
    let mut page = full_page();
    page.tags = Vec::new();
    assert!(matches!(Work::assemble(&page), Err(WorkError::NoItemsFound("tags"))));
    let mut page = full_page();
    page.characters = Vec::new();
    assert!(matches!(Work::assemble(&page), Err(WorkError::NoItemsFound("characters"))));
    let mut page = full_page();
    page.warnings = Vec::new();
    assert!(matches!(Work::assemble(&page), Err(WorkError::NoItemsFound("warnings"))));
    let mut page = full_page();
    page.relationships = Vec::new();
    assert!(matches!(Work::assemble(&page), Err(WorkError::NoItemsFound("relationships"))));
    let mut page = full_page();
    page.ratings = Vec::new();
    assert!(matches!(Work::assemble(&page), Err(WorkError::NoItemsFound("ratings"))));
}

#[test]
fn the_body_is_mandatory() {
    let mut page = full_page();
    page.paragraphs = Vec::new();
    assert!(matches!(Work::assemble(&page), Err(WorkError::NoItemsFound("paragraphs"))));
    let mut page = full_page();
    page.paragraphs = vec![Vec::new()];
    assert!(matches!(Work::assemble(&page), Err(WorkError::NoItemsFound("paragraph"))));
}

#[test]
fn failures_surface_in_the_order_of_the_fields() {
    let mut page = full_page();
    page.paragraphs = Vec::new();
    page.ratings = Vec::new();
    assert!(matches!(Work::assemble(&page), Err(WorkError::NoItemsFound("ratings"))));
    page.warnings = Vec::new();
    assert!(matches!(Work::assemble(&page), Err(WorkError::NoItemsFound("warnings"))));
    page.characters = Vec::new();
    assert!(matches!(Work::assemble(&page), Err(WorkError::NoItemsFound("characters"))));
    page.hits = None;
    assert!(matches!(Work::assemble(&page), Err(WorkError::InvalidFormat("hits"))));
    page.word_count = None;
    assert!(matches!(Work::assemble(&page), Err(WorkError::InvalidFormat("word_count"))));
    page.language = None;
    assert!(matches!(Work::assemble(&page), Err(WorkError::ElementNotFound("language"))));
    page.updated = None;
    assert!(matches!(Work::assemble(&page), Err(WorkError::ElementNotFound("updated"))));
    page.author = None;
    assert!(matches!(Work::assemble(&page), Err(WorkError::ElementNotFound("author"))));
}

#[test]
fn assembling_twice_gives_the_same_work() {
    let page = full_page();
    assert_eq!(Work::assemble(&page).unwrap(), Work::assemble(&page).unwrap());
}
