use ao3::content::{Content, InlineNode, Paragraph};
use ao3::dom::CONTENT_LIMIT;
use ao3::extract::{candidates, first_text, inline_nodes, paragraphs};
use ao3::page::Page;
use ao3::registry::{Field, Registry};
use ao3::work::{Candidate, Chapter, Tag, Work, WorkError};
use scraper::{Html, Selector};

const META: &str = "<div class=\"wrapper\"><dl class=\"work meta group\">\
<dt class=\"rating tags\">Rating:</dt>\
<dd class=\"rating tags\"><ul class=\"commas\">\
<li><a class=\"tag\" href=\"/tags/General/works\">General Audiences</a></li></ul></dd>\
<dt class=\"warning tags\">Archive Warning:</dt>\
<dd class=\"warning tags\"><ul class=\"commas\">\
<li><a class=\"tag\" href=\"/tags/None/works\">No Archive Warnings Apply</a></li></ul></dd>\
<dd class=\"relationship tags\"><ul class=\"commas\">\
<li><a class=\"tag\" href=\"/tags/A*s*B/works\">A/B</a></li></ul></dd>\
<dd class=\"character tags\"><ul class=\"commas\">\
<li><a class=\"tag\" href=\"/tags/A/works\">A</a></li>\
<li><a class=\"tag\" href=\"/tags/B/works\">B</a></li></ul></dd>\
<dd class=\"freeform tags\"><ul class=\"commas\">\
<li><a class=\"tag\" href=\"/tags/Fluff/works\">Fluff</a></li>\
<li><a class=\"tag\">Unlinked</a></li>\
<li><a class=\"tag\" href=\"/tags/Angst/works\"> Slow <i>Burn</i> </a></li>\
<li><a class=\"tag\" href=\"/tags/Humor/works\">Humor</a></li></ul></dd>\
<dt class=\"language\">Language:</dt>\
<dd class=\"language\" lang=\"en\">\n  English\n</dd>\
<dt class=\"stats\">Stats:</dt>\
<dd class=\"stats\"><dl class=\"stats\">\
<dt class=\"published\">Published:</dt><dd class=\"published\">2024-05-12</dd>\
<dt class=\"status\">Updated:</dt><dd class=\"status\">2024-06-01</dd>\
<dt class=\"words\">Words:</dt><dd class=\"words\">12,345</dd>\
<dt class=\"hits\">Hits:</dt><dd class=\"hits\">1,234,567</dd>\
</dl></dd></dl></div>";

const MENU: &str = "<select id=\"selected_id\">\
<option value=\"101\">1. Beginning</option>\
<option>2. No id</option>\
<option value=\"103\"> 3. End </option></select>";

const PREFACE: &str = "<div class=\"preface group\">\
<h2 class=\"title heading\">\n      The Title\n    </h2>\
<h3 class=\"byline heading\"><a rel=\"author\" href=\"/users/someone\">Author Name</a></h3>\
</div>";

const CHAPTERS: &str = "<div id=\"chapters\"><div class=\"chapter\">\
<div class=\"userstuff module\">\
<p>Hello <strong>world</strong>!</p>\
<p><em>Quiet</em> night<br><span>lost</span><!-- aside -->again</p>\
</div></div></div>";

fn page_with(meta: &str, menu: &str, preface: &str, chapters: &str) -> String {
    format!(
        "<!DOCTYPE html><html><head><title>A work</title></head><body>{}{}\
<div id=\"workskin\">{}{}</div></body></html>",
        meta, menu, preface, chapters
    )
}

fn sample_page() -> String {
    page_with(META, MENU, PREFACE, CHAPTERS)
}

fn tag(name: &str, link: &str) -> Tag {
    Tag { name: name.to_string(), link: link.to_string() }
}

fn expected_work() -> Work {
    Work {
        title: "The Title".to_string(),
        date_published: "2024-05-12".to_string(),
        date_updated: "2024-06-01".to_string(),
        word_count: 12345,
        author: "Author Name".to_string(),
        archive_warnings: vec![tag("No Archive Warnings Apply", "/tags/None/works")],
        tags: vec![
            tag("Fluff", "/tags/Fluff/works"),
            tag("Slow Burn", "/tags/Angst/works"),
            tag("Humor", "/tags/Humor/works"),
        ],
        characters: vec![tag("A", "/tags/A/works"), tag("B", "/tags/B/works")],
        relationships: vec![tag("A/B", "/tags/A*s*B/works")],
        chapters: vec![
            Chapter { name: "1. Beginning".to_string(), id: "101".to_string() },
            Chapter { name: "3. End".to_string(), id: "103".to_string() },
        ],
        hits: 1234567,
        language: "English".to_string(),
        body: vec![
            Paragraph {
                content: vec![
                    Content::Text("Hello".to_string()),
                    Content::Bold("world".to_string()),
                    Content::Text("!".to_string()),
                ],
            },
            Paragraph {
                content: vec![
                    Content::Italic("Quiet".to_string()),
                    Content::Text("night".to_string()),
                    Content::Text("again".to_string()),
                ],
            },
        ],
        ratings: vec![tag("General Audiences", "/tags/General/works")],
    }
}

#[test]
fn the_limit_of_a_page_leaves_room_in_a_buffer() {
    assert_eq!(CONTENT_LIMIT, 0x1fff_ffff);
    assert!((CONTENT_LIMIT as u64) * 4 < 0x8000_0000);
    assert!(sample_page().len() <= CONTENT_LIMIT);
}

#[test]
fn a_nul_in_a_page_becomes_three_bytes_at_most() {
    let document = Html::parse_document("<title>a\u{0}b</title><p>c\u{0}d</p>");
    let title = Selector::parse("title").unwrap();
    assert_eq!(first_text(&document, &title), Some("a\u{fffd}b".to_string()));
    let paragraph = Selector::parse("p").unwrap();
    let text = first_text(&document, &paragraph).unwrap();
    assert!(text.len() <= 3 * "c\u{0}d".len());
}

#[test]
fn a_page_is_parsed_into_its_work() {
    let registry = Registry::new().unwrap();
    let work = Work::from_content(&sample_page(), &registry).unwrap();
    assert_eq!(work, expected_work());
}

#[test]
fn a_parsed_document_is_parsed_into_its_work() {
    let registry = Registry::new().unwrap();
    let document = Html::parse_document(&sample_page());
    let work = Work::parse_document(&document, &registry).unwrap();
    assert_eq!(work, expected_work());
}

#[test]
fn parsing_twice_gives_the_same_work() {
    let registry = Registry::new().unwrap();
    let document = Html::parse_document(&sample_page());
    let first = Work::parse_document(&document, &registry).unwrap();
    let second = Work::parse_document(&document, &registry).unwrap();
    assert_eq!(first, second);
    let again = Work::from_content(&sample_page(), &registry).unwrap();
    assert_eq!(first, again);
    assert_eq!(format!("{:?}", first), format!("{:?}", again));
}

#[test]
fn parsing_twice_gives_the_same_error() {
    let registry = Registry::new().unwrap();
    let content = page_with(META, MENU, PREFACE, "");
    let first = Work::from_content(&content, &registry);
    let second = Work::from_content(&content, &registry);
    assert!(matches!(first, Err(WorkError::NoItemsFound("paragraphs"))));
    assert!(matches!(second, Err(WorkError::NoItemsFound("paragraphs"))));
}

#[test]
fn reading_and_assembling_is_parsing() {
    let registry = Registry::new().unwrap();
    let document = Html::parse_document(&sample_page());
    let page = Page::read(&document, &registry);
    assert_eq!(Work::assemble(&page).unwrap(), expected_work());
}

#[test]
fn a_page_is_read_as_it_is_found() {
    let registry = Registry::new().unwrap();
    let document = Html::parse_document(&sample_page());
    let page = Page::read(&document, &registry);
    assert_eq!(page.title, Some("\n      The Title\n    ".to_string()));
    assert_eq!(page.author, Some("Author Name".to_string()));
    assert_eq!(page.language, Some("\n  English\n".to_string()));
    assert_eq!(page.word_count, Some("12,345".to_string()));
    assert_eq!(page.hits, Some("1,234,567".to_string()));
    assert_eq!(page.tags.len(), 4);
    assert_eq!(page.tags[1], Candidate { text: "Unlinked".to_string(), attr: None });
    assert_eq!(
        page.tags[2],
        Candidate { text: " Slow Burn ".to_string(), attr: Some("/tags/Angst/works".to_string()) }
    );
    assert_eq!(page.chapters.len(), 3);
    assert_eq!(page.chapters[1], Candidate { text: "2. No id".to_string(), attr: None });
    assert_eq!(page.paragraphs.len(), 2);
    assert_eq!(
        page.paragraphs[1],
        vec![
            InlineNode::Element { tag: "em".to_string(), text: "Quiet".to_string() },
            InlineNode::Text(" night".to_string()),
            InlineNode::Element { tag: "br".to_string(), text: String::new() },
            InlineNode::Element { tag: "span".to_string(), text: "lost".to_string() },
            InlineNode::Other,
            InlineNode::Text("again".to_string()),
        ]
    );
}

#[test]
fn a_document_without_a_title_fails_for_the_title() {
    let registry = Registry::new().unwrap();
    let preface = "<div class=\"preface group\"><h3 class=\"byline heading\">Author</h3></div>";
    let work = Work::from_content(&page_with(META, MENU, preface, CHAPTERS), &registry);
    assert!(matches!(work, Err(WorkError::ElementNotFound("title"))));
}

#[test]
fn an_empty_document_fails_for_the_title() {
    let registry = Registry::new().unwrap();
    assert!(matches!(
        Work::from_content("", &registry),
        Err(WorkError::ElementNotFound("title"))
    ));
    assert!(matches!(
        Work::from_content(&page_with("", "", "", ""), &registry),
        Err(WorkError::ElementNotFound("title"))
    ));
}

#[test]
fn a_document_without_an_author_fails_for_the_author() {
    let registry = Registry::new().unwrap();
    let preface = "<div class=\"preface group\"><h2 class=\"title heading\">T</h2></div>";
    let work = Work::from_content(&page_with("", "", preface, ""), &registry);
    assert!(matches!(work, Err(WorkError::ElementNotFound("author"))));
}

#[test]
fn a_document_without_metadata_fails_for_the_first_of_it() {
    let registry = Registry::new().unwrap();
    let work = Work::from_content(&page_with("", MENU, PREFACE, CHAPTERS), &registry);
    assert!(matches!(work, Err(WorkError::ElementNotFound("published"))));
}

#[test]
fn a_document_with_a_malformed_count_fails_for_the_count() {
    let registry = Registry::new().unwrap();
    let meta = META.replace("12,345", "12,34x");
    let work = Work::from_content(&page_with(&meta, MENU, PREFACE, CHAPTERS), &registry);
    assert!(matches!(work, Err(WorkError::InvalidFormat("word_count"))));
    let meta = META.replace("1,234,567", "lots");
    let work = Work::from_content(&page_with(&meta, MENU, PREFACE, CHAPTERS), &registry);
    assert!(matches!(work, Err(WorkError::InvalidFormat("hits"))));
}

#[test]
fn a_document_without_a_chapter_menu_has_no_chapters() {
    let registry = Registry::new().unwrap();
    let work = Work::from_content(&page_with(META, "", PREFACE, CHAPTERS), &registry).unwrap();
    assert_eq!(work.chapters, Vec::<Chapter>::new());
    let mut expected = expected_work();
    expected.chapters = Vec::new();
    assert_eq!(work, expected);
}

#[test]
fn a_document_with_an_empty_paragraph_fails_for_the_paragraph() {
    let registry = Registry::new().unwrap();
    let chapters = CHAPTERS.replace("<p>Hello <strong>world</strong>!</p>", "<p></p>");
    let work = Work::from_content(&page_with(META, MENU, PREFACE, &chapters), &registry);
    assert!(matches!(work, Err(WorkError::NoItemsFound("paragraph"))));
}

#[test]
fn single_text_takes_the_first_match() {
    let document = Html::parse_document("<p class=\"x\"> one <b>and</b> a half </p><p class=\"x\">two</p>");
    let selector = Selector::parse("p.x").unwrap();
    assert_eq!(first_text(&document, &selector), Some(" one and a half ".to_string()));
    let field = Work::parse_inner_text_element(&document, &selector, "title");
    assert_eq!(field.unwrap(), "one and a half");
}

#[test]
fn single_text_without_a_match_is_not_found() {
    let document = Html::parse_document("<p>one</p>");
    let selector = Selector::parse("h1").unwrap();
    assert_eq!(first_text(&document, &selector), None);
    let field = Work::parse_inner_text_element(&document, &selector, "title");
    assert!(matches!(field, Err(WorkError::ElementNotFound("title"))));
}

#[test]
fn single_integer_reads_the_count() {
    let document = Html::parse_document("<dd class=\"words\">12,345</dd>");
    let selector = Selector::parse("dd.words").unwrap();
    let field = Work::parse_inner_number_element(&document, &selector, "word_count");
    assert_eq!(field.unwrap(), 12345);
}

#[test]
fn single_integer_refuses_what_is_no_count() {
    let document = Html::parse_document("<dd class=\"words\">12,34x</dd>");
    let selector = Selector::parse("dd.words").unwrap();
    let field = Work::parse_inner_number_element(&document, &selector, "word_count");
    assert!(matches!(field, Err(WorkError::InvalidFormat("word_count"))));
    let absent = Selector::parse("dd.hits").unwrap();
    let field = Work::parse_inner_number_element(&document, &absent, "hits");
    assert!(matches!(field, Err(WorkError::InvalidFormat("hits"))));
}

#[test]
fn tag_region_with_three_links_and_one_without() {
    let document = Html::parse_document(
        "<ul><li><a class=\"tag\" href=\"/1\">one</a></li><li><a class=\"tag\">none</a></li>\
<li><a class=\"tag\" href=\"/2\"> two </a></li><li><a class=\"tag\" href=\"/3\">three</a></li></ul>",
    );
    let selector = Selector::parse("ul li a.tag").unwrap();
    let tags = Work::parse_tag_list(&document, &selector, "tags").unwrap();
    assert_eq!(tags, vec![tag("one", "/1"), tag("two", "/2"), tag("three", "/3")]);
}

#[test]
fn tag_region_with_an_empty_link() {
    let document = Html::parse_document(
        "<ul><li><a class=\"tag\" href=\"\">bare</a></li>\
<li><a class=\"tag\" href=\"/tags/x\">  Foo <b>Bar</b>  </a></li></ul>",
    );
    let selector = Selector::parse("ul li a.tag").unwrap();
    let tags = Work::parse_tag_list(&document, &selector, "tags").unwrap();
    assert_eq!(tags, vec![tag("Foo Bar", "/tags/x")]);
}

#[test]
fn tag_region_with_empty_links_only_has_no_items() {
    let document = Html::parse_document("<ul><li><a class=\"tag\" href=\"\">bare</a></li></ul>");
    let selector = Selector::parse("ul li a.tag").unwrap();
    let tags = Work::parse_tag_list(&document, &selector, "tags");
    assert!(matches!(tags, Err(WorkError::NoItemsFound("tags"))));
}

#[test]
fn tag_region_absent_has_no_items() {
    let document = Html::parse_document("<p>nothing here</p>");
    let selector = Selector::parse("ul li a.tag").unwrap();
    let tags = Work::parse_tag_list(&document, &selector, "tags");
    assert!(matches!(tags, Err(WorkError::NoItemsFound("tags"))));
}

#[test]
fn chapter_region_absent_is_an_empty_list() {
    let document = Html::parse_document("<p>nothing here</p>");
    let selector = Selector::parse("#selected_id option").unwrap();
    let chapters = Work::parse_chapters(&document, &selector).unwrap();
    assert_eq!(chapters, Vec::<Chapter>::new());
}

#[test]
fn chapter_region_is_read_by_value() {
    let document = Html::parse_document(MENU);
    let selector = Selector::parse("#selected_id option").unwrap();
    let chapters = Work::parse_chapters(&document, &selector).unwrap();
    assert_eq!(
        chapters,
        vec![
            Chapter { name: "1. Beginning".to_string(), id: "101".to_string() },
            Chapter { name: "3. End".to_string(), id: "103".to_string() },
        ]
    );
}

#[test]
fn candidates_carry_the_attribute_asked_for() {
    let document = Html::parse_document("<a href=\"/x\" value=\"7\">x</a><a value=\"8\">y</a>");
    let selector = Selector::parse("a").unwrap();
    assert_eq!(
        candidates(&document, &selector, "href"),
        vec![
            Candidate { text: "x".to_string(), attr: Some("/x".to_string()) },
            Candidate { text: "y".to_string(), attr: None },
        ]
    );
    assert_eq!(
        candidates(&document, &selector, "value"),
        vec![
            Candidate { text: "x".to_string(), attr: Some("7".to_string()) },
            Candidate { text: "y".to_string(), attr: Some("8".to_string()) },
        ]
    );
}

#[test]
fn paragraph_of_text_strong_text() {
    let document = Html::parse_fragment("<p>Hello <strong>world</strong>!</p>");
    let selector = Selector::parse("p").unwrap();
    let element = document.select(&selector).next().unwrap();
    assert_eq!(
        inline_nodes(&element),
        vec![
            InlineNode::Text("Hello ".to_string()),
            InlineNode::Element { tag: "strong".to_string(), text: "world".to_string() },
            InlineNode::Text("!".to_string()),
        ]
    );
    let paragraph = Work::parse_paragraph(&element).unwrap();
    assert_eq!(
        paragraph.content,
        vec![
            Content::Text("Hello".to_string()),
            Content::Bold("world".to_string()),
            Content::Text("!".to_string()),
        ]
    );
}

#[test]
fn styled_text_is_taken_with_what_is_nested_in_it() {
    let document = Html::parse_fragment("<p><em> very <strong>loud</strong> </em></p>");
    let selector = Selector::parse("p").unwrap();
    let element = document.select(&selector).next().unwrap();
    let paragraph = Work::parse_paragraph(&element).unwrap();
    assert_eq!(paragraph.content, vec![Content::Italic("very loud".to_string())]);
}

#[test]
fn paragraph_without_content_has_no_items() {
    let document = Html::parse_fragment("<p><span>lost</span><br></p>");
    let selector = Selector::parse("p").unwrap();
    let element = document.select(&selector).next().unwrap();
    let paragraph = Work::parse_paragraph(&element);
    assert!(matches!(paragraph, Err(WorkError::NoItemsFound("paragraph"))));
}

#[test]
fn paragraphs_are_read_in_order() {
    let document = Html::parse_fragment("<div><p>one</p><p><em>two</em></p></div><p>three</p>");
    let selector = Selector::parse("p").unwrap();
    assert_eq!(
        paragraphs(&document, &selector),
        vec![
            vec![InlineNode::Text("one".to_string())],
            vec![InlineNode::Element { tag: "em".to_string(), text: "two".to_string() }],
            vec![InlineNode::Text("three".to_string())],
        ]
    );
    let body = Work::parse_paragraphs(&document, &selector).unwrap();
    assert_eq!(
        body,
        vec![
            Paragraph { content: vec![Content::Text("one".to_string())] },
            Paragraph { content: vec![Content::Italic("two".to_string())] },
            Paragraph { content: vec![Content::Text("three".to_string())] },
        ]
    );
}

#[test]
fn paragraphs_absent_have_no_items() {
    let document = Html::parse_fragment("<div>no paragraph</div>");
    let selector = Selector::parse("p").unwrap();
    let body = Work::parse_paragraphs(&document, &selector);
    assert!(matches!(body, Err(WorkError::NoItemsFound("paragraphs"))));
}

#[test]
fn the_registry_finds_the_title() {
    let registry = Registry::new().unwrap();
    let document = Html::parse_document(&sample_page());
    let title = Work::parse_inner_text_element(&document, registry.get(Field::Title), "title");
    assert_eq!(title.unwrap(), "The Title");
}
