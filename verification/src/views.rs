//! The views of the site: for each, the template that shows it and the
//! values that the template is given.

use vstd::prelude::*;
use crate::markdown::markdown_html;
use crate::markdown::render_markdown;
use crate::submission::ADDED;

verus! {

pub const INDEX_TEMPLATE: &'static str = "index.html";

pub const TOPIC_TEMPLATE: &'static str = "topic_page.html";

pub const CONTENT_TEMPLATE: &'static str = "content.html";

pub const NOT_FOUND_TEMPLATE: &'static str = "404.html";

pub const ADD_FORM_TEMPLATE: &'static str = "addrow.html";

pub const PAGE_NOT_FOUND: &'static str = "Page not found";

pub const CONTENT_NOT_FOUND: &'static str = "Content not found";

/// A value that a template is given under a key.
#[derive(Debug, PartialEq, Eq)]
pub enum Value {
    /// One text.
    Text(String),
    /// A list of names.
    Names(Vec<String>),
    /// Names, each with a list of names under it; no name stands twice.
    Groups(Vec<(String, Vec<String>)>),
}

/// A value, as sequences.
pub ghost enum ValueView {
    Text(Seq<char>),
    Names(Seq<Seq<char>>),
    Groups(Seq<(Seq<char>, Seq<Seq<char>>)>),
}

impl View for Value {
    type V = ValueView;

    open spec fn view(&self) -> ValueView {
        match self {
            Value::Text(text) => ValueView::Text(text@),
            Value::Names(names) => ValueView::Names(names.deep_view()),
            Value::Groups(groups) => ValueView::Groups(groups.deep_view()),
        }
    }
}

impl DeepView for Value {
    type V = ValueView;

    open spec fn deep_view(&self) -> ValueView {
        self@
    }
}

/// A view to render: the name of its template, and the values that the
/// template is given, each under its key.
#[derive(Debug, PartialEq, Eq)]
pub struct Page {
    pub template: String,
    pub context: Vec<(String, Value)>,
}

/// A view to render, as sequences.
pub ghost struct PageView {
    pub template: Seq<char>,
    pub context: Seq<(Seq<char>, ValueView)>,
}

impl View for Page {
    type V = PageView;

    open spec fn view(&self) -> PageView {
        PageView { template: self.template@, context: self.context.deep_view() }
    }
}

/// The index: the topics in ascending order under `topics`, and each topic
/// with its subtopics under `subtopics`.
pub open spec fn index_view(names: Seq<Seq<char>>, groups: Seq<(Seq<char>, Seq<Seq<char>>)>) -> PageView {
    PageView {
        template: INDEX_TEMPLATE@,
        context: seq![("topics"@, ValueView::Names(names)), ("subtopics"@, ValueView::Groups(groups))],
    }
}

/// The page of one topic: its name under `topic`, its subtopics under
/// `subtopics`.
pub open spec fn topic_view(topic: Seq<char>, subtopics: Seq<Seq<char>>) -> PageView {
    PageView {
        template: TOPIC_TEMPLATE@,
        context: seq![("topic"@, ValueView::Text(topic)), ("subtopics"@, ValueView::Names(subtopics))],
    }
}

/// The page of one content, given the HTML that its text was rendered to:
/// the HTML under `content`.
pub open spec fn rendered_content_view(html: Seq<char>) -> PageView {
    PageView { template: CONTENT_TEMPLATE@, context: seq![("content"@, ValueView::Text(html))] }
}

/// The page of one content: the Markdown text, rendered as HTML, under
/// `content`.
pub open spec fn content_view(markdown: Seq<char>) -> PageView {
    rendered_content_view(markdown_html(markdown))
}

/// The page for a path that leads nowhere: the words "Page not found" under
/// `message`.
pub open spec fn not_found_view() -> PageView {
    PageView {
        template: NOT_FOUND_TEMPLATE@,
        context: seq![("message"@, ValueView::Text(PAGE_NOT_FOUND@))],
    }
}

/// The form for a new entry: the names of the topics that are there under
/// `topics`, and the words of a successful submission under `message`.
pub open spec fn add_form_view(topics: Seq<Seq<char>>) -> PageView {
    PageView {
        template: ADD_FORM_TEMPLATE@,
        context: seq![("message"@, ValueView::Text(ADDED@)), ("topics"@, ValueView::Names(topics))],
    }
}

fn page_of_two(template: &str, first: (String, Value), second: (String, Value)) -> (page: Page)
    ensures
        page@ == (PageView { template: template@, context: seq![first.deep_view(), second.deep_view()] }),
{
    let ghost entries = seq![first.deep_view(), second.deep_view()];
    let mut context: Vec<(String, Value)> = Vec::new();
    context.push(first);
    context.push(second);
    assert(context.deep_view() =~= entries);
    Page { template: String::from_str(template), context }
}

fn page_of_one(template: &str, only: (String, Value)) -> (page: Page)
    ensures
        page@ == (PageView { template: template@, context: seq![only.deep_view()] }),
{
    let ghost entries = seq![only.deep_view()];
    let mut context: Vec<(String, Value)> = Vec::new();
    context.push(only);
    assert(context.deep_view() =~= entries);
    Page { template: String::from_str(template), context }
}

/// The index of the given topics and groups.
pub fn index_page(names: Vec<String>, groups: Vec<(String, Vec<String>)>) -> (page: Page)
    ensures
        page@ == index_view(names.deep_view(), groups.deep_view()),
{
    page_of_two(
        INDEX_TEMPLATE,
        (String::from_str("topics"), Value::Names(names)),
        (String::from_str("subtopics"), Value::Groups(groups)),
    )
}

/// The page of the topic `topic` with the given subtopics.
pub fn topic_page(topic: &str, subtopics: Vec<String>) -> (page: Page)
    ensures
        page@ == topic_view(topic@, subtopics.deep_view()),
{
    page_of_two(
        TOPIC_TEMPLATE,
        (String::from_str("topic"), Value::Text(String::from_str(topic))),
        (String::from_str("subtopics"), Value::Names(subtopics)),
    )
}

/// The page that shows `html`, the HTML that the text of a content was
/// rendered to.
pub fn rendered_content_page(html: String) -> (page: Page)
    ensures
        page@ == rendered_content_view(html@),
{
    page_of_one(CONTENT_TEMPLATE, (String::from_str("content"), Value::Text(html)))
}

/// The page that shows the Markdown text `markdown`.
pub fn content_page(markdown: &str) -> (page: Page)
    ensures
        page@ == content_view(markdown@),
{
    rendered_content_page(render_markdown(markdown))
}

/// The page for a path that leads nowhere.
pub fn not_found_page() -> (page: Page)
    ensures
        page@ == not_found_view(),
{
    page_of_one(
        NOT_FOUND_TEMPLATE,
        (String::from_str("message"), Value::Text(String::from_str(PAGE_NOT_FOUND))),
    )
}

/// The form for a new entry, with the given topics to choose from.
pub fn add_form_page(topics: Vec<String>) -> (page: Page)
    ensures
        page@ == add_form_view(topics.deep_view()),
{
    page_of_two(
        ADD_FORM_TEMPLATE,
        (String::from_str("message"), Value::Text(String::from_str(ADDED))),
        (String::from_str("topics"), Value::Names(topics)),
    )
}

} // verus!
