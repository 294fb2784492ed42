//! The answers to the requests that the site takes: which view is shown for
//! what the database gave, and what is said where something failed.
//!
//! Rendering a view is the host's part. A handler says which view to render
//! and under which status, or answers at once where there is nothing to
//! render; `answer` then makes the answer of what the rendering gave.

use vstd::prelude::*;
use crate::listing::get_topics_and_subtopics;
use crate::listing::is_listing_of;
use crate::listing::readable;
use crate::listing::readable_names;
use crate::response::rendered_page;
use crate::response::server_error;
use crate::response::Response;
use crate::response::ResponseView;
use crate::response::Status;
use crate::store::Fetched;
use crate::views::add_form_page;
use crate::views::add_form_view;
use crate::views::content_page;
use crate::views::content_view;
use crate::views::index_page;
use crate::views::index_view;
use crate::views::not_found_page;
use crate::views::not_found_view;
use crate::views::topic_page;
use crate::views::topic_view;
use crate::views::Page;
use crate::views::PageView;
use crate::views::CONTENT_NOT_FOUND;

verus! {

/// What comes next for a request for a view.
#[derive(Debug, PartialEq, Eq)]
pub enum ViewStep {
    /// Render this view and hand what comes of it, with this status, to
    /// `answer`.
    Render(Status, Page),
    /// There is nothing to render: this is the answer.
    Answer(Response),
}

/// A step, as sequences.
pub ghost enum ViewStepView {
    Render(Status, PageView),
    Answer(ResponseView),
}

impl View for ViewStep {
    type V = ViewStepView;

    open spec fn view(&self) -> ViewStepView {
        match self {
            ViewStep::Render(status, page) => ViewStepView::Render(*status, page@),
            ViewStep::Answer(response) => ViewStepView::Answer(response@),
        }
    }
}

/// The text that the content page shows: the text that was found, or
/// "Content not found" in its place.
pub open spec fn shown_text(found: Option<Seq<char>>) -> Seq<char> {
    match found {
        Some(text) => text,
        None => CONTENT_NOT_FOUND@,
    }
}

/// The answer for a view that was to be shown under `status`, given what
/// rendering it gave: the text of the page as HTML under `status`, or the
/// bare failure where rendering failed and gave `None`.
pub fn answer(status: Status, rendered: Option<String>) -> (response: Response)
    ensures
        response@ == rendered_page(status, rendered.deep_view()),
{
    match rendered {
        Some(body) => Response::page(status, body),
        None => Response::server_error(),
    }
}

/// Answers a request for a path that leads nowhere: the view of
/// `not_found_page` is to be rendered under status 404.
pub fn handle_404() -> (step: ViewStep)
    ensures
        step@ == ViewStepView::Render(Status::NotFound, not_found_view()),
{
    ViewStep::Render(Status::NotFound, not_found_page())
}

/// Answers a request for the index, given the rows of
/// `topics_and_subtopics_query`: the index of the rows is to be rendered
/// under status 200. Where the rows could not be fetched, the answer is the
/// bare failure.
pub fn index(rows: &Fetched<Vec<Option<(String, Option<String>)>>>) -> (step: ViewStep)
    ensures
        match rows {
            Fetched::Unavailable => step@ == ViewStepView::Answer(server_error()),
            Fetched::Available(rows) => exists|names: Seq<Seq<char>>, groups: Seq<(Seq<char>, Seq<Seq<char>>)>|
                #[trigger] is_listing_of(names, groups, rows.deep_view()) && step@ == ViewStepView::Render(
                    Status::Success,
                    index_view(names, groups),
                ),
        },
{
    match rows {
        Fetched::Unavailable => ViewStep::Answer(Response::server_error()),
        Fetched::Available(rows) => {
            let (names, groups) = get_topics_and_subtopics(rows);
            assert(is_listing_of(names.deep_view(), groups.deep_view(), rows.deep_view()));
            ViewStep::Render(Status::Success, index_page(names, groups))
        },
    }
}

/// Answers a request for the page of the topic `topic`, given the rows of
/// `subtopics_query`: the page of the topic with the subtopics that could
/// be read, in the order of the rows, is to be rendered under status 200. A
/// topic that is not there is shown like one without subtopics. Where the
/// rows could not be fetched, the answer is the bare failure.
pub fn get_topic_page(topic: &str, rows: &Fetched<Vec<Option<String>>>) -> (step: ViewStep)
    ensures
        match rows {
            Fetched::Unavailable => step@ == ViewStepView::Answer(server_error()),
            Fetched::Available(rows) => step@ == ViewStepView::Render(
                Status::Success,
                topic_view(topic@, readable_names(rows.deep_view())),
            ),
        },
{
    match rows {
        Fetched::Unavailable => ViewStep::Answer(Response::server_error()),
        Fetched::Available(rows) => ViewStep::Render(Status::Success, topic_page(topic, readable(rows))),
    }
}

/// The page for what was found under a subtopic: the text that was found,
/// or the words "Content not found" in its place, rendered as Markdown.
pub fn shown_page(found: &Option<String>) -> (page: Page)
    ensures
        page@ == content_view(shown_text(found.deep_view())),
{
    match found {
        Some(text) => content_page(text.as_str()),
        None => content_page(CONTENT_NOT_FOUND),
    }
}

/// Answers a request for the content of a subtopic, given what
/// `content_query` found: the view of `shown_page` is to be rendered under
/// status 200, also where no text was found. Where the database could not
/// be asked, the answer is the bare failure.
pub fn get_content(found: &Fetched<Option<String>>) -> (step: ViewStep)
    ensures
        match found {
            Fetched::Unavailable => step@ == ViewStepView::Answer(server_error()),
            Fetched::Available(found) => step@ == ViewStepView::Render(
                Status::Success,
                content_view(shown_text(found.deep_view())),
            ),
        },
{
    match found {
        Fetched::Unavailable => ViewStep::Answer(Response::server_error()),
        Fetched::Available(found) => ViewStep::Render(Status::Success, shown_page(found)),
    }
}

/// Answers a request for the form for a new entry, given the rows of
/// `topic_names_query`: the form with the names that could be read, in the
/// order of the rows, is to be rendered under status 200. Where the rows
/// could not be fetched, the answer is the bare failure.
pub fn addrow(rows: &Fetched<Vec<Option<String>>>) -> (step: ViewStep)
    ensures
        match rows {
            Fetched::Unavailable => step@ == ViewStepView::Answer(server_error()),
            Fetched::Available(rows) => step@ == ViewStepView::Render(
                Status::Success,
                add_form_view(readable_names(rows.deep_view())),
            ),
        },
{
    match rows {
        Fetched::Unavailable => ViewStep::Answer(Response::server_error()),
        Fetched::Available(rows) => ViewStep::Render(Status::Success, add_form_page(readable(rows))),
    }
}

} // verus!
