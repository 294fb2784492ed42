use knowledge_base::handlers::addrow;
use knowledge_base::handlers::answer;
use knowledge_base::handlers::get_content;
use knowledge_base::handlers::get_topic_page;
use knowledge_base::handlers::handle_404;
use knowledge_base::handlers::index;
use knowledge_base::handlers::ViewStep;
use knowledge_base::response::ContentType;
use knowledge_base::response::Response;
use knowledge_base::response::Status;
use knowledge_base::store::Fetched;
use knowledge_base::views::Page;
use knowledge_base::views::Value;
use std::collections::HashMap;
use tera::Context;
use tera::Tera;

fn engine() -> Tera {
    let mut tera = Tera::default();
    tera.add_raw_template("404.html", "<p>{{ message }}</p>").unwrap();
    tera.add_raw_template("content.html", "<main>{{ content | safe }}</main>").unwrap();
    tera.add_raw_template(
        "topic_page.html",
        "{{ topic }}:{% for s in subtopics %}[{{ s }}]{% endfor %}",
    )
    .unwrap();
    tera.add_raw_template(
        "index.html",
        "{% for t in topics %}{{ t }}:{% for s in subtopics[t] %}[{{ s }}]{% endfor %};{% endfor %}",
    )
    .unwrap();
    tera.add_raw_template(
        "addrow.html",
        "{{ message }}|{% for t in topics %}<option>{{ t }}</option>{% endfor %}",
    )
    .unwrap();
    tera
}

fn render(tera: &Tera, page: &Page) -> Option<String> {
    let mut context = Context::new();
    for (key, value) in page.context.iter() {
        match value {
            Value::Text(text) => context.insert(key.as_str(), text),
            Value::Names(names) => context.insert(key.as_str(), names),
            Value::Groups(groups) => {
                let table: HashMap<&String, &Vec<String>> =
                    groups.iter().map(|group| (&group.0, &group.1)).collect();
                context.insert(key.as_str(), &table)
            }
        }
    }
    tera.render(&page.template, &context).ok()
}

fn serve(tera: &Tera, step: ViewStep) -> Response {
    match step {
        ViewStep::Answer(response) => response,
        ViewStep::Render(status, page) => answer(status, render(tera, &page)),
    }
}

fn html(status: Status, body: &str) -> Response {
    Response { status, content_type: Some(ContentType::Html), body: body.to_string() }
}

fn bare_failure() -> Response {
    Response { status: Status::ServerError, content_type: None, body: String::new() }
}

fn row(topic: &str, subtopic: Option<&str>) -> Option<(String, Option<String>)> {
    Some((topic.to_string(), subtopic.map(|s| s.to_string())))
}

fn names(list: &[&str]) -> Vec<String> {
    list.iter().map(|s| s.to_string()).collect()
}

fn text(key: &str, value: &str) -> (String, Value) {
    (key.to_string(), Value::Text(value.to_string()))
}

#[test]
fn unmatched_path_is_to_show_the_not_found_view_under_404() {
    assert_eq!(
        handle_404(),
        ViewStep::Render(
            Status::NotFound,
            Page {
                template: "404.html".to_string(),
                context: vec![text("message", "Page not found")],
            }
        )
    );
}

#[test]
fn unmatched_path_gets_the_not_found_view() {
    assert_eq!(serve(&engine(), handle_404()), html(Status::NotFound, "<p>Page not found</p>"));
}

#[test]
fn not_found_view_that_does_not_render_is_a_bare_failure() {
    assert_eq!(serve(&Tera::default(), handle_404()), bare_failure());
}

#[test]
fn found_content_is_to_be_shown_as_html_under_200() {
    assert_eq!(
        get_content(&Fetched::Available(Some("# Hi".to_string()))),
        ViewStep::Render(
            Status::Success,
            Page {
                template: "content.html".to_string(),
                context: vec![text("content", "<h1>Hi</h1>\n")],
            }
        )
    );
}

#[test]
fn missing_content_is_to_be_shown_as_words_under_200() {
    assert_eq!(
        get_content(&Fetched::Available(None)),
        ViewStep::Render(
            Status::Success,
            Page {
                template: "content.html".to_string(),
                context: vec![text("content", "<p>Content not found</p>\n")],
            }
        )
    );
}

#[test]
fn stored_markdown_comes_back_as_html() {
    let found = Fetched::Available(Some("# Hi".to_string()));
    assert_eq!(
        serve(&engine(), get_content(&found)),
        html(Status::Success, "<main><h1>Hi</h1>\n</main>")
    );
}

#[test]
fn missing_content_is_shown_as_page_text() {
    assert_eq!(
        serve(&engine(), get_content(&Fetched::Available(None))),
        html(Status::Success, "<main><p>Content not found</p>\n</main>")
    );
}

#[test]
fn content_without_database_is_a_bare_failure() {
    assert_eq!(get_content(&Fetched::Unavailable), ViewStep::Answer(bare_failure()));
}

#[test]
fn content_that_does_not_render_is_a_bare_failure() {
    let found = Fetched::Available(Some("text".to_string()));
    assert_eq!(serve(&Tera::default(), get_content(&found)), bare_failure());
}

#[test]
fn topic_page_is_to_show_the_readable_subtopics_in_row_order() {
    let rows = Fetched::Available(vec![Some("traits".to_string()), None, Some("async".to_string())]);
    assert_eq!(
        get_topic_page("rust", &rows),
        ViewStep::Render(
            Status::Success,
            Page {
                template: "topic_page.html".to_string(),
                context: vec![
                    text("topic", "rust"),
                    ("subtopics".to_string(), Value::Names(names(&["traits", "async"]))),
                ],
            }
        )
    );
}

#[test]
fn topic_page_lists_its_subtopics_in_row_order() {
    let rows = Fetched::Available(vec![Some("traits".to_string()), None, Some("async".to_string())]);
    assert_eq!(
        serve(&engine(), get_topic_page("rust", &rows)),
        html(Status::Success, "rust:[traits][async]")
    );
}

#[test]
fn topic_page_of_unknown_topic_is_empty() {
    let rows = Fetched::Available(Vec::new());
    assert_eq!(serve(&engine(), get_topic_page("nothing", &rows)), html(Status::Success, "nothing:"));
}

#[test]
fn topic_page_without_database_is_a_bare_failure() {
    assert_eq!(get_topic_page("rust", &Fetched::Unavailable), ViewStep::Answer(bare_failure()));
}

#[test]
fn topic_page_that_does_not_render_is_a_bare_failure() {
    let rows = Fetched::Available(vec![Some("traits".to_string())]);
    assert_eq!(serve(&Tera::default(), get_topic_page("rust", &rows)), bare_failure());
}

#[test]
fn index_is_to_show_the_index_of_the_rows() {
    let rows = Fetched::Available(vec![
        row("rust", Some("traits")),
        row("go", Some("slices")),
        None,
        row("rust", Some("async")),
        row("ada", None),
    ]);
    assert_eq!(
        index(&rows),
        ViewStep::Render(
            Status::Success,
            Page {
                template: "index.html".to_string(),
                context: vec![
                    ("topics".to_string(), Value::Names(names(&["ada", "go", "rust"]))),
                    (
                        "subtopics".to_string(),
                        Value::Groups(vec![
                            ("ada".to_string(), Vec::new()),
                            ("go".to_string(), names(&["slices"])),
                            ("rust".to_string(), names(&["traits", "async"])),
                        ])
                    ),
                ],
            }
        )
    );
}

#[test]
fn index_lists_topics_in_order_with_their_subtopics() {
    let rows = Fetched::Available(vec![
        row("rust", Some("traits")),
        row("go", Some("slices")),
        row("rust", Some("async")),
        row("ada", None),
    ]);
    assert_eq!(
        serve(&engine(), index(&rows)),
        html(Status::Success, "ada:;go:[slices];rust:[traits][async];")
    );
}

#[test]
fn index_of_an_empty_store_is_empty() {
    assert_eq!(serve(&engine(), index(&Fetched::Available(Vec::new()))), html(Status::Success, ""));
}

#[test]
fn index_without_database_is_a_bare_failure() {
    assert_eq!(index(&Fetched::Unavailable), ViewStep::Answer(bare_failure()));
}

#[test]
fn index_that_does_not_render_is_a_bare_failure() {
    assert_eq!(serve(&Tera::default(), index(&Fetched::Available(Vec::new()))), bare_failure());
}

#[test]
fn add_form_is_to_show_the_readable_topics() {
    let rows = Fetched::Available(vec![Some("b".to_string()), None, Some("a".to_string())]);
    assert_eq!(
        addrow(&rows),
        ViewStep::Render(
            Status::Success,
            Page {
                template: "addrow.html".to_string(),
                context: vec![
                    text("message", "Data added successfully!"),
                    ("topics".to_string(), Value::Names(names(&["b", "a"]))),
                ],
            }
        )
    );
}

#[test]
fn add_form_lists_the_topics() {
    let rows = Fetched::Available(vec![Some("b".to_string()), Some("a".to_string())]);
    assert_eq!(
        serve(&engine(), addrow(&rows)),
        html(Status::Success, "Data added successfully!|<option>b</option><option>a</option>")
    );
}

#[test]
fn add_form_without_database_is_a_bare_failure() {
    assert_eq!(addrow(&Fetched::Unavailable), ViewStep::Answer(bare_failure()));
}

#[test]
fn rendered_text_is_answered_as_html() {
    assert_eq!(answer(Status::Success, Some("<p>x</p>".to_string())), html(Status::Success, "<p>x</p>"));
    assert_eq!(answer(Status::NotFound, Some(String::new())), html(Status::NotFound, ""));
}

#[test]
fn failed_rendering_is_answered_as_a_bare_failure() {
    assert_eq!(answer(Status::Success, None), bare_failure());
    assert_eq!(answer(Status::NotFound, None), bare_failure());
}

#[test]
fn view_without_its_template_is_a_bare_failure_though_others_are_loaded() {
    let mut tera = Tera::default();
    tera.add_raw_template("404.html", "<p>{{ message }}</p>").unwrap();
    assert_eq!(serve(&tera, handle_404()), html(Status::NotFound, "<p>Page not found</p>"));
    assert_eq!(serve(&tera, get_content(&Fetched::Available(Some("# Hi".to_string())))), bare_failure());
    assert_eq!(serve(&tera, index(&Fetched::Available(Vec::new()))), bare_failure());
    assert_eq!(serve(&tera, get_topic_page("rust", &Fetched::Available(Vec::new()))), bare_failure());
    assert_eq!(serve(&tera, addrow(&Fetched::Available(Vec::new()))), bare_failure());
}
