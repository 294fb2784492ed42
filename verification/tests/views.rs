use knowledge_base::handlers::shown_page;
use knowledge_base::views::add_form_page;
use knowledge_base::views::content_page;
use knowledge_base::views::index_page;
use knowledge_base::views::not_found_page;
use knowledge_base::views::rendered_content_page;
use knowledge_base::views::topic_page;
use knowledge_base::views::Page;
use knowledge_base::views::Value;

fn names(list: &[&str]) -> Vec<String> {
    list.iter().map(|s| s.to_string()).collect()
}

fn content_of(page: &Page) -> String {
    assert_eq!(page.template, "content.html");
    assert_eq!(page.context.len(), 1);
    assert_eq!(page.context[0].0, "content");
    match &page.context[0].1 {
        Value::Text(html) => html.clone(),
        other => panic!("content is no text: {:?}", other),
    }
}

#[test]
fn heading_is_rendered_as_h1() {
    assert_eq!(content_of(&content_page("# Hi")), "<h1>Hi</h1>\n");
}

#[test]
fn markdown_is_rendered_not_copied() {
    assert_eq!(content_of(&content_page("plain words")), "<p>plain words</p>\n");
    assert_eq!(content_of(&content_page("*a* and **b**")), "<p><em>a</em> and <strong>b</strong></p>\n");
}

#[test]
fn empty_markdown_renders_to_nothing() {
    assert_eq!(content_of(&content_page("")), "");
}

#[test]
fn markdown_list_is_rendered() {
    assert_eq!(
        content_of(&content_page("# hello\n\n* alpha\n* beta\n")),
        "<h1>hello</h1>\n<ul>\n<li>alpha</li>\n<li>beta</li>\n</ul>\n"
    );
}

#[test]
fn markdown_escapes_angle_brackets_in_text() {
    assert_eq!(content_of(&content_page("1 < 2 & 3")), "<p>1 &lt; 2 &amp; 3</p>\n");
}

#[test]
fn found_text_is_shown() {
    assert_eq!(content_of(&shown_page(&Some("# Hi".to_string()))), "<h1>Hi</h1>\n");
}

#[test]
fn missing_text_is_shown_as_words() {
    assert_eq!(content_of(&shown_page(&None)), "<p>Content not found</p>\n");
}

#[test]
fn not_found_page_holds_the_message() {
    assert_eq!(
        not_found_page(),
        Page {
            template: "404.html".to_string(),
            context: vec![("message".to_string(), Value::Text("Page not found".to_string()))],
        }
    );
}

#[test]
fn index_page_holds_topics_and_subtopics() {
    let groups = vec![("a".to_string(), names(&["x"])), ("b".to_string(), Vec::new())];
    assert_eq!(
        index_page(names(&["a", "b"]), groups.clone()),
        Page {
            template: "index.html".to_string(),
            context: vec![
                ("topics".to_string(), Value::Names(names(&["a", "b"]))),
                ("subtopics".to_string(), Value::Groups(groups)),
            ],
        }
    );
}

#[test]
fn topic_page_holds_topic_and_subtopics() {
    assert_eq!(
        topic_page("rust", names(&["traits", "async"])),
        Page {
            template: "topic_page.html".to_string(),
            context: vec![
                ("topic".to_string(), Value::Text("rust".to_string())),
                ("subtopics".to_string(), Value::Names(names(&["traits", "async"]))),
            ],
        }
    );
}

#[test]
fn add_form_page_holds_the_topics() {
    assert_eq!(
        add_form_page(names(&["a", "b"])),
        Page {
            template: "addrow.html".to_string(),
            context: vec![
                ("message".to_string(), Value::Text("Data added successfully!".to_string())),
                ("topics".to_string(), Value::Names(names(&["a", "b"]))),
            ],
        }
    );
}

#[test]
fn rendered_html_is_put_under_content() {
    assert_eq!(
        rendered_content_page("<h1>Hi</h1>\n".to_string()),
        Page {
            template: "content.html".to_string(),
            context: vec![("content".to_string(), Value::Text("<h1>Hi</h1>\n".to_string()))],
        }
    );
    assert_eq!(content_of(&rendered_content_page(String::new())), "");
}

#[test]
fn content_page_is_the_page_of_the_rendered_markdown() {
    assert_eq!(content_page("# Hi"), rendered_content_page("<h1>Hi</h1>\n".to_string()));
}
