use knowledge_base::listing::get_topics_and_subtopics;
use knowledge_base::listing::readable;

fn row(topic: &str, subtopic: Option<&str>) -> Option<(String, Option<String>)> {
    Some((topic.to_string(), subtopic.map(|s| s.to_string())))
}

fn names(list: &[&str]) -> Vec<String> {
    list.iter().map(|s| s.to_string()).collect()
}

#[test]
fn topics_ascend_and_subtopics_keep_row_order() {
    let rows = vec![
        row("rust", Some("traits")),
        row("go", Some("slices")),
        row("rust", Some("borrowing")),
        row("c", Some("pointers")),
        row("rust", Some("async")),
    ];
    let (topics, groups) = get_topics_and_subtopics(&rows);
    assert_eq!(topics, names(&["c", "go", "rust"]));
    assert_eq!(
        groups,
        vec![
            ("c".to_string(), names(&["pointers"])),
            ("go".to_string(), names(&["slices"])),
            ("rust".to_string(), names(&["traits", "borrowing", "async"])),
        ]
    );
}

#[test]
fn subtopics_are_not_sorted() {
    let rows = vec![row("t", Some("zeta")), row("t", Some("alpha")), row("t", Some("mid"))];
    let (topics, groups) = get_topics_and_subtopics(&rows);
    assert_eq!(topics, names(&["t"]));
    assert_eq!(groups, vec![("t".to_string(), names(&["zeta", "alpha", "mid"]))]);
}

#[test]
fn no_rows_give_an_empty_index() {
    let (topics, groups) = get_topics_and_subtopics(&Vec::new());
    assert!(topics.is_empty());
    assert!(groups.is_empty());
}

#[test]
fn topic_without_subtopic_still_appears() {
    let rows = vec![row("lonely", None), row("busy", Some("one"))];
    let (topics, groups) = get_topics_and_subtopics(&rows);
    assert_eq!(topics, names(&["busy", "lonely"]));
    assert_eq!(
        groups,
        vec![("busy".to_string(), names(&["one"])), ("lonely".to_string(), Vec::new())]
    );
}

#[test]
fn unread_rows_are_passed_over() {
    let rows = vec![None, row("a", Some("x")), None, row("a", Some("y")), None];
    let (topics, groups) = get_topics_and_subtopics(&rows);
    assert_eq!(topics, names(&["a"]));
    assert_eq!(groups, vec![("a".to_string(), names(&["x", "y"]))]);
}

#[test]
fn only_unread_rows_give_an_empty_index() {
    let rows: Vec<Option<(String, Option<String>)>> = vec![None, None];
    let (topics, groups) = get_topics_and_subtopics(&rows);
    assert!(topics.is_empty());
    assert!(groups.is_empty());
}

#[test]
fn topics_order_by_bytes() {
    let rows = vec![
        row("apple", Some("1")),
        row("Zebra", Some("2")),
        row("\u{e9}clair", Some("3")),
        row("", Some("4")),
        row("app", Some("5")),
        row("zebra", Some("6")),
    ];
    let (topics, groups) = get_topics_and_subtopics(&rows);
    assert_eq!(topics, names(&["", "Zebra", "app", "apple", "zebra", "\u{e9}clair"]));
    let mut sorted = topics.clone();
    sorted.sort();
    assert_eq!(topics, sorted);
    assert_eq!(groups[0], ("".to_string(), names(&["4"])));
    assert_eq!(groups[5], ("\u{e9}clair".to_string(), names(&["3"])));
}

#[test]
fn the_same_subtopic_may_stand_twice() {
    let rows = vec![row("t", Some("s")), row("t", Some("s"))];
    let (_, groups) = get_topics_and_subtopics(&rows);
    assert_eq!(groups, vec![("t".to_string(), names(&["s", "s"]))]);
}

#[test]
fn names_and_groups_go_together() {
    let rows = vec![
        row("m", Some("1")),
        row("a", None),
        row("z", Some("2")),
        row("m", Some("3")),
        row("b", Some("4")),
    ];
    let (topics, groups) = get_topics_and_subtopics(&rows);
    assert_eq!(topics.len(), groups.len());
    for i in 0..topics.len() {
        assert_eq!(topics[i], groups[i].0);
    }
    assert_eq!(topics, names(&["a", "b", "m", "z"]));
}

#[test]
fn readable_passes_over_unread_rows() {
    let rows = vec![Some("b".to_string()), None, Some("a".to_string())];
    assert_eq!(readable(&rows), names(&["b", "a"]));
}

#[test]
fn readable_of_nothing_is_empty() {
    assert!(readable(&Vec::new()).is_empty());
    assert!(readable(&vec![None, None]).is_empty());
}
