use knowledge_base::order::comes_before;

#[test]
fn shorter_prefix_comes_first() {
    assert!(comes_before("app", "apple"));
    assert!(!comes_before("apple", "app"));
}

#[test]
fn nothing_comes_before_itself() {
    assert!(!comes_before("", ""));
    assert!(!comes_before("same", "same"));
}

#[test]
fn empty_name_comes_first() {
    assert!(comes_before("", "a"));
    assert!(!comes_before("a", ""));
}

#[test]
fn first_difference_decides() {
    assert!(comes_before("abc", "abd"));
    assert!(!comes_before("abd", "abc"));
    assert!(comes_before("abz", "ac"));
}

#[test]
fn capitals_come_before_small_letters() {
    assert!(comes_before("Zebra", "apple"));
    assert!(!comes_before("apple", "Zebra"));
}

#[test]
fn order_is_that_of_str() {
    let names = ["", "a", "A", "ab", "b", "\u{e9}", "\u{4e2d}", "z", "\u{1f600}", "~"];
    for a in names.iter() {
        for b in names.iter() {
            assert_eq!(comes_before(a, b), a < b);
        }
    }
}

#[test]
fn of_two_different_names_one_comes_first() {
    let names = ["x", "xy", "y", "", "X"];
    for a in names.iter() {
        for b in names.iter() {
            if a != b {
                assert!(comes_before(a, b) != comes_before(b, a));
            }
        }
    }
}
