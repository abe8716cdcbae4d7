use term_picker::selection::SelectionList;

fn list_of(labels: &[&str]) -> SelectionList {
    SelectionList::with_items(labels.iter().map(|label| label.to_string()).collect())
}

#[test]
fn with_items_keeps_labels_and_highlights_nothing() {
    let list = list_of(&["arm64", "x86_64"]);
    assert_eq!(list.items(), &vec!["arm64".to_string(), "x86_64".to_string()]);
    assert_eq!(list.len(), 2);
    assert_eq!(list.selected(), None);
    assert_eq!(list.selected_item(), None);
}

#[test]
fn first_next_highlights_first_label() {
    let mut list = list_of(&["a", "b", "c"]);
    list.next();
    assert_eq!(list.selected(), Some(0));
    assert_eq!(list.selected_item(), Some(&"a".to_string()));
}

#[test]
fn first_previous_highlights_first_label() {
    let mut list = list_of(&["a", "b", "c"]);
    list.previous();
    assert_eq!(list.selected(), Some(0));
    assert_eq!(list.selected_item(), Some(&"a".to_string()));
}

#[test]
fn next_moves_to_following_label() {
    let mut list = list_of(&["a", "b", "c"]);
    list.next();
    list.next();
    assert_eq!(list.selected(), Some(1));
    list.next();
    assert_eq!(list.selected(), Some(2));
    assert_eq!(list.selected_item(), Some(&"c".to_string()));
}

#[test]
fn next_wraps_from_last_to_first() {
    let mut list = list_of(&["a", "b", "c"]);
    for _ in 0..3 {
        list.next();
    }
    assert_eq!(list.selected(), Some(2));
    list.next();
    assert_eq!(list.selected(), Some(0));
}

#[test]
fn previous_moves_to_preceding_label() {
    let mut list = list_of(&["a", "b", "c"]);
    for _ in 0..3 {
        list.next();
    }
    list.previous();
    assert_eq!(list.selected(), Some(1));
    list.previous();
    assert_eq!(list.selected(), Some(0));
}

#[test]
fn previous_wraps_from_first_to_last() {
    let mut list = list_of(&["a", "b", "c"]);
    list.previous();
    assert_eq!(list.selected(), Some(0));
    list.previous();
    assert_eq!(list.selected(), Some(2));
    assert_eq!(list.selected_item(), Some(&"c".to_string()));
}

#[test]
fn next_follows_successor_modulo_length_from_every_position() {
    for n in 1..=6usize {
        let labels: Vec<String> = (0..n).map(|k| format!("item{k}")).collect();
        for start in 0..n {
            let mut list = SelectionList::with_items(labels.clone());
            for _ in 0..=start {
                list.next();
            }
            assert_eq!(list.selected(), Some(start));
            list.next();
            assert_eq!(list.selected(), Some((start + 1) % n));
        }
    }
}

#[test]
fn previous_follows_predecessor_modulo_length_from_every_position() {
    for n in 1..=6usize {
        let labels: Vec<String> = (0..n).map(|k| format!("item{k}")).collect();
        for start in 0..n {
            let mut list = SelectionList::with_items(labels.clone());
            for _ in 0..=start {
                list.next();
            }
            list.previous();
            assert_eq!(list.selected(), Some((start + n - 1) % n));
        }
    }
}

#[test]
fn as_many_nexts_as_labels_return_to_the_start() {
    for n in 1..=6usize {
        let labels: Vec<String> = (0..n).map(|k| format!("item{k}")).collect();
        for start in 0..n {
            let mut list = SelectionList::with_items(labels.clone());
            for _ in 0..=start {
                list.next();
            }
            for _ in 0..n {
                list.next();
            }
            assert_eq!(list.selected(), Some(start));
        }
    }
}

#[test]
fn as_many_previouses_as_labels_return_to_the_start() {
    for n in 1..=6usize {
        let labels: Vec<String> = (0..n).map(|k| format!("item{k}")).collect();
        for start in 0..n {
            let mut list = SelectionList::with_items(labels.clone());
            for _ in 0..=start {
                list.next();
            }
            for _ in 0..n {
                list.previous();
            }
            assert_eq!(list.selected(), Some(start));
        }
    }
}

#[test]
fn single_label_stays_highlighted() {
    let mut list = list_of(&["Python"]);
    list.next();
    assert_eq!(list.selected(), Some(0));
    list.next();
    assert_eq!(list.selected(), Some(0));
    list.previous();
    assert_eq!(list.selected(), Some(0));
}

#[test]
fn empty_list_ignores_navigation() {
    let mut list = SelectionList::with_items(Vec::new());
    list.next();
    assert_eq!(list.selected(), None);
    list.previous();
    assert_eq!(list.selected(), None);
    assert_eq!(list.selected_item(), None);
    assert_eq!(list.len(), 0);
}

#[test]
fn navigation_leaves_labels_alone() {
    let mut list = list_of(&["arm64", "x86_64"]);
    list.next();
    list.previous();
    list.previous();
    assert_eq!(list.items(), &vec!["arm64".to_string(), "x86_64".to_string()]);
}

#[test]
fn architecture_list_down_three_times() {
    let mut list = list_of(&["arm64", "x86_64"]);
    assert_eq!(list.selected(), None);
    list.next();
    assert_eq!(list.selected(), Some(0));
    assert_eq!(list.selected_item().map(|s| s.as_str()), Some("arm64"));
    list.next();
    assert_eq!(list.selected(), Some(1));
    assert_eq!(list.selected_item().map(|s| s.as_str()), Some("x86_64"));
    list.next();
    assert_eq!(list.selected(), Some(0));
}
