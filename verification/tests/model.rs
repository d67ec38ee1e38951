use pathedit::list::{Direction, InsertionPoint, PathList};

fn strings(items: &[&str]) -> Vec<String> {
    items.iter().map(|s| s.to_string()).collect()
}

#[test]
fn test_insert_path_at_selection() {
    let mut paths = PathList::new(strings(&["/usr/bin", "/bin", "/usr/local/bin"]));
    paths.select(1);

    paths.insert_path_at_selection("/custom/bin".to_string(), InsertionPoint::Before);
    let expected = strings(&["/usr/bin", "/custom/bin", "/bin", "/usr/local/bin"]);
    assert_eq!(*paths.entries(), expected);
    assert_eq!(paths.selected(), Some(1));

    paths.insert_path_at_selection("/another/bin".to_string(), InsertionPoint::After);
    let expected_after = strings(&[
        "/usr/bin",
        "/custom/bin",
        "/another/bin",
        "/bin",
        "/usr/local/bin",
    ]);
    assert_eq!(*paths.entries(), expected_after);
    assert_eq!(paths.selected(), Some(2));
}

#[test]
fn new_list_selects_first_entry() {
    let paths = PathList::new(strings(&["/usr/bin", "/bin"]));
    assert_eq!(paths.selected(), Some(0));
    assert_eq!(paths.len(), 2);
}

#[test]
fn new_empty_list_selects_nothing() {
    let paths = PathList::new(Vec::new());
    assert_eq!(paths.selected(), None);
    assert_eq!(paths.len(), 0);
}

#[test]
fn move_up_at_first_index_is_a_noop() {
    let mut paths = PathList::new(strings(&["/a", "/b", "/c"]));
    paths.move_selection(Direction::Up);
    assert_eq!(paths.selected(), Some(0));
    assert_eq!(*paths.entries(), strings(&["/a", "/b", "/c"]));
}

#[test]
fn move_down_at_last_index_is_a_noop() {
    let mut paths = PathList::new(strings(&["/a", "/b", "/c"]));
    paths.select(2);
    paths.move_selection(Direction::Down);
    assert_eq!(paths.selected(), Some(2));
    assert_eq!(*paths.entries(), strings(&["/a", "/b", "/c"]));
}

#[test]
fn move_steps_one_index_between_boundaries() {
    let mut paths = PathList::new(strings(&["/a", "/b", "/c"]));
    paths.move_selection(Direction::Down);
    assert_eq!(paths.selected(), Some(1));
    paths.move_selection(Direction::Down);
    assert_eq!(paths.selected(), Some(2));
    paths.move_selection(Direction::Up);
    assert_eq!(paths.selected(), Some(1));
}

#[test]
fn move_on_empty_list_is_a_noop() {
    let mut paths = PathList::new(Vec::new());
    paths.move_selection(Direction::Down);
    assert_eq!(paths.selected(), None);
    paths.move_selection(Direction::Up);
    assert_eq!(paths.selected(), None);
}

#[test]
fn delete_keeps_index_when_still_valid() {
    let mut paths = PathList::new(strings(&["/a", "/b", "/c"]));
    paths.select(1);
    paths.delete_selected();
    assert_eq!(*paths.entries(), strings(&["/a", "/c"]));
    assert_eq!(paths.selected(), Some(1));
}

#[test]
fn delete_at_last_index_moves_selection_back() {
    let mut paths = PathList::new(strings(&["/a", "/b", "/c"]));
    paths.select(2);
    paths.delete_selected();
    assert_eq!(*paths.entries(), strings(&["/a", "/b"]));
    assert_eq!(paths.selected(), Some(1));
}

#[test]
fn delete_last_remaining_entry_clears_selection() {
    let mut paths = PathList::new(strings(&["/only"]));
    paths.delete_selected();
    assert_eq!(paths.len(), 0);
    assert_eq!(paths.selected(), None);
    assert!(paths.entries().is_empty());
}

#[test]
fn delete_on_empty_list_is_a_noop() {
    let mut paths = PathList::new(Vec::new());
    paths.delete_selected();
    assert_eq!(paths.selected(), None);
    assert_eq!(paths.len(), 0);
}

#[test]
fn insert_into_empty_list_goes_to_front() {
    let mut before = PathList::new(Vec::new());
    before.insert_path_at_selection("/a".to_string(), InsertionPoint::Before);
    assert_eq!(*before.entries(), strings(&["/a"]));
    assert_eq!(before.selected(), Some(0));

    let mut after = PathList::new(Vec::new());
    after.insert_path_at_selection("/a".to_string(), InsertionPoint::After);
    assert_eq!(*after.entries(), strings(&["/a"]));
    assert_eq!(after.selected(), Some(0));
}

#[test]
fn insert_then_delete_restores_the_list() {
    let original = strings(&["/usr/bin", "/bin", "/usr/local/bin"]);

    let mut paths = PathList::new(original.clone());
    paths.select(1);
    paths.insert_path_at_selection("/tmp".to_string(), InsertionPoint::After);
    paths.delete_selected();
    assert_eq!(*paths.entries(), original);

    let mut paths = PathList::new(original.clone());
    paths.select(2);
    paths.insert_path_at_selection("/tmp".to_string(), InsertionPoint::Before);
    paths.delete_selected();
    assert_eq!(*paths.entries(), original);
}

#[test]
fn selection_stays_valid_after_every_operation() {
    let mut paths = PathList::new(strings(&["/a", "/b"]));
    let check = |p: &PathList| match p.selected() {
        Some(i) => assert!(i < p.len()),
        None => assert_eq!(p.len(), 0),
    };
    check(&paths);
    paths.move_selection(Direction::Down);
    check(&paths);
    paths.insert_path_at_selection("/c".to_string(), InsertionPoint::After);
    check(&paths);
    paths.delete_selected();
    check(&paths);
    paths.delete_selected();
    check(&paths);
    paths.delete_selected();
    check(&paths);
    assert_eq!(paths.selected(), None);
}
