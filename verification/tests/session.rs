use pathedit::state::{Key, Session};

fn strings(items: &[&str]) -> Vec<String> {
    items.iter().map(|s| s.to_string()).collect()
}

fn type_text(session: &mut Session, text: &str) {
    for c in text.chars() {
        let quit = session.step(Key::Char(c), false, false);
        assert!(!quit);
    }
}

#[test]
fn quit_keys_end_the_session_while_navigating() {
    let mut session = Session::new(strings(&["/a"]));
    assert!(session.step(Key::Char('q'), false, false));

    let mut session = Session::new(strings(&["/a"]));
    assert!(session.step(Key::Esc, false, false));

    let mut session = Session::new(strings(&["/a"]));
    assert!(session.step(Key::Char('c'), true, false));

    let mut session = Session::new(strings(&["/a"]));
    assert!(!session.step(Key::Char('c'), false, false));
}

#[test]
fn navigation_keys_drive_the_list() {
    let mut session = Session::new(strings(&["/a", "/b", "/c"]));
    assert!(!session.step(Key::Char('j'), false, false));
    assert_eq!(session.list().selected(), Some(1));
    assert!(!session.step(Key::Down, false, false));
    assert_eq!(session.list().selected(), Some(2));
    assert!(!session.step(Key::Char('k'), false, false));
    assert_eq!(session.list().selected(), Some(1));
    assert!(!session.step(Key::Up, false, false));
    assert_eq!(session.list().selected(), Some(0));
    assert!(!session.step(Key::Char('d'), false, false));
    assert_eq!(*session.list().entries(), strings(&["/b", "/c"]));
    assert_eq!(session.list().selected(), Some(0));
}

#[test]
fn unknown_keys_are_ignored_while_navigating() {
    let mut session = Session::new(strings(&["/a", "/b"]));
    assert!(!session.step(Key::Char('x'), false, false));
    assert!(!session.step(Key::Other, false, false));
    assert!(!session.step(Key::Enter, false, false));
    assert_eq!(*session.list().entries(), strings(&["/a", "/b"]));
    assert_eq!(session.list().selected(), Some(0));
    assert!(session.is_navigating());
}

#[test]
fn escape_discards_a_composed_insertion() {
    let mut session = Session::new(strings(&["/a", "/b"]));
    session.step(Key::Char('j'), false, false);
    assert!(!session.step(Key::Char('a'), false, false));
    assert!(!session.is_navigating());
    type_text(&mut session, "/somewhere/else");
    assert!(!session.step(Key::Esc, false, false));
    assert!(session.is_navigating());
    assert_eq!(*session.list().entries(), strings(&["/a", "/b"]));
    assert_eq!(session.list().selected(), Some(1));
}

#[test]
fn commit_inserts_after_when_the_path_exists() {
    let mut session = Session::new(strings(&["/a", "/b"]));
    session.step(Key::Char('a'), false, false);
    type_text(&mut session, "/new");
    assert!(!session.step(Key::Enter, false, true));
    assert!(session.is_navigating());
    assert_eq!(*session.list().entries(), strings(&["/a", "/new", "/b"]));
    assert_eq!(session.list().selected(), Some(1));
}

#[test]
fn commit_inserts_before_when_the_path_exists() {
    let mut session = Session::new(strings(&["/a", "/b"]));
    session.step(Key::Char('j'), false, false);
    session.step(Key::Char('b'), false, false);
    type_text(&mut session, "/new");
    assert!(!session.step(Key::Enter, false, true));
    assert_eq!(*session.list().entries(), strings(&["/a", "/new", "/b"]));
    assert_eq!(session.list().selected(), Some(1));
}

#[test]
fn commit_discards_silently_when_the_path_does_not_exist() {
    let mut session = Session::new(strings(&["/a", "/b"]));
    session.step(Key::Char('a'), false, false);
    type_text(&mut session, "/no/such/place");
    assert!(!session.step(Key::Enter, false, false));
    assert!(session.is_navigating());
    assert_eq!(*session.list().entries(), strings(&["/a", "/b"]));
    assert_eq!(session.list().selected(), Some(0));
}

#[test]
fn commit_candidate_trims_surrounding_whitespace() {
    let mut session = Session::new(strings(&["/a"]));
    session.step(Key::Char('a'), false, false);
    type_text(&mut session, "  /custom/bin \t ");
    assert_eq!(session.commit_candidate(), Some("/custom/bin".to_string()));
    assert!(!session.step(Key::Enter, false, true));
    assert_eq!(*session.list().entries(), strings(&["/a", "/custom/bin"]));
}

#[test]
fn commit_candidate_is_empty_while_navigating() {
    let session = Session::new(strings(&["/a"]));
    assert_eq!(session.commit_candidate(), None);
}

#[test]
fn backspace_removes_the_last_typed_character() {
    let mut session = Session::new(strings(&["/a"]));
    session.step(Key::Char('b'), false, false);
    type_text(&mut session, "/xy");
    assert!(!session.step(Key::Backspace, false, false));
    assert_eq!(session.commit_candidate(), Some("/x".to_string()));
}

#[test]
fn backspace_on_an_empty_buffer_is_a_noop() {
    let mut session = Session::new(strings(&["/a"]));
    session.step(Key::Char('b'), false, false);
    assert!(!session.step(Key::Backspace, false, false));
    assert!(!session.is_navigating());
    assert_eq!(session.commit_candidate(), Some(String::new()));
}

#[test]
fn quit_keys_do_not_quit_while_composing() {
    let mut session = Session::new(strings(&["/a"]));
    session.step(Key::Char('a'), false, false);
    assert!(!session.step(Key::Char('q'), false, false));
    assert_eq!(session.commit_candidate(), Some("q".to_string()));
    assert!(!session.step(Key::Char('c'), true, false));
    assert_eq!(session.commit_candidate(), Some("qc".to_string()));
}

#[test]
fn composing_on_an_empty_list_inserts_the_first_entry() {
    let mut session = Session::new(Vec::new());
    session.step(Key::Char('a'), false, false);
    type_text(&mut session, "/first");
    assert!(!session.step(Key::Enter, false, true));
    assert_eq!(*session.list().entries(), strings(&["/first"]));
    assert_eq!(session.list().selected(), Some(0));
}
