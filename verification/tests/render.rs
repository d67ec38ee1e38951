use pathedit::render::draw;
use pathedit::state::{Key, Session};

fn strings(items: &[&str]) -> Vec<String> {
    items.iter().map(|s| s.to_string()).collect()
}

#[test]
fn draw_while_navigating_shows_list_and_bindings_only() {
    let session = Session::new(strings(&["/usr/bin", "/bin"]));
    let layout = draw(&session);
    assert_eq!(layout.entries, strings(&["/usr/bin", "/bin"]));
    assert_eq!(layout.selected, Some(0));
    assert!(layout.input.is_none());
    assert_eq!(
        layout.bindings,
        strings(&[
            "a: Insert after",
            "b: Insert before",
            "d: Delete",
            "k/Up: Up",
            "j/Down: Down",
            "q/Esc/Ctrl-C: Quit",
        ])
    );
}

#[test]
fn draw_while_composing_shows_the_input_panel() {
    let mut session = Session::new(strings(&["/usr/bin", "/bin"]));
    session.step(Key::Char('a'), false, false);
    for c in "/new".chars() {
        session.step(Key::Char(c), false, false);
    }
    let layout = draw(&session);
    assert_eq!(layout.entries, strings(&["/usr/bin", "/bin"]));
    assert_eq!(layout.selected, Some(0));
    let panel = layout.input.expect("composing shows a panel");
    assert_eq!(panel.title, "Insert After");
    assert_eq!(panel.content, "/new");
    assert_eq!(panel.cursor, 4);
}

#[test]
fn draw_titles_the_panel_for_the_insertion_side() {
    let mut session = Session::new(strings(&["/usr/bin"]));
    session.step(Key::Char('b'), false, false);
    let layout = draw(&session);
    let panel = layout.input.expect("composing shows a panel");
    assert_eq!(panel.title, "Insert Before");
    assert_eq!(panel.content, "");
    assert_eq!(panel.cursor, 0);
}

#[test]
fn draw_of_an_empty_list_shows_no_selection() {
    let session = Session::new(Vec::new());
    let layout = draw(&session);
    assert!(layout.entries.is_empty());
    assert_eq!(layout.selected, None);
    assert!(layout.input.is_none());
}
