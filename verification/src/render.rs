//! The renderer: a pure projection from the session to a layout
//! description. It never mutates the session; the terminal side only has
//! to paint what it is handed.

use vstd::prelude::*;
use vstd::string::StringExecFns;

use crate::list::InsertionPoint;
use crate::state::{Mode, ModeView, Session};
use crate::text::chars_to_string;

verus! {

/// The text-entry panel shown while composing an insertion: its title, the
/// live buffer content, and the cursor column at the content's end.
pub struct InputPanel {
    pub title: String,
    pub content: String,
    pub cursor: usize,
}

/// A full description of one frame: the entries with the selected index,
/// the text-entry panel while composing, and the key-binding lines.
pub struct Layout {
    pub entries: Vec<String>,
    pub selected: Option<usize>,
    pub input: Option<InputPanel>,
    pub bindings: Vec<String>,
}

/// The lines of the always-present key-binding footer.
pub open spec fn key_binding_lines() -> Seq<Seq<char>> {
    seq![
        "a: Insert after"@,
        "b: Insert before"@,
        "d: Delete"@,
        "k/Up: Up"@,
        "j/Down: Down"@,
        "q/Esc/Ctrl-C: Quit"@,
    ]
}

/// Project the session onto a layout: the entries in order with the
/// selection, the composing panel exactly while composing (titled for its
/// side, showing the buffer with the cursor at its end), and the bindings.
pub fn draw(session: &Session) -> (r: Layout)
    ensures
        r.entries.deep_view() == session@.list.entries,
        session@.list.selection == (match r.selected {
            Some(i) => Some(i as int),
            None => None::<int>,
        }),
        match session@.mode {
            ModeView::Navigating => r.input is None,
            ModeView::Composing { side, buffer } => r.input matches Some(p) && p.title@ == (
            match side {
                InsertionPoint::After => "Insert After"@,
                InsertionPoint::Before => "Insert Before"@,
            }) && p.content@ == buffer && p.cursor == buffer.len(),
        },
        r.bindings.deep_view() == key_binding_lines(),
{
    let src = session.list().entries();
    let n = src.len();
    let mut entries: Vec<String> = Vec::new();
    let mut i: usize = 0;
    while i < n
        invariant
            i <= n,
            n == src@.len(),
            entries@.len() == i,
            forall|j: int| 0 <= j < i ==> entries@[j] == src@[j],
        decreases n - i,
    {
        entries.push(src[i].clone());
        i += 1;
    }
    proof {
        assert(entries.deep_view() =~= src.deep_view());
    }
    let selected = session.list().selected();
    let input = match session.mode() {
        Mode::Navigating => None,
        Mode::Composing { side, buffer } => {
            let title = match side {
                InsertionPoint::After => "Insert After",
                InsertionPoint::Before => "Insert Before",
            };
            let cursor = buffer.len();
            Some(InputPanel { title: title.to_owned(), content: chars_to_string(buffer), cursor })
        },
    };
    let mut bindings: Vec<String> = Vec::new();
    bindings.push("a: Insert after".to_owned());
    bindings.push("b: Insert before".to_owned());
    bindings.push("d: Delete".to_owned());
    bindings.push("k/Up: Up".to_owned());
    bindings.push("j/Down: Down".to_owned());
    bindings.push("q/Esc/Ctrl-C: Quit".to_owned());
    proof {
        assert(bindings.deep_view() =~= key_binding_lines());
    }
    Layout { entries, selected, input, bindings }
}

} // verus!
