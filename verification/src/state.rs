//! The input-mode state machine and the event dispatch step: one session
//! holds the list model and the current mode, and every key press maps to
//! one deterministic transition.

use vstd::prelude::*;

use crate::list::{
    Direction, InsertionPoint, ListView, PathList, spec_delete_selected, spec_insert,
    spec_move_selection,
};
use crate::text::{chars_to_string, trim_spec, trimmed};

verus! {

/// One decoded key press, as far as the dispatcher distinguishes them.
#[derive(Clone, Copy, PartialEq, Eq, Structural, Debug)]
pub enum Key {
    Char(char),
    Up,
    Down,
    Enter,
    Esc,
    Backspace,
    Other,
}

/// The input mode: navigating the list, or composing the text of a new
/// entry destined for one side of the selection.
pub enum Mode {
    Navigating,
    Composing { side: InsertionPoint, buffer: Vec<char> },
}

/// Mathematical model of the input mode.
#[verifier::ext_equal]
pub enum ModeView {
    Navigating,
    Composing { side: InsertionPoint, buffer: Seq<char> },
}

impl View for Mode {
    type V = ModeView;

    open spec fn view(&self) -> ModeView {
        match self {
            Mode::Navigating => ModeView::Navigating,
            Mode::Composing { side, buffer } => ModeView::Composing {
                side: *side,
                buffer: buffer@,
            },
        }
    }
}

impl ModeView {
    /// The side being composed for; meaningful only while composing.
    pub open spec fn side(self) -> InsertionPoint {
        match self {
            ModeView::Composing { side, .. } => side,
            ModeView::Navigating => InsertionPoint::Before,
        }
    }

    /// The composing buffer; meaningful only while composing.
    pub open spec fn buffer(self) -> Seq<char> {
        match self {
            ModeView::Composing { buffer, .. } => buffer,
            ModeView::Navigating => Seq::empty(),
        }
    }
}

/// Mathematical model of a whole session.
#[verifier::ext_equal]
pub struct SessionView {
    pub list: ListView,
    pub mode: ModeView,
}

impl SessionView {
    /// Session validity: the list model keeps its selection invariant.
    pub open spec fn wf(self) -> bool {
        self.list.wf()
    }
}

/// Effect of one key press while navigating. The second component reports
/// whether the session ends.
pub open spec fn spec_navigation_step(s: SessionView, key: Key, ctrl: bool) -> (SessionView, bool) {
    if key == Key::Char('q') || key == Key::Esc || (key == Key::Char('c') && ctrl) {
        (s, true)
    } else if key == Key::Char('a') {
        (
            SessionView {
                mode: ModeView::Composing { side: InsertionPoint::After, buffer: Seq::empty() },
                ..s
            },
            false,
        )
    } else if key == Key::Char('b') {
        (
            SessionView {
                mode: ModeView::Composing { side: InsertionPoint::Before, buffer: Seq::empty() },
                ..s
            },
            false,
        )
    } else if key == Key::Char('d') {
        (SessionView { list: spec_delete_selected(s.list), ..s }, false)
    } else if key == Key::Up || key == Key::Char('k') {
        (SessionView { list: spec_move_selection(s.list, Direction::Up), ..s }, false)
    } else if key == Key::Down || key == Key::Char('j') {
        (SessionView { list: spec_move_selection(s.list, Direction::Down), ..s }, false)
    } else {
        (s, false)
    }
}

/// Effect of one key press while composing an insertion. `path_exists`
/// tells whether the trimmed buffer names an existing filesystem entry; a
/// commit inserts only then, and silently discards the text otherwise.
pub open spec fn spec_compose_step(
    list: ListView,
    side: InsertionPoint,
    buffer: Seq<char>,
    key: Key,
    path_exists: bool,
) -> SessionView {
    match key {
        Key::Enter => SessionView {
            list: if path_exists {
                spec_insert(list, trim_spec(buffer), side)
            } else {
                list
            },
            mode: ModeView::Navigating,
        },
        Key::Esc => SessionView { list, mode: ModeView::Navigating },
        Key::Char(c) => SessionView {
            list,
            mode: ModeView::Composing { side, buffer: buffer.push(c) },
        },
        Key::Backspace => SessionView {
            list,
            mode: ModeView::Composing {
                side,
                buffer: if buffer.len() > 0 {
                    buffer.drop_last()
                } else {
                    buffer
                },
            },
        },
        _ => SessionView { list, mode: ModeView::Composing { side, buffer } },
    }
}

/// Effect of one key press on a session, whatever its mode.
pub open spec fn spec_step(s: SessionView, key: Key, ctrl: bool, path_exists: bool) -> (
    SessionView,
    bool,
) {
    match s.mode {
        ModeView::Navigating => spec_navigation_step(s, key, ctrl),
        ModeView::Composing { side, buffer } => (
            spec_compose_step(s.list, side, buffer, key, path_exists),
            false,
        ),
    }
}

/// The aggregate the dispatcher drives: list model plus input mode.
pub struct Session {
    list: PathList,
    mode: Mode,
}

impl View for Session {
    type V = SessionView;

    closed spec fn view(&self) -> SessionView {
        SessionView { list: self.list@, mode: self.mode@ }
    }
}

impl Session {
    /// A fresh session over the given entries, navigating, with the first
    /// entry selected when there is one.
    pub fn new(entries: Vec<String>) -> (r: Session)
        ensures
            r@.list.entries == entries.deep_view(),
            r@.list.selection == (if entries.len() == 0 {
                None::<int>
            } else {
                Some(0int)
            }),
            r@.mode is Navigating,
            r@.wf(),
    {
        Session { list: PathList::new(entries), mode: Mode::Navigating }
    }

    /// The list model, for rendering and for the final command generation.
    pub fn list(&self) -> (r: &PathList)
        ensures
            r@ == self@.list,
    {
        &self.list
    }

    /// The current input mode, for rendering.
    pub fn mode(&self) -> (r: &Mode)
        ensures
            r@ == self@.mode,
    {
        &self.mode
    }

    /// Whether the session is in the navigating mode.
    pub fn is_navigating(&self) -> (r: bool)
        ensures
            r == (self@.mode is Navigating),
    {
        match &self.mode {
            Mode::Navigating => true,
            Mode::Composing { .. } => false,
        }
    }

    /// The text a commit would insert right now: the composing buffer with
    /// leading and trailing whitespace removed, or nothing while navigating.
    pub fn commit_candidate(&self) -> (r: Option<String>)
        ensures
            match self@.mode {
                ModeView::Navigating => r is None,
                ModeView::Composing { side, buffer } => r matches Some(t) && t@ == trim_spec(
                    buffer,
                ),
            },
    {
        match &self.mode {
            Mode::Navigating => None,
            Mode::Composing { buffer, .. } => {
                let t = trimmed(buffer);
                Some(chars_to_string(&t))
            },
        }
    }

    /// Apply one key press while composing an insertion: printable
    /// characters grow the buffer, backspace shrinks it, escape discards
    /// it, and the commit key trims it and inserts the text when
    /// `path_exists` reports that it names an existing filesystem entry.
    pub fn handle_input_mode(&mut self, key: Key, path_exists: bool)
        requires
            old(self)@.wf(),
            old(self)@.mode is Composing,
        ensures
            final(self)@ == spec_compose_step(
                old(self)@.list,
                old(self)@.mode.side(),
                old(self)@.mode.buffer(),
                key,
                path_exists,
            ),
            final(self)@.wf(),
    {
        let mut mode = Mode::Navigating;
        core::mem::swap(&mut mode, &mut self.mode);
        match mode {
            Mode::Navigating => {},
            Mode::Composing { side, mut buffer } => {
                match key {
                    Key::Enter => {
                        if path_exists {
                            let t = trimmed(&buffer);
                            let text = chars_to_string(&t);
                            self.list.insert_path_at_selection(text, side);
                        }
                        // the mode already reads Navigating
                    },
                    Key::Esc => {
                        // discard the buffer; the mode already reads Navigating
                    },
                    Key::Char(c) => {
                        buffer.push(c);
                        self.mode = Mode::Composing { side, buffer };
                    },
                    Key::Backspace => {
                        let _ = buffer.pop();
                        self.mode = Mode::Composing { side, buffer };
                    },
                    _ => {
                        self.mode = Mode::Composing { side, buffer };
                    },
                }
            },
        }
    }

    /// Apply one key press to the whole session; the result reports whether
    /// the operator asked to quit, which is possible only while navigating.
    pub fn step(&mut self, key: Key, ctrl: bool, path_exists: bool) -> (quit: bool)
        requires
            old(self)@.wf(),
        ensures
            final(self)@ == spec_step(old(self)@, key, ctrl, path_exists).0,
            quit == spec_step(old(self)@, key, ctrl, path_exists).1,
            final(self)@.wf(),
    {
        let navigating = self.is_navigating();
        if navigating {
            if key == Key::Char('q') || key == Key::Esc || (key == Key::Char('c') && ctrl) {
                return true;
            }
            match key {
                Key::Char(c) => {
                    if c == 'a' {
                        self.mode = Mode::Composing {
                            side: InsertionPoint::After,
                            buffer: Vec::new(),
                        };
                    } else if c == 'b' {
                        self.mode = Mode::Composing {
                            side: InsertionPoint::Before,
                            buffer: Vec::new(),
                        };
                    } else if c == 'd' {
                        self.list.delete_selected();
                    } else if c == 'k' {
                        self.list.move_selection(Direction::Up);
                    } else if c == 'j' {
                        self.list.move_selection(Direction::Down);
                    }
                },
                Key::Up => {
                    self.list.move_selection(Direction::Up);
                },
                Key::Down => {
                    self.list.move_selection(Direction::Down);
                },
                _ => {},
            }
            false
        } else {
            self.handle_input_mode(key, path_exists);
            false
        }
    }
}

/// One key press together with its modifier and the probe verdict the
/// dispatcher would supply with it.
pub struct KeyPress {
    pub key: Key,
    pub ctrl: bool,
    pub path_exists: bool,
}

/// The session after a whole sequence of key presses, ignoring quits.
pub open spec fn spec_run_keys(s: SessionView, keys: Seq<KeyPress>) -> SessionView
    decreases keys.len(),
{
    if keys.len() == 0 {
        s
    } else {
        spec_run_keys(
            spec_step(s, keys[0].key, keys[0].ctrl, keys[0].path_exists).0,
            keys.drop_first(),
        )
    }
}

/// The key press that types one character, with no modifier and no probe.
pub open spec fn typed_key(c: char) -> KeyPress {
    KeyPress { key: Key::Char(c), ctrl: false, path_exists: false }
}

proof fn lemma_typing_keeps_list(
    s: SessionView,
    side: InsertionPoint,
    buffer: Seq<char>,
    cs: Seq<char>,
)
    requires
        s.mode == (ModeView::Composing { side, buffer }),
    ensures
        ({
            let t = spec_run_keys(s, cs.map_values(|c: char| typed_key(c)));
            t.list == s.list && t.mode == (ModeView::Composing { side, buffer: buffer + cs })
        }),
    decreases cs.len(),
{
    let keys = cs.map_values(|c: char| typed_key(c));
    if cs.len() == 0 {
        assert(buffer + cs =~= buffer);
    } else {
        assert(keys[0] == typed_key(cs[0]));
        let s1 = spec_step(s, keys[0].key, keys[0].ctrl, keys[0].path_exists).0;
        assert(s1.mode == (ModeView::Composing { side, buffer: buffer.push(cs[0]) }));
        assert(cs.drop_first().map_values(|c: char| typed_key(c)) =~= keys.drop_first());
        lemma_typing_keeps_list(s1, side, buffer.push(cs[0]), cs.drop_first());
        assert(spec_run_keys(s, keys) == spec_run_keys(s1, keys.drop_first()));
        assert(buffer.push(cs[0]) + cs.drop_first() =~= buffer + cs);
    }
}

proof fn lemma_run_keys_split(s: SessionView, a: Seq<KeyPress>, b: Seq<KeyPress>)
    ensures
        spec_run_keys(s, a + b) == spec_run_keys(spec_run_keys(s, a), b),
    decreases a.len(),
{
    if a.len() == 0 {
        assert(a + b =~= b);
    } else {
        let s1 = spec_step(s, a[0].key, a[0].ctrl, a[0].path_exists).0;
        assert((a + b)[0] == a[0]);
        assert((a + b).drop_first() =~= a.drop_first() + b);
        lemma_run_keys_split(s1, a.drop_first(), b);
    }
}

/// Law: starting an insertion, typing any characters, and pressing the
/// cancel key leaves the list and its selection unchanged and returns the
/// mode to navigating.
pub proof fn lemma_escape_discards_composition(s: SessionView, begin: Key, cs: Seq<char>)
    requires
        s.mode is Navigating,
        begin == Key::Char('a') || begin == Key::Char('b'),
    ensures
        ({
            let keys = seq![KeyPress { key: begin, ctrl: false, path_exists: false }]
                + cs.map_values(|c: char| typed_key(c)) + seq![
                KeyPress { key: Key::Esc, ctrl: false, path_exists: false },
            ];
            let t = spec_run_keys(s, keys);
            t.list == s.list && t.mode is Navigating
        }),
{
    let typing = cs.map_values(|c: char| typed_key(c));
    let begin_press = KeyPress { key: begin, ctrl: false, path_exists: false };
    let esc_press = KeyPress { key: Key::Esc, ctrl: false, path_exists: false };
    let keys = seq![begin_press] + typing + seq![esc_press];
    let side = if begin == Key::Char('a') {
        InsertionPoint::After
    } else {
        InsertionPoint::Before
    };
    let s1 = spec_step(s, begin, false, false).0;
    assert(s1.list == s.list && s1.mode == (ModeView::Composing {
        side,
        buffer: Seq::<char>::empty(),
    }));
    assert(keys[0] == begin_press);
    assert(keys.drop_first() =~= typing + seq![esc_press]);
    assert(spec_run_keys(s, keys) == spec_run_keys(s1, typing + seq![esc_press]));
    lemma_run_keys_split(s1, typing, seq![esc_press]);
    lemma_typing_keeps_list(s1, side, Seq::empty(), cs);
    let s2 = spec_run_keys(s1, typing);
    assert(s2.list == s.list);
    let single = seq![esc_press];
    assert(single[0] == esc_press);
    let s3 = spec_step(s2, Key::Esc, false, false).0;
    assert(spec_run_keys(s2, single) == spec_run_keys(s3, single.drop_first()));
    assert(single.drop_first() =~= Seq::<KeyPress>::empty());
    assert(spec_run_keys(s3, single.drop_first()) == s3);
    assert(s3.list == s.list && s3.mode is Navigating);
}

/// Law: one dispatch step never breaks the selection invariant, whatever
/// the key, the modifier, or the probe's verdict.
pub proof fn lemma_step_preserves_wf(s: SessionView, key: Key, ctrl: bool, path_exists: bool)
    requires
        s.wf(),
    ensures
        spec_step(s, key, ctrl, path_exists).0.wf(),
{
}

} // verus!
