//! The list model: an ordered sequence of path entries plus a selection
//! cursor, mutated only through invariant-preserving operations.

use vstd::prelude::*;

verus! {

/// Direction of a selection move.
#[derive(Clone, Copy, PartialEq, Eq, Structural, Debug)]
pub enum Direction {
    Up,
    Down,
}

/// Which side of the current selection a new entry is inserted on.
#[derive(Clone, Copy, PartialEq, Eq, Structural, Debug)]
pub enum InsertionPoint {
    Before,
    After,
}

/// Mathematical model of the list: each entry as a sequence of characters,
/// and the selection as an optional index.
#[verifier::ext_equal]
pub struct ListView {
    pub entries: Seq<Seq<char>>,
    pub selection: Option<int>,
}

impl ListView {
    /// The selection invariant: a non-empty list always selects a valid
    /// index, an empty list selects nothing.
    pub open spec fn wf(self) -> bool {
        if self.entries.len() == 0 {
            self.selection is None
        } else {
            self.selection matches Some(i) && 0 <= i < self.entries.len()
        }
    }
}

/// Where the selection lands after a move: clamped at both boundaries,
/// never wrapping around.
pub open spec fn moved_index(i: int, len: int, dir: Direction) -> int {
    match dir {
        Direction::Up => if i > 0 { i - 1 } else { 0 },
        Direction::Down => if i + 1 < len { i + 1 } else { len - 1 },
    }
}

/// Effect of `move_selection` on the model: a no-op without a selection
/// (i.e. on an empty list), otherwise a clamped step of the index.
pub open spec fn spec_move_selection(l: ListView, dir: Direction) -> ListView {
    match l.selection {
        None => l,
        Some(i) => ListView { selection: Some(moved_index(i, l.entries.len() as int, dir)), ..l },
    }
}

/// The selection after deleting index `i` from a list that now has
/// `new_len` entries: the same index while it is still valid, else the
/// new last index, else nothing.
pub open spec fn delete_new_selection(i: int, new_len: int) -> Option<int> {
    if new_len == 0 {
        None
    } else if i >= new_len {
        Some(new_len - 1)
    } else {
        Some(i)
    }
}

/// Effect of `delete_selected` on the model.
pub open spec fn spec_delete_selected(l: ListView) -> ListView {
    match l.selection {
        None => l,
        Some(i) => ListView {
            entries: l.entries.remove(i),
            selection: delete_new_selection(i, l.entries.len() - 1),
        },
    }
}

/// The index a new entry goes to: at the selection (`Before`) or right
/// after it (`After`), defaulting to the front when nothing is selected,
/// clamped to the valid insertion range.
pub open spec fn insert_index(sel: Option<int>, len: int, side: InsertionPoint) -> int {
    let base = match sel {
        Some(i) => i,
        None => 0,
    };
    let raw = match side {
        InsertionPoint::Before => base,
        InsertionPoint::After => base + 1,
    };
    if raw > len {
        len
    } else {
        raw
    }
}

/// Effect of `insert_path_at_selection` on the model: the entry appears at
/// the computed index and becomes the selection.
pub open spec fn spec_insert(l: ListView, path: Seq<char>, side: InsertionPoint) -> ListView {
    let idx = insert_index(l.selection, l.entries.len() as int, side);
    ListView { entries: l.entries.insert(idx, path), selection: Some(idx) }
}

/// The ordered list of path entries together with the selection cursor.
pub struct PathList {
    entries: Vec<String>,
    selection: Option<usize>,
}

impl View for PathList {
    type V = ListView;

    closed spec fn view(&self) -> ListView {
        ListView {
            entries: self.entries.deep_view(),
            selection: match self.selection {
                Some(i) => Some(i as int),
                None => None,
            },
        }
    }
}

impl PathList {
    /// A fresh list: the first entry is selected when there is one.
    pub fn new(entries: Vec<String>) -> (r: PathList)
        ensures
            r@.entries == entries.deep_view(),
            r@.selection == (if entries.len() == 0 { None::<int> } else { Some(0int) }),
            r@.wf(),
    {
        let selection: Option<usize> = if entries.len() == 0 { None } else { Some(0) };
        PathList { entries, selection }
    }

    /// Point the cursor at a given valid index.
    pub fn select(&mut self, index: usize)
        requires
            index < old(self)@.entries.len(),
        ensures
            final(self)@.entries == old(self)@.entries,
            final(self)@.selection == Some(index as int),
            final(self)@.wf(),
    {
        self.selection = Some(index);
    }

    /// The entries, in search order.
    pub fn entries(&self) -> (r: &Vec<String>)
        ensures
            r.deep_view() == self@.entries,
    {
        &self.entries
    }

    /// The selected index, if any.
    pub fn selected(&self) -> (r: Option<usize>)
        ensures
            self@.selection == (match r {
                Some(i) => Some(i as int),
                None => None::<int>,
            }),
    {
        self.selection
    }

    /// How many entries the list holds.
    pub fn len(&self) -> (n: usize)
        ensures
            n == self@.entries.len(),
    {
        self.entries.len()
    }

    /// Move the selection one step, clamped at the boundaries; a no-op on
    /// an empty list.
    pub fn move_selection(&mut self, dir: Direction)
        requires
            old(self)@.wf(),
        ensures
            final(self)@ == spec_move_selection(old(self)@, dir),
            final(self)@.wf(),
    {
        match self.selection {
            None => {},
            Some(i) => {
                let len = self.entries.len();
                let ni = match dir {
                    Direction::Up => if i > 0 { i - 1 } else { 0 },
                    Direction::Down => if i + 1 < len { i + 1 } else { len - 1 },
                };
                self.selection = Some(ni);
            },
        }
    }

    /// Remove the selected entry, if any, and re-validate the selection:
    /// the same index when still valid, else the new last index, else none.
    pub fn delete_selected(&mut self)
        requires
            old(self)@.wf(),
        ensures
            final(self)@ == spec_delete_selected(old(self)@),
            final(self)@.wf(),
    {
        match self.selection {
            None => {},
            Some(i) => {
                self.entries.remove(i);
                proof {
                    assert(self.entries.deep_view() =~= old(self).entries.deep_view().remove(
                        i as int,
                    ));
                }
                let len = self.entries.len();
                if len == 0 {
                    self.selection = None;
                } else if i >= len {
                    self.selection = Some(len - 1);
                } else {
                    self.selection = Some(i);
                }
            },
        }
    }

    /// Insert an entry before or after the selection (at the front when
    /// nothing is selected) and select it.
    pub fn insert_path_at_selection(&mut self, new_path: String, insertion_point: InsertionPoint)
        requires
            old(self)@.wf(),
        ensures
            final(self)@ == spec_insert(old(self)@, new_path@, insertion_point),
            final(self)@.wf(),
    {
        let len = self.entries.len();
        let selected_index = match self.selection {
            Some(i) => i,
            None => 0,
        };
        proof {
            assert(selected_index < len || selected_index == 0);
        }
        let raw = match insertion_point {
            InsertionPoint::Before => selected_index,
            InsertionPoint::After => selected_index + 1,
        };
        let at = if raw > len { len } else { raw };
        self.entries.insert(at, new_path);
        proof {
            assert(self.entries.deep_view() =~= old(self).entries.deep_view().insert(
                at as int,
                new_path@,
            ));
        }
        self.selection = Some(at);
    }
}

/// Law: every list operation preserves the selection invariant, so a
/// non-empty list always selects a valid index and an empty list none.
pub proof fn lemma_operations_preserve_wf(
    l: ListView,
    path: Seq<char>,
    side: InsertionPoint,
    dir: Direction,
)
    requires
        l.wf(),
    ensures
        spec_move_selection(l, dir).wf(),
        spec_delete_selected(l).wf(),
        spec_insert(l, path, side).wf(),
{
}

/// Law: inserting an entry and then deleting at the inserted (and now
/// selected) index restores the original entries.
pub proof fn lemma_insert_then_delete_restores(l: ListView, path: Seq<char>, side: InsertionPoint)
    requires
        l.wf(),
    ensures
        spec_delete_selected(spec_insert(l, path, side)).entries == l.entries,
{
    let idx = insert_index(l.selection, l.entries.len() as int, side);
    assert(l.entries.insert(idx, path).remove(idx) =~= l.entries);
}

/// Law: moving the selection up at the first index, or down at the last
/// index, leaves the whole model unchanged.
pub proof fn lemma_move_clamps_at_boundaries(l: ListView)
    requires
        l.wf(),
        l.entries.len() > 0,
    ensures
        l.selection == Some(0int) ==> spec_move_selection(l, Direction::Up) == l,
        l.selection == Some((l.entries.len() - 1) as int) ==> spec_move_selection(
            l,
            Direction::Down,
        ) == l,
{
}

/// Law: deleting the only remaining entry empties the list and clears the
/// selection.
pub proof fn lemma_delete_last_entry_clears(l: ListView)
    requires
        l.wf(),
        l.entries.len() == 1,
    ensures
        spec_delete_selected(l).entries.len() == 0,
        spec_delete_selected(l).selection is None,
{
}

} // verus!
