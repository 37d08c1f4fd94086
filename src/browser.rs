//! The decisions of the interactive list: a cursor over the tracked files,
//! five key bindings, and a yes/no prompt before every bit is cleared.
//!
//! The caller draws the list, reads keys, and carries out the action that
//! each key gives back; this module only decides.
use vstd::prelude::*;

use crate::item::{views, FileItem};

verus! {

/// A key as the list sees it.
#[derive(Clone, Copy, Debug, PartialEq, Eq, Structural)]
pub enum Key {
    Char(char),
    Up,
    Down,
    Other,
}

/// What the caller carries out after a key.
#[derive(Clone, Copy, Debug, PartialEq, Eq, Structural)]
pub enum Action {
    /// Nothing beyond drawing the list again.
    Nothing,
    /// Leave the list.
    Quit,
    /// Set (`skip`) or unset the bit of the file at `index` in the index.
    SetSkip { index: usize, skip: bool },
    /// Show the prompt that asks whether to clear every bit.
    AskClear,
    /// Clear the bit of every tracked file in the index.
    ClearAll,
}

/// The state of the list, as plain values.
pub struct ListModel {
    pub items: Seq<(Seq<char>, bool)>,
    pub cursor: nat,
    pub confirming: bool,
}

/// Every record with its bit cleared.
pub open spec fn cleared(items: Seq<(Seq<char>, bool)>) -> Seq<(Seq<char>, bool)> {
    items.map_values(|e: (Seq<char>, bool)| (e.0, false))
}

/// The last position of a list of `len` records (0 when it is empty).
pub open spec fn last_pos(len: nat) -> nat {
    if len == 0 { 0 } else { (len - 1) as nat }
}

/// The state after `key`, and the action for the caller. While the prompt is
/// up, any key event counts; otherwise only presses do. A toggle on an empty
/// list does nothing.
pub open spec fn transition(m: ListModel, key: Key, pressed: bool) -> (ListModel, Action) {
    if m.confirming {
        match key {
            Key::Char('y') | Key::Char('Y') => (
                ListModel { items: cleared(m.items), confirming: false, ..m },
                Action::ClearAll,
            ),
            Key::Char('n') | Key::Char('N') => (
                ListModel { confirming: false, ..m },
                Action::Nothing,
            ),
            _ => (m, Action::Nothing),
        }
    } else if !pressed {
        (m, Action::Nothing)
    } else {
        match key {
            Key::Char('q') => (m, Action::Quit),
            Key::Char('j') | Key::Down => {
                let c = if m.cursor + 1 < last_pos(m.items.len()) {
                    m.cursor + 1
                } else {
                    last_pos(m.items.len())
                };
                (ListModel { cursor: c as nat, ..m }, Action::Nothing)
            },
            Key::Char('k') | Key::Up => {
                let c = if m.cursor > 0 { m.cursor - 1 } else { 0 };
                (ListModel { cursor: c as nat, ..m }, Action::Nothing)
            },
            Key::Char('u') => {
                if m.cursor < m.items.len() {
                    let e = m.items[m.cursor as int];
                    (
                        ListModel { items: m.items.update(m.cursor as int, (e.0, !e.1)), ..m },
                        Action::SetSkip { index: m.cursor as usize, skip: !e.1 },
                    )
                } else {
                    (m, Action::Nothing)
                }
            },
            Key::Char('!') => (ListModel { confirming: true, ..m }, Action::AskClear),
            _ => (m, Action::Nothing),
        }
    }
}

/// The list of tracked files with a cursor, and whether the clear prompt is up.
pub struct ListView {
    pub items: Vec<FileItem>,
    pub cursor: usize,
    pub confirming: bool,
}

impl View for ListView {
    type V = ListModel;

    open spec fn view(&self) -> ListModel {
        ListModel { items: views(self.items@), cursor: self.cursor as nat, confirming: self.confirming }
    }
}

impl ListView {
    /// The cursor stands on a record, or at 0 on an empty list.
    pub open spec fn wf(&self) -> bool {
        self.cursor <= last_pos(self.items.len() as nat)
    }

    /// The list of `items`, with the cursor on the first and no prompt up.
    pub fn new(items: Vec<FileItem>) -> (r: ListView)
        ensures
            r.wf(),
            r@ == (ListModel { items: views(items@), cursor: 0, confirming: false }),
    {
        ListView { items, cursor: 0, confirming: false }
    }

    /// Clears the bit of every record.
    fn clear_all(&mut self)
        ensures
            final(self).cursor == old(self).cursor,
            final(self).confirming == old(self).confirming,
            views(final(self).items@) == cleared(views(old(self).items@)),
    {
        let ghost before = views(self.items@);
        let n = self.items.len();
        for i in 0..n
            invariant
                n == self.items.len(),
                self.cursor == old(self).cursor,
                self.confirming == old(self).confirming,
                before == views(old(self).items@),
                before.len() == n,
                forall|j: int| 0 <= j < n ==> (#[trigger] self.items@[j]).path@ == before[j].0,
                forall|j: int| 0 <= j < i ==> !(#[trigger] self.items@[j]).skipped,
        {
            self.items[i].skipped = false;
        }
        assert(views(self.items@) =~= cleared(before));
    }

    /// Takes one key event and gives the action that the caller must carry out.
    pub fn step(&mut self, key: Key, pressed: bool) -> (a: Action)
        requires
            old(self).wf(),
        ensures
            final(self).wf(),
            (final(self)@, a) == transition(old(self)@, key, pressed),
    {
        if self.confirming {
            match key {
                Key::Char('y') | Key::Char('Y') => {
                    self.clear_all();
                    self.confirming = false;
                    Action::ClearAll
                },
                Key::Char('n') | Key::Char('N') => {
                    self.confirming = false;
                    Action::Nothing
                },
                _ => Action::Nothing,
            }
        } else if !pressed {
            Action::Nothing
        } else {
            match key {
                Key::Char('q') => Action::Quit,
                Key::Char('j') | Key::Down => {
                    let last = if self.items.len() == 0 { 0 } else { self.items.len() - 1 };
                    if self.cursor < last {
                        self.cursor = self.cursor + 1;
                    } else {
                        self.cursor = last;
                    }
                    Action::Nothing
                },
                Key::Char('k') | Key::Up => {
                    if self.cursor > 0 {
                        self.cursor = self.cursor - 1;
                    }
                    Action::Nothing
                },
                Key::Char('u') => {
                    if self.cursor < self.items.len() {
                        let skip = !self.items[self.cursor].skipped;
                        let ghost before = views(self.items@);
                        self.items[self.cursor].skipped = skip;
                        assert(views(self.items@) =~= before.update(
                            self.cursor as int,
                            (before[self.cursor as int].0, skip),
                        ));
                        Action::SetSkip { index: self.cursor, skip }
                    } else {
                        Action::Nothing
                    }
                },
                Key::Char('!') => {
                    self.confirming = true;
                    Action::AskClear
                },
                _ => Action::Nothing,
            }
        }
    }
}

} // verus!
