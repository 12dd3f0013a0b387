//! The session controller: what a key press does to the session and which store call it asks
//! for, and how a refetched list replaces the cached one.

use vstd::prelude::*;
use crate::editor::{Draft, DraftView};

verus! {

/// Which transition table applies to a key press.
#[derive(PartialEq, Eq, Structural, Clone, Copy, Debug)]
pub enum Mode {
    /// Browsing the list.
    Viewing,
    /// Typing the name of a new task.
    Composing,
}

/// When the store created a task: seconds and nanoseconds since the Unix epoch, in UTC.
#[derive(PartialEq, Eq, Structural, Clone, Copy, Debug)]
pub struct Timestamp {
    pub secs: i64,
    pub nanos: u32,
}

/// A task as the store holds it.
#[derive(Clone, Debug)]
pub struct Task {
    pub id: u64,
    pub name: String,
    pub created: Timestamp,
}

/// The keys that the controller tells apart.
#[derive(PartialEq, Eq, Structural, Clone, Copy, Debug)]
pub enum KeyCode {
    Char(char),
    Up,
    Down,
    Backspace,
    Enter,
    Esc,
    Other,
}

/// One key press: the key, and what the draft editor makes of it (`None` where the
/// editor ignores it).
#[derive(Clone, Copy, Debug)]
pub struct KeyPress {
    pub code: KeyCode,
    pub edit: Option<tui_input::InputRequest>,
}

/// The store call that a key press asks for.
#[derive(Clone, Debug)]
pub enum Action {
    /// No store call; the loop goes on.
    Nothing,
    /// Leave the loop.
    Quit,
    /// Insert a task of this name, then refetch.
    Insert(String),
    /// Delete the task of this id, then refetch.
    Delete(u64),
}

/// An action as a value.
pub enum ActionView {
    Nothing,
    Quit,
    Insert(Seq<char>),
    Delete(u64),
}

impl View for Action {
    type V = ActionView;

    open spec fn view(&self) -> ActionView {
        match self {
            Action::Nothing => ActionView::Nothing,
            Action::Quit => ActionView::Quit,
            Action::Insert(name) => ActionView::Insert(name@),
            Action::Delete(id) => ActionView::Delete(*id),
        }
    }
}

/// The state of one interactive session.
pub struct Session {
    pub mode: Mode,
    /// The tasks as last fetched, in the store's order.
    pub items: Vec<Task>,
    /// The selected index into `items`, if any.
    pub cursor: Option<usize>,
    pub draft: Draft,
}

/// A session as values.
pub struct SessionView {
    pub mode: Mode,
    pub items: Seq<Task>,
    pub cursor: Option<nat>,
    pub draft: DraftView,
}

/// A cursor as a natural number.
pub open spec fn opt_nat(c: Option<usize>) -> Option<nat> {
    match c {
        Some(i) => Some(i as nat),
        None => None,
    }
}

impl View for Session {
    type V = SessionView;

    open spec fn view(&self) -> SessionView {
        SessionView { mode: self.mode, items: self.items@, cursor: opt_nat(self.cursor), draft: self.draft@ }
    }
}

/// The list of a fetch: what came back, or nothing where the fetch failed.
pub open spec fn fetched_items(fetched: Option<Seq<Task>>) -> Seq<Task> {
    match fetched {
        Some(items) => items,
        None => Seq::empty(),
    }
}

/// The result of a fetch as values.
pub open spec fn vec_opt_view(fetched: Option<Vec<Task>>) -> Option<Seq<Task>> {
    match fetched {
        Some(v) => Some(v@),
        None => None,
    }
}

/// A cursor kept over a list of `len` items: none on an empty list, else moved onto the last
/// item where it stood past it.
pub open spec fn clamped(c: Option<nat>, len: nat) -> Option<nat> {
    match c {
        None => None,
        Some(i) => if len == 0 {
            None
        } else if i < len {
            Some(i)
        } else {
            Some((len - 1) as nat)
        },
    }
}

/// The cursor one item up: the last item where none was selected, and never above the first.
pub open spec fn moved_up(c: Option<nat>, len: nat) -> Option<nat> {
    if len == 0 {
        None
    } else {
        match c {
            None => Some((len - 1) as nat),
            Some(i) => clamped(Some(if i == 0 { 0 } else { (i - 1) as nat }), len),
        }
    }
}

/// The cursor one item down: the first item where none was selected, and never past the last.
pub open spec fn moved_down(c: Option<nat>, len: nat) -> Option<nat> {
    if len == 0 {
        None
    } else {
        match c {
            None => Some(0),
            Some(i) => clamped(Some(i + 1), len),
        }
    }
}

/// The keys that act while viewing: quit, up, down, new and delete.
pub open spec fn is_viewing_command(code: KeyCode) -> bool {
    code == KeyCode::Char('q') || code == KeyCode::Up || code == KeyCode::Down
        || code == KeyCode::Char('i') || code == KeyCode::Backspace
}

impl SessionView {
    /// The cursor, where there is one, selects an item of the list.
    pub open spec fn cursor_valid(self) -> bool {
        match self.cursor {
            Some(i) => i < self.items.len(),
            None => true,
        }
    }

    /// The cursor selects an item of the list, and the draft is empty unless composing.
    pub open spec fn wf(self) -> bool {
        &&& self.cursor_valid()
        &&& self.draft.wf()
        &&& self.mode == Mode::Viewing ==> self.draft == DraftView::empty()
    }

    /// The session after a key press.
    pub open spec fn after_key(self, key: KeyPress) -> SessionView {
        match self.mode {
            Mode::Viewing => match key.code {
                KeyCode::Up => SessionView { cursor: moved_up(self.cursor, self.items.len()), ..self },
                KeyCode::Down => SessionView { cursor: moved_down(self.cursor, self.items.len()), ..self },
                KeyCode::Char('i') => SessionView { mode: Mode::Composing, draft: DraftView::empty(), ..self },
                _ => self,
            },
            Mode::Composing => match key.code {
                KeyCode::Esc => SessionView { mode: Mode::Viewing, draft: DraftView::empty(), ..self },
                KeyCode::Enter => SessionView { mode: Mode::Viewing, draft: DraftView::empty(), ..self },
                _ => match key.edit {
                    Some(req) => SessionView { draft: self.draft.after(req), ..self },
                    None => self,
                },
            },
        }
    }

    /// The store call that a key press asks for.
    pub open spec fn action_for(self, key: KeyPress) -> ActionView {
        match self.mode {
            Mode::Viewing => match key.code {
                KeyCode::Char('q') => ActionView::Quit,
                KeyCode::Backspace => match self.cursor {
                    Some(i) => ActionView::Delete(self.items[i as int].id),
                    None => ActionView::Nothing,
                },
                _ => ActionView::Nothing,
            },
            Mode::Composing => match key.code {
                KeyCode::Enter => ActionView::Insert(self.draft.text),
                _ => ActionView::Nothing,
            },
        }
    }

    /// The session once a fetch has come back: the list replaced whole (emptied where the
    /// fetch failed) and the cursor kept within it.
    pub open spec fn after_fetch(self, fetched: Option<Seq<Task>>) -> SessionView {
        SessionView {
            items: fetched_items(fetched),
            cursor: clamped(self.cursor, fetched_items(fetched).len()),
            ..self
        }
    }
}

/// The cursor kept over a list of `len` items.
fn clamp_cursor(c: Option<usize>, len: usize) -> (r: Option<usize>)
    ensures
        opt_nat(r) == clamped(opt_nat(c), len as nat),
{
    match c {
        None => None,
        Some(i) => if len == 0 {
            None
        } else if i < len {
            Some(i)
        } else {
            Some(len - 1)
        },
    }
}

impl Session {
    /// A session in viewing mode over the first fetch of the list, nothing selected; where that
    /// fetch failed, over an empty list.
    pub fn new(fetched: Option<Vec<Task>>) -> (s: Session)
        ensures
            s@.wf(),
            s@.mode == Mode::Viewing,
            s@.items == fetched_items(vec_opt_view(fetched)),
            s@.cursor == None::<nat>,
            s@.draft == DraftView::empty(),
    {
        let items = match fetched {
            Some(v) => v,
            None => Vec::new(),
        };
        Session { mode: Mode::Viewing, items, cursor: None, draft: Draft::new() }
    }

    /// Applies one key press to the session and returns the store call it asks for.
    pub fn handle_key(&mut self, key: KeyPress) -> (act: Action)
        requires
            old(self)@.wf(),
        ensures
            final(self)@ == old(self)@.after_key(key),
            act@ == old(self)@.action_for(key),
            final(self)@.wf(),
    {
        match self.mode {
            Mode::Viewing => match key.code {
                KeyCode::Char('q') => Action::Quit,
                KeyCode::Up => {
                    let len = self.items.len();
                    self.cursor = if len == 0 {
                        None
                    } else {
                        match self.cursor {
                            None => Some(len - 1),
                            Some(i) => clamp_cursor(Some(if i == 0 { 0 } else { i - 1 }), len),
                        }
                    };
                    Action::Nothing
                },
                KeyCode::Down => {
                    let len = self.items.len();
                    self.cursor = if len == 0 {
                        None
                    } else {
                        match self.cursor {
                            None => Some(0),
                            Some(i) => clamp_cursor(Some(i + 1), len),
                        }
                    };
                    Action::Nothing
                },
                KeyCode::Char('i') => {
                    self.mode = Mode::Composing;
                    self.draft.clear();
                    Action::Nothing
                },
                KeyCode::Backspace => match self.cursor {
                    Some(i) => Action::Delete(self.items[i].id),
                    None => Action::Nothing,
                },
                _ => Action::Nothing,
            },
            Mode::Composing => match key.code {
                KeyCode::Esc => {
                    self.mode = Mode::Viewing;
                    self.draft.clear();
                    Action::Nothing
                },
                KeyCode::Enter => {
                    let name = self.draft.value().clone();
                    self.mode = Mode::Viewing;
                    self.draft.clear();
                    Action::Insert(name)
                },
                _ => {
                    if let Some(req) = key.edit {
                        self.draft.edit(req);
                    }
                    Action::Nothing
                },
            },
        }
    }

    /// Replaces the cached list with a fresh fetch (an empty list where the fetch failed) and
    /// keeps the cursor within it.
    pub fn reload(&mut self, fetched: Option<Vec<Task>>)
        requires
            old(self)@.wf(),
        ensures
            final(self)@ == old(self)@.after_fetch(vec_opt_view(fetched)),
            final(self)@.wf(),
    {
        let items = match fetched {
            Some(v) => v,
            None => Vec::new(),
        };
        self.cursor = clamp_cursor(self.cursor, items.len());
        self.items = items;
    }
}

} // verus!
