//! The draft: the text being composed for a new task, with its edit cursor.

use vstd::prelude::*;

verus! {

#[verifier::external_type_specification]
pub struct ExInputRequest(tui_input::InputRequest);

/// What the text editor makes of `text` with its cursor at `cursor` after one request:
/// the new text and the new cursor.
pub uninterp spec fn edited(text: Seq<char>, cursor: nat, req: tui_input::InputRequest) -> (Seq<char>, nat);

/// Relies on `tui_input::Input::handle`: it applies one editing request to a text and its
/// cursor (a position between characters), and keeps the cursor within the text.
#[verifier::external_body]
fn apply_request(text: &String, cursor: usize, req: tui_input::InputRequest) -> (r: (String, usize))
    requires
        cursor <= text@.len(),
    ensures
        (r.0@, r.1 as nat) == edited(text@, cursor as nat, req),
        r.1 <= r.0@.len(),
        req matches tui_input::InputRequest::InsertChar(c) ==> r.0@ == text@.take(cursor as int).push(c)
            + text@.skip(cursor as int) && r.1 == cursor + 1,
        req is DeletePrevChar && cursor == 0 ==> r.0@ == text@ && r.1 == 0,
        req is DeletePrevChar && cursor > 0 ==> r.0@ == text@.remove(cursor - 1) && r.1 == cursor - 1,
        req is DeleteLine ==> r.0@ == Seq::<char>::empty() && r.1 == 0,
{
    let mut input = tui_input::Input::new(text.clone()).with_cursor(cursor);
    input.handle(req);
    (input.value().to_string(), input.cursor())
}

/// The text of a task being composed, and the position of the edit cursor in it.
pub struct Draft {
    pub text: String,
    pub cursor: usize,
}

/// A draft as values: its characters and its cursor.
pub struct DraftView {
    pub text: Seq<char>,
    pub cursor: nat,
}

impl View for Draft {
    type V = DraftView;

    open spec fn view(&self) -> DraftView {
        DraftView { text: self.text@, cursor: self.cursor as nat }
    }
}

impl DraftView {
    /// The cursor stands between two characters of the text, or at one of its ends.
    pub open spec fn wf(self) -> bool {
        self.cursor <= self.text.len()
    }

    pub open spec fn empty() -> DraftView {
        DraftView { text: Seq::empty(), cursor: 0 }
    }

    /// The draft after one editing request.
    pub open spec fn after(self, req: tui_input::InputRequest) -> DraftView {
        DraftView { text: edited(self.text, self.cursor, req).0, cursor: edited(self.text, self.cursor, req).1 }
    }
}

impl Draft {
    /// An empty draft, its cursor at the start.
    pub fn new() -> (d: Draft)
        ensures
            d@ == DraftView::empty(),
    {
        Draft { text: String::new(), cursor: 0 }
    }

    /// Applies one editing request (typing a character, deleting, moving the cursor).
    pub fn edit(&mut self, req: tui_input::InputRequest)
        requires
            old(self)@.wf(),
        ensures
            final(self)@ == old(self)@.after(req),
            final(self)@.wf(),
    {
        let (text, cursor) = apply_request(&self.text, self.cursor, req);
        self.text = text;
        self.cursor = cursor;
    }

    /// Empties the draft.
    pub fn clear(&mut self)
        ensures
            final(self)@ == DraftView::empty(),
    {
        self.text = String::new();
        self.cursor = 0;
    }

    /// The text typed so far.
    pub fn value(&self) -> (r: &String)
        ensures
            r@ == self.text@,
    {
        &self.text
    }
}

} // verus!
