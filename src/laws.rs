//! What holds of the controller over any sequence of key presses and fetches.

use vstd::prelude::*;
use crate::editor::DraftView;
use crate::session::{
    ActionView, KeyCode, KeyPress, Mode, SessionView, Task, clamped, fetched_items, is_viewing_command,
};

verus! {

/// The rows that the store keeps when asked to delete `id`: every row of another id, in order.
pub open spec fn without_id(rows: Seq<Task>, id: u64) -> Seq<Task> {
    rows.filter(|t: Task| t.id != id)
}

proof fn lemma_without_absent_id(rows: Seq<Task>, id: u64)
    requires
        forall|k: int| 0 <= k < rows.len() ==> rows[k].id != id,
    ensures
        without_id(rows, id) == rows,
    decreases rows.len(),
{
    reveal(Seq::filter);
    if rows.len() > 0 {
        lemma_without_absent_id(rows.drop_last(), id);
        assert(rows.drop_last().push(rows.last()) =~= rows);
    }
}

/// While viewing, a key other than quit, up, down, new and delete, or the delete key with
/// nothing selected, leaves the session as it was and calls no store.
pub proof fn lemma_viewing_other_keys_change_nothing(s: SessionView, key: KeyPress)
    requires
        s.mode == Mode::Viewing,
        !is_viewing_command(key.code) || (key.code == KeyCode::Backspace && s.cursor is None),
    ensures
        s.after_key(key) == s,
        s.action_for(key) == ActionView::Nothing,
{
}

/// Entering composing mode starts from an empty draft, whatever was typed before, and keeps
/// the list and the cursor.
pub proof fn lemma_composing_starts_empty(s: SessionView, key: KeyPress)
    requires
        s.mode == Mode::Viewing,
        key.code == KeyCode::Char('i'),
    ensures
        s.after_key(key).mode == Mode::Composing,
        s.after_key(key).draft == DraftView::empty(),
        s.after_key(key).items == s.items,
        s.after_key(key).cursor == s.cursor,
        s.action_for(key) == ActionView::Nothing,
{
}

/// Cancelling a draft discards it, returns to viewing, keeps the list and the cursor, and
/// calls no store.
pub proof fn lemma_cancel_discards_draft(s: SessionView, key: KeyPress)
    requires
        s.mode == Mode::Composing,
        key.code == KeyCode::Esc,
    ensures
        s.after_key(key).mode == Mode::Viewing,
        s.after_key(key).draft == DraftView::empty(),
        s.after_key(key).items == s.items,
        s.after_key(key).cursor == s.cursor,
        s.action_for(key) == ActionView::Nothing,
{
}

/// After a key that inserts or deletes, once the refetch is in, the cached list is exactly
/// what the fetch returned (empty where it failed), whatever the store call did, and the
/// session is back in viewing mode with a valid cursor.
pub proof fn lemma_refetch_after_mutation(s: SessionView, key: KeyPress, fetched: Option<Seq<Task>>)
    requires
        s.wf(),
        s.action_for(key) is Insert || s.action_for(key) is Delete,
    ensures
        s.after_key(key).after_fetch(fetched).items == fetched_items(fetched),
        s.after_key(key).after_fetch(fetched).mode == Mode::Viewing,
        s.after_key(key).after_fetch(fetched).wf(),
{
}

/// From a well-formed session, a key press keeps the cursor on an item of the list, and a
/// refetch gives a well-formed session. A refetch that shrinks the list below the cursor
/// moves it onto the last item, or clears it where the list is empty.
pub proof fn lemma_cursor_stays_valid(s: SessionView, key: KeyPress, fetched: Option<Seq<Task>>)
    requires
        s.wf(),
    ensures
        s.after_key(key).cursor_valid(),
        s.after_fetch(fetched).wf(),
        s.after_fetch(fetched).cursor == clamped(s.cursor, fetched_items(fetched).len()),
        s.cursor matches Some(i) && i >= fetched_items(fetched).len() ==> (
            if fetched_items(fetched).len() == 0 {
                s.after_fetch(fetched).cursor is None
            } else {
                s.after_fetch(fetched).cursor == Some((fetched_items(fetched).len() - 1) as nat)
            }
        ),
{
}

/// Deleting the selected task where the store no longer holds its id: the store keeps its
/// rows, and after the refetch the session is exactly what a refetch alone would give.
pub proof fn lemma_delete_of_absent_id(s: SessionView, key: KeyPress, rows: Seq<Task>, id: u64)
    requires
        s.wf(),
        s.action_for(key) == ActionView::Delete(id),
        forall|k: int| 0 <= k < rows.len() ==> rows[k].id != id,
    ensures
        without_id(rows, id) == rows,
        s.after_key(key).after_fetch(Some(without_id(rows, id))) == s.after_fetch(Some(rows)),
{
    lemma_without_absent_id(rows, id);
}

} // verus!
