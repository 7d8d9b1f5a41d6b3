//! General properties of the operation set, stated over the mathematical
//! document state and proved once and for all.

use vstd::prelude::*;
use crate::editor::{clamp_offset, DocView, Document, Snapshot};

verus! {

/// Setting the cursor always yields the clamped offset `clamp(pos, 0, len)`,
/// clears any selection, leaves the text alone, and keeps the state valid —
/// for every valid state and every offset, in range or not.
pub proof fn lemma_set_cursor_clamps(v: DocView, pos: int)
    requires
        v.wf(),
    ensures
        v.spec_set_cursor(pos).cursor == clamp_offset(pos, v.text.len() as int),
        v.spec_set_cursor(pos).selection is None,
        v.spec_set_cursor(pos).text == v.text,
        v.spec_set_cursor(pos).wf(),
{
}

/// A snapshot is a pure function of the document state: two snapshots taken
/// of the same document with no mutation between them are identical.
pub proof fn lemma_get_state_idempotent(doc: Document, first: Snapshot, second: Snapshot)
    requires
        first@ == doc@,
        second@ == doc@,
    ensures
        first@ == second@,
{
}

/// Every operation carries a valid state to a valid state, whatever the
/// inserted text or the (possibly out-of-range) offsets handed in.
pub proof fn lemma_operations_preserve_wf(v: DocView, s: Seq<char>, pos: int, start: int, end: int)
    requires
        v.wf(),
    ensures
        v.spec_insert(s).wf(),
        v.spec_set_cursor(pos).wf(),
        v.spec_set_selection(start, end).wf(),
        v.spec_delete().wf(),
{
}

/// When no selection is active, inserting `s` twice reaches exactly the
/// state that a single insert of `s + s` reaches — same cursor, same text.
/// (With a selection active before the first call the two are *also*
/// cursor-equivalent: the replace consumes the selection and both routes
/// put the cursor at `start + 2·len(s)`, so no stronger separation holds.)
pub proof fn lemma_plain_insert_composes(v: DocView, s: Seq<char>)
    requires
        v.wf(),
        v.selection is None,
    ensures
        v.spec_insert(s).spec_insert(s).cursor == v.spec_insert(s + s).cursor,
        v.spec_insert(s).spec_insert(s) == v.spec_insert(s + s),
{
    let len = v.text.len() as int;
    assert(clamp_offset(v.cursor, len) == v.cursor);
    let u1 = v.spec_insert(s);
    assert(u1.text.len() == v.text.len() + s.len());
    assert(clamp_offset(u1.cursor, u1.text.len() as int) == u1.cursor);
    let u2 = u1.spec_insert(s);
    let w = v.spec_insert(s + s);
    assert(u2.text =~= w.text);
    assert(u2 =~= w);
}

/// The state reached from `v` by applying `n` deletes in a row.
pub open spec fn spec_delete_n(v: DocView, n: nat) -> DocView
    decreases n,
{
    if n == 0 {
        v
    } else {
        spec_delete_n(v.spec_delete(), (n - 1) as nat)
    }
}

/// Backspacing `len(s)` times from the state "`s` sits at offset `c` with
/// the cursor just after it" consumes exactly the inserted characters and
/// puts the cursor back at `c`.
proof fn lemma_backspaces_consume_insertion(t: Seq<char>, c: int, s: Seq<char>)
    requires
        0 <= c <= t.len(),
    ensures
        spec_delete_n(
            DocView {
                text: t.subrange(0, c) + s + t.subrange(c, t.len() as int),
                cursor: c + s.len(),
                selection: None,
            },
            s.len(),
        ) == (DocView { text: t, cursor: c, selection: None }),
    decreases s.len(),
{
    let u = DocView {
        text: t.subrange(0, c) + s + t.subrange(c, t.len() as int),
        cursor: c + s.len(),
        selection: None,
    };
    if s.len() == 0 {
        assert(u.text =~= t);
        assert(u =~= (DocView { text: t, cursor: c, selection: None }));
    } else {
        let shorter = s.subrange(0, s.len() - 1);
        let d = u.spec_delete();
        assert(u.text.len() == t.len() + s.len());
        assert(d.text =~= t.subrange(0, c) + shorter + t.subrange(c, t.len() as int));
        assert(d =~= (DocView {
            text: t.subrange(0, c) + shorter + t.subrange(c, t.len() as int),
            cursor: c + shorter.len(),
            selection: None,
        }));
        lemma_backspaces_consume_insertion(t, c, shorter);
    }
}

/// Round trip: from any valid state with no selection, inserting `s` and
/// then deleting at the cursor `len(s)` times restores the original state —
/// backspace undoes a plain insert character by character.
pub proof fn lemma_insert_then_backspace_round_trip(v: DocView, s: Seq<char>)
    requires
        v.wf(),
        v.selection is None,
    ensures
        spec_delete_n(v.spec_insert(s), s.len()) == v,
{
    assert(clamp_offset(v.cursor, v.text.len() as int) == v.cursor);
    lemma_backspaces_consume_insertion(v.text, v.cursor, s);
    assert(v =~= (DocView { text: v.text, cursor: v.cursor, selection: None }));
}

/// Selection collapse: whenever the clamped start is at or past the clamped
/// end, requesting that selection yields no selection at all, with the
/// cursor at the clamped start.
pub proof fn lemma_selection_collapse(v: DocView, start: int, end: int)
    requires
        v.wf(),
        clamp_offset(start, v.text.len() as int) >= clamp_offset(end, v.text.len() as int),
    ensures
        v.spec_set_selection(start, end).selection is None,
        v.spec_set_selection(start, end).cursor == clamp_offset(start, v.text.len() as int),
        v.spec_set_selection(start, end).text == v.text,
        v.spec_set_selection(start, end).wf(),
{
}

} // verus!
