//! The text-buffer core: a single document owning its text (a sequence of
//! Unicode scalar values), a cursor, and an optional selection.
//!
//! The text is kept as a flat vector of scalar values, so every edit is
//! linear in the document length; a balanced structure could replace it
//! without touching any contract, since all of them speak only of the
//! character sequence.

use vstd::prelude::*;

verus! {

/// A half-open character range `[start, end)` of selected text.
/// A well-formed selection always has `start < end`; an empty or inverted
/// range is never stored, it collapses to "no selection" instead.
#[derive(Clone, Copy, PartialEq, Eq, Structural, Debug)]
pub struct Selection {
    pub start: usize,
    pub end: usize,
}

/// The mathematical state of a document: the character sequence, the cursor
/// offset, and the optional selection range, all as plain mathematical
/// values. Both `Document` and `Snapshot` view to this type, so "a snapshot
/// reflects the document" is the single equation `snap@ == doc@`.
#[verifier::ext_equal]
pub ghost struct DocView {
    pub text: Seq<char>,
    pub cursor: int,
    pub selection: Option<(int, int)>,
}

/// Clamp an arbitrary (possibly negative, possibly past-the-end) offset
/// into the valid cursor range `[0, len]`.
pub open spec fn clamp_offset(pos: int, len: int) -> int {
    if pos < 0 {
        0
    } else if pos > len {
        len
    } else {
        pos
    }
}

impl DocView {
    /// Validity of a document state: the cursor sits inside `[0, len]`, and
    /// a selection, when present, is a non-empty in-bounds range whose
    /// active edge is the cursor.
    pub open spec fn wf(self) -> bool {
        &&& 0 <= self.cursor <= self.text.len()
        &&& match self.selection {
            Some((start, end)) => 0 <= start < end <= self.text.len() && self.cursor == end,
            None => true,
        }
    }

    /// The state after inserting the characters `s`.
    ///
    /// With a selection active, the selected range is replaced by `s` and
    /// the cursor lands just after the inserted text. Without one, `s` goes
    /// in at the cursor (defensively clamped to the text length, so the
    /// operation is total even on a stale cursor). Either way the selection
    /// is cleared.
    pub open spec fn spec_insert(self, s: Seq<char>) -> DocView {
        match self.selection {
            Some((start, end)) => DocView {
                text: self.text.subrange(0, start) + s + self.text.subrange(
                    end,
                    self.text.len() as int,
                ),
                cursor: start + s.len(),
                selection: None,
            },
            None => {
                let at = clamp_offset(self.cursor, self.text.len() as int);
                DocView {
                    text: self.text.subrange(0, at) + s + self.text.subrange(
                        at,
                        self.text.len() as int,
                    ),
                    cursor: at + s.len(),
                    selection: None,
                }
            },
        }
    }

    /// The state after moving the cursor to `pos`: the offset is clamped to
    /// `[0, len]`, and moving the cursor is a deselecting action.
    pub open spec fn spec_set_cursor(self, pos: int) -> DocView {
        DocView {
            text: self.text,
            cursor: clamp_offset(pos, self.text.len() as int),
            selection: None,
        }
    }

    /// The state after requesting the selection `[start, end)`. Both ends
    /// clamp independently to `[0, len]`; a range that is empty or inverted
    /// after clamping collapses to "no selection" with the cursor at the
    /// clamped start, otherwise the selection is stored and the cursor
    /// tracks its active edge `end`.
    pub open spec fn spec_set_selection(self, start: int, end: int) -> DocView {
        let len = self.text.len() as int;
        let cstart = clamp_offset(start, len);
        let cend = clamp_offset(end, len);
        if cstart >= cend {
            DocView { text: self.text, cursor: cstart, selection: None }
        } else {
            DocView { text: self.text, cursor: cend, selection: Some((cstart, cend)) }
        }
    }

    /// The state after a delete: with a selection active the whole selected
    /// range goes and the cursor lands at its start; without one, the single
    /// character before the cursor goes (backspace), and deleting at offset
    /// zero is a no-op.
    pub open spec fn spec_delete(self) -> DocView {
        match self.selection {
            Some((start, end)) => DocView {
                text: self.text.subrange(0, start) + self.text.subrange(
                    end,
                    self.text.len() as int,
                ),
                cursor: start,
                selection: None,
            },
            None => {
                if 0 < self.cursor <= self.text.len() {
                    DocView {
                        text: self.text.subrange(0, self.cursor - 1) + self.text.subrange(
                            self.cursor,
                            self.text.len() as int,
                        ),
                        cursor: self.cursor - 1,
                        selection: None,
                    }
                } else {
                    self
                }
            },
        }
    }
}

/// The live document aggregate: one text buffer, one cursor, one optional
/// selection. All mutation goes through the operation methods below, each
/// of which keeps the state well formed and returns a fresh snapshot.
pub struct Document {
    text: Vec<char>,
    cursor: usize,
    selection: Option<Selection>,
}

/// An immutable, owned copy of the document state handed back to callers
/// after every operation. It carries no reference to the live buffer.
#[derive(Clone, PartialEq, Eq, Debug)]
pub struct Snapshot {
    pub text: Vec<char>,
    pub cursor: usize,
    pub selection: Option<Selection>,
}

/// The mathematical value of an optional selection range.
pub open spec fn selection_view(selection: Option<Selection>) -> Option<(int, int)> {
    match selection {
        Some(sel) => Some((sel.start as int, sel.end as int)),
        None => None,
    }
}

impl View for Document {
    type V = DocView;

    closed spec fn view(&self) -> DocView {
        DocView {
            text: self.text@,
            cursor: self.cursor as int,
            selection: selection_view(self.selection),
        }
    }
}

impl View for Snapshot {
    type V = DocView;

    open spec fn view(&self) -> DocView {
        DocView {
            text: self.text@,
            cursor: self.cursor as int,
            selection: selection_view(self.selection),
        }
    }
}

/// Relies on String::push: appends the given character to the string.
#[verifier::external_body]
fn push_char(s: &mut String, c: char)
    ensures
        final(s)@ == old(s)@.push(c),
{
    s.push(c)
}

impl Snapshot {
    /// The snapshot's text as a single owned string.
    pub fn text_string(&self) -> (r: String)
        ensures
            r@ == self.text@,
    {
        let mut r = String::new();
        let mut i: usize = 0;
        while i < self.text.len()
            invariant
                i <= self.text@.len(),
                r@ == self.text@.subrange(0, i as int),
            decreases self.text@.len() - i,
        {
            push_char(&mut r, self.text[i]);
            proof {
                assert(r@ =~= self.text@.subrange(0, i + 1));
            }
            i = i + 1;
        }
        proof {
            assert(r@ =~= self.text@);
        }
        r
    }
}

/// Copy a character vector element by element.
fn copied_chars(text: &Vec<char>) -> (out: Vec<char>)
    ensures
        out@ == text@,
{
    let mut out: Vec<char> = Vec::new();
    let mut i: usize = 0;
    while i < text.len()
        invariant
            i <= text@.len(),
            out@ == text@.subrange(0, i as int),
        decreases text@.len() - i,
    {
        out.push(text[i]);
        proof {
            assert(out@ =~= text@.subrange(0, i + 1));
        }
        i = i + 1;
    }
    proof {
        assert(out@ =~= text@);
    }
    out
}

/// The characters of a string slice, collected into a vector, so that
/// string payloads from the host can enter the character-addressed buffer.
pub fn chars_of(s: &str) -> (out: Vec<char>)
    ensures
        out@ == s@,
{
    let mut out: Vec<char> = Vec::new();
    for c in it: s.chars()
        invariant
            it.seq() == s@,
            out@ == s@.subrange(0, it.index() as int),
    {
        out.push(c);
        proof {
            assert(out@ =~= s@.subrange(0, it.index() + 1));
        }
    }
    proof {
        assert(out@ =~= s@);
    }
    out
}

/// Remove the character range `[del_start, del_end)` from `text` and put
/// `ins` in its place, building the result afresh.
fn spliced(text: &Vec<char>, del_start: usize, del_end: usize, ins: &Vec<char>) -> (out: Vec<char>)
    requires
        del_start <= del_end <= text@.len(),
    ensures
        out@ == text@.subrange(0, del_start as int) + ins@ + text@.subrange(
            del_end as int,
            text@.len() as int,
        ),
{
    let mut out: Vec<char> = Vec::new();
    let mut i: usize = 0;
    while i < del_start
        invariant
            i <= del_start <= del_end <= text@.len(),
            out@ == text@.subrange(0, i as int),
        decreases del_start - i,
    {
        out.push(text[i]);
        proof {
            assert(out@ =~= text@.subrange(0, i + 1));
        }
        i = i + 1;
    }
    let mut j: usize = 0;
    while j < ins.len()
        invariant
            j <= ins@.len(),
            del_start <= del_end <= text@.len(),
            out@ == text@.subrange(0, del_start as int) + ins@.subrange(0, j as int),
        decreases ins@.len() - j,
    {
        out.push(ins[j]);
        proof {
            assert(ins@.subrange(0, j + 1) =~= ins@.subrange(0, j as int).push(ins@[j as int]));
            assert(out@ =~= text@.subrange(0, del_start as int) + ins@.subrange(0, j + 1));
        }
        j = j + 1;
    }
    proof {
        assert(ins@.subrange(0, ins@.len() as int) =~= ins@);
    }
    let mut k: usize = del_end;
    while k < text.len()
        invariant
            del_start <= del_end <= k <= text@.len(),
            out@ == text@.subrange(0, del_start as int) + ins@ + text@.subrange(
                del_end as int,
                k as int,
            ),
        decreases text@.len() - k,
    {
        out.push(text[k]);
        proof {
            assert(text@.subrange(del_end as int, k + 1) =~= text@.subrange(
                del_end as int,
                k as int,
            ).push(text@[k as int]));
            assert(out@ =~= text@.subrange(0, del_start as int) + ins@ + text@.subrange(
                del_end as int,
                k + 1,
            ));
        }
        k = k + 1;
    }
    out
}

impl Document {
    /// Validity of the live document; established by the constructor and
    /// preserved by every operation.
    pub open spec fn wf(&self) -> bool {
        self@.wf()
    }

    /// Create a document over an initial text payload, with the cursor at
    /// the start and nothing selected.
    pub fn new(text: Vec<char>) -> (doc: Document)
        ensures
            doc@.text == text@,
            doc@.cursor == 0,
            doc@.selection is None,
            doc.wf(),
    {
        Document { text, cursor: 0, selection: None }
    }

    /// Take a consistent snapshot of the current state. No preconditions,
    /// no side effects; the snapshot is fully determined by the state, so
    /// two snapshots of an unmutated document are identical.
    pub fn get_state(&self) -> (snap: Snapshot)
        ensures
            snap@ == self@,
    {
        Snapshot { text: copied_chars(&self.text), cursor: self.cursor, selection: self.selection }
    }

    /// Insert a string at the cursor, replacing the selection if one is
    /// active. Empty `s` is a legal no-op insert. A successful insert
    /// always clears the selection, and without a selection the text grows
    /// by exactly `charCount(s)` characters.
    pub fn insert_text(&mut self, s: &str) -> (snap: Snapshot)
        requires
            old(self).wf(),
        ensures
            final(self)@ == old(self)@.spec_insert(s@),
            final(self).wf(),
            final(self)@.selection is None,
            old(self)@.selection is None ==> final(self)@.text.len() == old(self)@.text.len()
                + s@.len(),
            snap@ == final(self)@,
    {
        let chars = chars_of(s);
        self.insert_chars(&chars)
    }

    /// Insert characters at the cursor, replacing the selection if one is
    /// active; the character-vector form of `insert_text`, with the same
    /// semantics.
    pub fn insert_chars(&mut self, s: &Vec<char>) -> (snap: Snapshot)
        requires
            old(self).wf(),
        ensures
            final(self)@ == old(self)@.spec_insert(s@),
            final(self).wf(),
            final(self)@.selection is None,
            old(self)@.selection is None ==> final(self)@.text.len() == old(self)@.text.len()
                + s@.len(),
            snap@ == final(self)@,
    {
        let (del_start, del_end) = match self.selection {
            Some(sel) => (sel.start, sel.end),
            None => {
                let at = if self.cursor <= self.text.len() {
                    self.cursor
                } else {
                    self.text.len()
                };
                (at, at)
            },
        };
        let out = spliced(&self.text, del_start, del_end, s);
        let out_len = out.len();
        proof {
            assert(del_start + s@.len() <= out_len);
        }
        self.text = out;
        self.cursor = del_start + s.len();
        self.selection = None;
        proof {
            assert(self@ =~= old(self)@.spec_insert(s@));
        }
        self.get_state()
    }

    /// Move the cursor to `pos`, clamped to `[0, len]`. Moving the cursor
    /// directly is a deselecting action: any active selection is cleared,
    /// and the text is untouched.
    pub fn set_cursor(&mut self, pos: usize) -> (snap: Snapshot)
        requires
            old(self).wf(),
        ensures
            final(self)@ == old(self)@.spec_set_cursor(pos as int),
            final(self)@.text == old(self)@.text,
            final(self)@.cursor == clamp_offset(pos as int, old(self)@.text.len() as int),
            final(self)@.selection is None,
            final(self).wf(),
            snap@ == final(self)@,
    {
        let len = self.text.len();
        self.cursor = if pos > len {
            len
        } else {
            pos
        };
        self.selection = None;
        self.get_state()
    }

    /// Request the selection `[start, end)`. Both ends clamp independently
    /// to `[0, len]`; if the clamped range is empty or inverted the request
    /// collapses to "no selection" with the cursor at the clamped start,
    /// otherwise the selection is set and the cursor tracks its end.
    pub fn set_selection(&mut self, start: usize, end: usize) -> (snap: Snapshot)
        requires
            old(self).wf(),
        ensures
            final(self)@ == old(self)@.spec_set_selection(start as int, end as int),
            final(self)@.text == old(self)@.text,
            clamp_offset(start as int, old(self)@.text.len() as int) >= clamp_offset(
                end as int,
                old(self)@.text.len() as int,
            ) ==> final(self)@.selection is None && final(self)@.cursor == clamp_offset(
                start as int,
                old(self)@.text.len() as int,
            ),
            final(self).wf(),
            snap@ == final(self)@,
    {
        let len = self.text.len();
        let cstart = if start > len {
            len
        } else {
            start
        };
        let cend = if end > len {
            len
        } else {
            end
        };
        if cstart >= cend {
            self.cursor = cstart;
            self.selection = None;
        } else {
            self.cursor = cend;
            self.selection = Some(Selection { start: cstart, end: cend });
        }
        self.get_state()
    }

    /// Delete at the cursor: with a selection active, remove the whole
    /// selected range and land the cursor at its start; without one, remove
    /// the single character before the cursor (backspace semantics). With
    /// the cursor at offset zero and nothing selected this is a no-op, not
    /// an error.
    pub fn delete_at_cursor(&mut self) -> (snap: Snapshot)
        requires
            old(self).wf(),
        ensures
            final(self)@ == old(self)@.spec_delete(),
            final(self).wf(),
            final(self)@.selection is None,
            old(self)@.selection is None && old(self)@.cursor == 0 ==> final(self)@ == old(
                self,
            )@,
            snap@ == final(self)@,
    {
        let empty: Vec<char> = Vec::new();
        match self.selection {
            Some(sel) => {
                let out = spliced(&self.text, sel.start, sel.end, &empty);
                self.text = out;
                self.cursor = sel.start;
                self.selection = None;
                proof {
                    assert(self@.text =~= old(self)@.spec_delete().text);
                    assert(self@ =~= old(self)@.spec_delete());
                }
            },
            None => {
                if self.cursor > 0 {
                    let out = spliced(&self.text, self.cursor - 1, self.cursor, &empty);
                    let new_cursor = self.cursor - 1;
                    self.text = out;
                    self.cursor = new_cursor;
                    proof {
                        assert(self@.text =~= old(self)@.spec_delete().text);
                        assert(self@ =~= old(self)@.spec_delete());
                    }
                }
            },
        }
        self.get_state()
    }
}

} // verus!
