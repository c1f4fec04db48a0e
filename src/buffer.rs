use vstd::prelude::*;

verus! {

/// The abstract state of one field: its characters and the cursor, an offset
/// counted in characters.
pub ghost struct BufferModel {
    pub text: Seq<char>,
    pub cursor: nat,
}

/// One editing operation on a single field.
pub enum EditOp {
    Insert(char),
    Backspace,
    MoveLeft,
    MoveRight,
}

impl BufferModel {
    pub open spec fn empty() -> BufferModel {
        BufferModel { text: Seq::empty(), cursor: 0 }
    }

    /// The cursor lies between the start and the end of the text.
    pub open spec fn wf(self) -> bool {
        self.cursor <= self.text.len()
    }

    /// The character goes in at the cursor, and the cursor moves past it.
    pub open spec fn inserted(self, c: char) -> BufferModel {
        BufferModel { text: self.text.insert(self.cursor as int, c), cursor: self.cursor + 1 }
    }

    /// The character before the cursor is removed and the cursor steps back;
    /// at the start of the text nothing changes.
    pub open spec fn backspaced(self) -> BufferModel {
        if self.cursor == 0 {
            self
        } else {
            BufferModel {
                text: self.text.remove(self.cursor - 1),
                cursor: (self.cursor - 1) as nat,
            }
        }
    }

    /// The cursor steps back by one, stopping at zero.
    pub open spec fn moved_left(self) -> BufferModel {
        if self.cursor == 0 {
            self
        } else {
            BufferModel { cursor: (self.cursor - 1) as nat, ..self }
        }
    }

    /// The cursor steps forward by one, stopping at the end of the text.
    pub open spec fn moved_right(self) -> BufferModel {
        if self.cursor < self.text.len() {
            BufferModel { cursor: self.cursor + 1, ..self }
        } else {
            BufferModel { cursor: self.text.len(), ..self }
        }
    }

    pub open spec fn apply(self, op: EditOp) -> BufferModel {
        match op {
            EditOp::Insert(c) => self.inserted(c),
            EditOp::Backspace => self.backspaced(),
            EditOp::MoveLeft => self.moved_left(),
            EditOp::MoveRight => self.moved_right(),
        }
    }

    /// The state after the operations, applied in order.
    pub open spec fn apply_all(self, ops: Seq<EditOp>) -> BufferModel
        decreases ops.len(),
    {
        if ops.len() == 0 {
            self
        } else {
            self.apply(ops[0]).apply_all(ops.drop_first())
        }
    }
}

/// Every editing operation keeps the cursor within the text.
pub proof fn lemma_apply_keeps_wf(b: BufferModel, op: EditOp)
    requires
        b.wf(),
    ensures
        b.apply(op).wf(),
{
}

/// However many operations are applied in a row, the cursor stays between
/// zero and the length of the text after each of them.
pub proof fn lemma_apply_all_keeps_wf(b: BufferModel, ops: Seq<EditOp>)
    requires
        b.wf(),
    ensures
        forall|k: int| 0 <= k <= ops.len() ==> (#[trigger] b.apply_all(ops.take(k))).wf(),
    decreases ops.len(),
{
    if ops.len() > 0 {
        lemma_apply_keeps_wf(b, ops[0]);
        let b1 = b.apply(ops[0]);
        let rest = ops.drop_first();
        lemma_apply_all_keeps_wf(b1, rest);
        assert forall|k: int| 0 <= k <= ops.len() implies (#[trigger] b.apply_all(ops.take(k))).wf() by {
            if k > 0 {
                assert(ops.take(k)[0] == ops[0]);
                assert(ops.take(k).drop_first() =~= rest.take(k - 1));
                assert(b.apply_all(ops.take(k)) == b1.apply_all(rest.take(k - 1)));
                assert(b1.apply_all(rest.take(k - 1)).wf());
            } else {
                assert(ops.take(k).len() == 0);
            }
        }
    } else {
        assert forall|k: int| 0 <= k <= ops.len() implies (#[trigger] b.apply_all(ops.take(k))).wf() by {
            assert(ops.take(k).len() == 0);
        }
    }
}

/// At the start of the text, backspace changes neither the text nor the cursor,
/// however often it is repeated.
pub proof fn lemma_backspace_at_start(b: BufferModel)
    requires
        b.cursor == 0,
    ensures
        b.backspaced() == b,
        b.backspaced().backspaced() == b,
{
}

/// Backspace right after an insertion removes the inserted character and puts
/// the cursor back where it was.
pub proof fn lemma_insert_then_backspace(b: BufferModel, c: char)
    requires
        b.wf(),
    ensures
        b.inserted(c).backspaced() == b,
{
    assert(b.inserted(c).backspaced().text =~= b.text);
}

/// Insertion, a step left and a backspace: the step left puts the cursor in
/// front of the inserted character, so backspace removes the character that
/// stood before the original cursor, and the inserted one takes its place.
/// At the start of the text the backspace does nothing and the inserted
/// character stays in front. The text comes back as it was exactly when the
/// character before the cursor equals the inserted one; the cursor always ends
/// one place to the left of where it started, or at zero.
pub proof fn lemma_insert_left_backspace(b: BufferModel, c: char)
    requires
        b.wf(),
    ensures
        b.cursor == 0 ==> b.inserted(c).moved_left().backspaced() == (BufferModel {
            text: seq![c] + b.text,
            cursor: 0,
        }),
        b.cursor > 0 ==> b.inserted(c).moved_left().backspaced() == (BufferModel {
            text: b.text.update(b.cursor - 1, c),
            cursor: (b.cursor - 1) as nat,
        }),
        b.inserted(c).moved_left().backspaced().text == b.text <==> (b.cursor > 0 && b.text[b.cursor
            - 1] == c),
{
    let r = b.inserted(c).moved_left().backspaced();
    if b.cursor == 0 {
        assert(r.text =~= seq![c] + b.text);
        assert(r.text.len() != b.text.len());
    } else {
        assert(r.text =~= b.text.update(b.cursor - 1, c));
        if b.text[b.cursor - 1] == c {
            assert(b.text.update(b.cursor - 1, c) =~= b.text);
        }
        if r.text == b.text {
            assert(r.text[b.cursor - 1] == c);
        }
    }
}

/// The text of one field and its cursor. The cursor is an offset in characters
/// and never passes the end of the text.
pub struct TextBuffer {
    text: Vec<char>,
    cursor: usize,
}

impl View for TextBuffer {
    type V = BufferModel;

    closed spec fn view(&self) -> BufferModel {
        BufferModel { text: self.text@, cursor: self.cursor as nat }
    }
}

impl TextBuffer {
    pub closed spec fn wf(&self) -> bool {
        self.cursor <= self.text.len()
    }

    pub proof fn lemma_wf(&self)
        ensures
            self.wf() <==> self@.wf(),
    {
    }

    pub fn new() -> (r: TextBuffer)
        ensures
            r.wf(),
            r@ == BufferModel::empty(),
    {
        TextBuffer { text: Vec::new(), cursor: 0 }
    }

    pub fn text(&self) -> (r: &[char])
        ensures
            r@ == self@.text,
    {
        self.text.as_slice()
    }

    pub fn cursor(&self) -> (r: usize)
        ensures
            r == self@.cursor,
    {
        self.cursor
    }

    pub fn insert_char(&mut self, c: char)
        requires
            old(self).wf(),
        ensures
            final(self).wf(),
            final(self)@ == old(self)@.inserted(c),
    {
        self.text.insert(self.cursor, c);
        let len = self.text.len();
        assert(self.cursor < len);
        self.cursor = self.cursor + 1;
    }

    pub fn backspace(&mut self)
        requires
            old(self).wf(),
        ensures
            final(self).wf(),
            final(self)@ == old(self)@.backspaced(),
    {
        if self.cursor > 0 {
            self.text.remove(self.cursor - 1);
            self.cursor = self.cursor - 1;
        }
    }

    pub fn move_left(&mut self)
        requires
            old(self).wf(),
        ensures
            final(self).wf(),
            final(self)@ == old(self)@.moved_left(),
    {
        self.cursor = self.cursor.saturating_sub(1);
    }

    pub fn move_right(&mut self)
        requires
            old(self).wf(),
        ensures
            final(self).wf(),
            final(self)@ == old(self)@.moved_right(),
    {
        let len = self.text.len();
        if self.cursor < len {
            self.cursor = self.cursor + 1;
        } else {
            self.cursor = len;
        }
    }

    pub fn apply(&mut self, op: EditOp)
        requires
            old(self).wf(),
        ensures
            final(self).wf(),
            final(self)@ == old(self)@.apply(op),
    {
        match op {
            EditOp::Insert(c) => self.insert_char(c),
            EditOp::Backspace => self.backspace(),
            EditOp::MoveLeft => self.move_left(),
            EditOp::MoveRight => self.move_right(),
        }
    }
}

} // verus!
