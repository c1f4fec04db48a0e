use vstd::prelude::*;

use crate::buffer::{BufferModel, TextBuffer};
use crate::focus::Focus;

verus! {

/// How keystrokes are read: as commands, or as text for the focused field.
#[derive(PartialEq, Eq, Structural, Clone, Copy, Debug)]
pub enum InputMode {
    Normal,
    Editing,
}

/// A key as the editor distinguishes them.
#[derive(PartialEq, Eq, Structural, Clone, Copy, Debug)]
pub enum Key {
    Char(char),
    Backspace,
    Left,
    Right,
    Tab,
    Esc,
    Other,
}

/// Whether a key event reports a press, an automatic repeat or a release.
#[derive(PartialEq, Eq, Structural, Clone, Copy, Debug)]
pub enum KeyKind {
    Press,
    Repeat,
    Release,
}

/// What the event loop does after a key has been handled.
#[derive(PartialEq, Eq, Structural, Clone, Copy, Debug)]
pub enum Control {
    Continue,
    Quit,
}

/// The key that ends the program in normal mode.
pub const QUIT_KEY: char = 'q';

/// The key that enters editing mode from normal mode.
pub const EDIT_KEY: char = 'e';

/// The abstract state of the editor: the four fields, in cycle order, the
/// field that has focus and the input mode.
pub ghost struct AppModel {
    pub fields: Seq<BufferModel>,
    pub focus: Focus,
    pub mode: InputMode,
}

impl AppModel {
    pub open spec fn wf(self) -> bool {
        &&& self.fields.len() == 4
        &&& forall|i: int| 0 <= i < 4 ==> (#[trigger] self.fields[i]).wf()
    }

    /// The state and cursor of a field.
    pub open spec fn field(self, f: Focus) -> BufferModel {
        self.fields[f.index_spec() as int]
    }

    pub open spec fn active(self) -> BufferModel {
        self.field(self.focus)
    }

    /// The focused field is replaced by `b`; the others and the focus stay.
    pub open spec fn with_active(self, b: BufferModel) -> AppModel {
        AppModel { fields: self.fields.update(self.focus.index_spec() as int, b), ..self }
    }

    pub open spec fn with_mode(self, mode: InputMode) -> AppModel {
        AppModel { mode, ..self }
    }

    /// Focus moves on to the next field; no text or cursor changes.
    pub open spec fn focus_advanced(self) -> AppModel {
        AppModel { focus: self.focus.next_spec(), ..self }
    }

    /// The state after a key event, and whether the event loop goes on.
    /// In normal mode the quit key ends the loop and the edit key enters
    /// editing mode. In editing mode only presses count: escape returns to
    /// normal mode, tab moves the focus, a character is inserted, backspace
    /// deletes and the arrows move the cursor. Any other event leaves the
    /// state as it is.
    pub open spec fn on_key(self, key: Key, kind: KeyKind) -> (AppModel, Control) {
        match self.mode {
            InputMode::Normal => {
                if key == Key::Char(QUIT_KEY) {
                    (self, Control::Quit)
                } else if key == Key::Char(EDIT_KEY) {
                    (self.with_mode(InputMode::Editing), Control::Continue)
                } else {
                    (self, Control::Continue)
                }
            },
            InputMode::Editing => {
                if kind != KeyKind::Press {
                    (self, Control::Continue)
                } else {
                    let next = match key {
                        Key::Esc => self.with_mode(InputMode::Normal),
                        Key::Tab => self.focus_advanced(),
                        Key::Char(c) => self.with_active(self.active().inserted(c)),
                        Key::Backspace => self.with_active(self.active().backspaced()),
                        Key::Left => self.with_active(self.active().moved_left()),
                        Key::Right => self.with_active(self.active().moved_right()),
                        Key::Other => self,
                    };
                    (next, Control::Continue)
                }
            },
        }
    }
}

/// The editor: four fields, the focus and the input mode.
pub struct App {
    fields: Vec<TextBuffer>,
    focus: Focus,
    input_mode: InputMode,
}

impl View for App {
    type V = AppModel;

    closed spec fn view(&self) -> AppModel {
        AppModel {
            fields: self.fields@.map_values(|b: TextBuffer| b@),
            focus: self.focus,
            mode: self.input_mode,
        }
    }
}

impl App {
    pub closed spec fn wf(&self) -> bool {
        &&& self.fields.len() == 4
        &&& forall|i: int| 0 <= i < 4 ==> (#[trigger] self.fields[i]).wf()
    }

    proof fn lemma_wf(&self)
        requires
            self.wf(),
        ensures
            self@.wf(),
    {
        assert forall|i: int| 0 <= i < 4 implies (#[trigger] self@.fields[i]).wf() by {
            self.fields[i].lemma_wf();
        }
    }

    /// Four empty fields with their cursors at zero, focus on the token, in
    /// editing mode.
    pub fn new() -> (r: App)
        ensures
            r.wf(),
            r@.wf(),
            r@.focus == Focus::Token,
            r@.mode == InputMode::Editing,
            forall|i: int| 0 <= i < 4 ==> #[trigger] r@.fields[i] == BufferModel::empty(),
    {
        let mut fields: Vec<TextBuffer> = Vec::new();
        fields.push(TextBuffer::new());
        fields.push(TextBuffer::new());
        fields.push(TextBuffer::new());
        fields.push(TextBuffer::new());
        let r = App { fields, focus: Focus::Token, input_mode: InputMode::Editing };
        proof {
            r.lemma_wf();
        }
        r
    }

    pub fn focus(&self) -> (r: Focus)
        ensures
            r == self@.focus,
    {
        self.focus
    }

    pub fn input_mode(&self) -> (r: InputMode)
        ensures
            r == self@.mode,
    {
        self.input_mode
    }

    /// The field named by `f`.
    pub fn field(&self, f: Focus) -> (r: &TextBuffer)
        requires
            self.wf(),
        ensures
            r@ == self@.field(f),
            r.wf(),
    {
        &self.fields[f.index()]
    }

    /// The text of the focused field.
    pub fn active_buffer(&self) -> (r: &[char])
        requires
            self.wf(),
        ensures
            r@ == self@.active().text,
    {
        self.fields[self.focus.index()].text()
    }

    /// The cursor of the focused field.
    pub fn active_cursor(&self) -> (r: usize)
        requires
            self.wf(),
        ensures
            r == self@.active().cursor,
    {
        self.fields[self.focus.index()].cursor()
    }

    /// The focused field, for editing.
    fn active(&mut self) -> (r: &mut TextBuffer)
        requires
            old(self).wf(),
        ensures
            *r == old(self).fields[old(self).focus.index_spec() as int],
            final(self).focus == old(self).focus,
            final(self).input_mode == old(self).input_mode,
            final(self).fields@ == old(self).fields@.update(
                old(self).focus.index_spec() as int,
                *final(r),
            ),
    {
        let i = self.focus.index();
        &mut self.fields[i]
    }

    pub fn insert_char(&mut self, c: char)
        requires
            old(self).wf(),
        ensures
            final(self).wf(),
            final(self)@ == old(self)@.with_active(old(self)@.active().inserted(c)),
    {
        self.active().insert_char(c);
        proof {
            assert(self@.fields =~= old(self)@.fields.update(
                old(self)@.focus.index_spec() as int,
                old(self)@.active().inserted(c),
            ));
        }
    }

    pub fn backspace(&mut self)
        requires
            old(self).wf(),
        ensures
            final(self).wf(),
            final(self)@ == old(self)@.with_active(old(self)@.active().backspaced()),
    {
        self.active().backspace();
        proof {
            assert(self@.fields =~= old(self)@.fields.update(
                old(self)@.focus.index_spec() as int,
                old(self)@.active().backspaced(),
            ));
        }
    }

    pub fn move_left(&mut self)
        requires
            old(self).wf(),
        ensures
            final(self).wf(),
            final(self)@ == old(self)@.with_active(old(self)@.active().moved_left()),
    {
        self.active().move_left();
        proof {
            assert(self@.fields =~= old(self)@.fields.update(
                old(self)@.focus.index_spec() as int,
                old(self)@.active().moved_left(),
            ));
        }
    }

    pub fn move_right(&mut self)
        requires
            old(self).wf(),
        ensures
            final(self).wf(),
            final(self)@ == old(self)@.with_active(old(self)@.active().moved_right()),
    {
        self.active().move_right();
        proof {
            assert(self@.fields =~= old(self)@.fields.update(
                old(self)@.focus.index_spec() as int,
                old(self)@.active().moved_right(),
            ));
        }
    }

    /// Moves the focus to the next field; every field keeps its text and cursor.
    pub fn next_focus(&mut self)
        requires
            old(self).wf(),
        ensures
            final(self).wf(),
            final(self)@ == old(self)@.focus_advanced(),
    {
        self.focus = self.focus.next();
    }

    /// Handles one key event and tells the event loop whether to go on.
    pub fn handle_key(&mut self, key: Key, kind: KeyKind) -> (r: Control)
        requires
            old(self).wf(),
        ensures
            final(self).wf(),
            (final(self)@, r) == old(self)@.on_key(key, kind),
    {
        match self.input_mode {
            InputMode::Normal => match key {
                Key::Char(QUIT_KEY) => {
                    return Control::Quit;
                },
                Key::Char(EDIT_KEY) => {
                    self.input_mode = InputMode::Editing;
                },
                _ => {},
            },
            InputMode::Editing => {
                if kind == KeyKind::Press {
                    match key {
                        Key::Esc => {
                            self.input_mode = InputMode::Normal;
                        },
                        Key::Tab => self.next_focus(),
                        Key::Char(c) => self.insert_char(c),
                        Key::Backspace => self.backspace(),
                        Key::Left => self.move_left(),
                        Key::Right => self.move_right(),
                        Key::Other => {},
                    }
                }
            },
        }
        Control::Continue
    }

    /// Where the caret goes on screen: in editing mode, one column right of
    /// the focused panel's left edge plus the cursor offset, and one row below
    /// its top edge, both held at the largest coordinate; no caret in normal
    /// mode.
    pub fn caret_position(&self, area_x: u16, area_y: u16) -> (r: Option<(u16, u16)>)
        requires
            self.wf(),
        ensures
            self@.mode == InputMode::Normal ==> r.is_none(),
            self@.mode == InputMode::Editing ==> r == Some((
                clamp_u16(area_x + self@.active().cursor + 1),
                clamp_u16(area_y + 1),
            )),
    {
        match self.input_mode {
            InputMode::Normal => None,
            InputMode::Editing => {
                let cursor = self.active_cursor();
                let column: u16 = if cursor < (u16::MAX - area_x) as usize {
                    area_x + cursor as u16 + 1
                } else {
                    u16::MAX
                };
                Some((column, area_y.saturating_add(1)))
            },
        }
    }
}

/// An integer held at the largest `u16`.
pub open spec fn clamp_u16(n: int) -> u16 {
    if n < u16::MAX {
        n as u16
    } else {
        u16::MAX
    }
}

/// Moving the focus four times brings it back to the field where it started,
/// and no field's text or cursor changes on the way.
pub proof fn lemma_focus_cycle(m: AppModel)
    ensures
        m.focus_advanced().focus_advanced().focus_advanced().focus_advanced() == m,
        m.focus_advanced().fields == m.fields,
{
    crate::focus::lemma_next_four_times(m.focus);
}

/// A key event changes at most the focused field: every other field keeps its
/// text and cursor exactly. So a field that loses focus finds its cursor where
/// it was left when focus comes back to it.
pub proof fn lemma_unfocused_field_kept(m: AppModel, key: Key, kind: KeyKind, f: Focus)
    requires
        m.wf(),
        m.focus != f,
    ensures
        m.on_key(key, kind).0.field(f) == m.field(f),
{
    crate::focus::lemma_index_injective(m.focus, f);
}

/// Every key event keeps each field's cursor within its text.
pub proof fn lemma_on_key_keeps_wf(m: AppModel, key: Key, kind: KeyKind)
    requires
        m.wf(),
    ensures
        m.on_key(key, kind).0.wf(),
{
    let next = m.on_key(key, kind).0;
    crate::buffer::lemma_apply_keeps_wf(m.active(), crate::buffer::EditOp::MoveLeft);
    crate::buffer::lemma_apply_keeps_wf(m.active(), crate::buffer::EditOp::MoveRight);
    crate::buffer::lemma_apply_keeps_wf(m.active(), crate::buffer::EditOp::Backspace);
    assert forall|i: int| 0 <= i < 4 implies (#[trigger] next.fields[i]).wf() by {
        if let Key::Char(c) = key {
            crate::buffer::lemma_apply_keeps_wf(m.active(), crate::buffer::EditOp::Insert(c));
        }
    }
}

} // verus!
