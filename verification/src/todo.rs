//! The todo-list view: an ordered list of items, an in-progress input buffer,
//! and a focus flag. One keystroke at a time edits the buffer, a commit key
//! moves the buffer into the list, and each rendered row carries the index its
//! delete control acts on.

use vstd::prelude::*;
use crate::color;
use crate::text::{pop_char, push_char};
use vstd::string::StringExecFns;

verus! {

/// One keystroke, as the view reads it: the commit key, delete-backward, the
/// space key (which may not arrive as a plain printable character), a single
/// printable character, or anything else.
#[derive(Clone, Copy)]
pub enum Key {
    Enter,
    Backspace,
    Space,
    Character(char),
    Other,
}

/// One keyboard event: the key and whether a control modifier was held.
#[derive(Clone, Copy)]
pub struct KeyEvent {
    pub key: Key,
    pub control: bool,
}

/// The todo-list state, mathematically: the items in display order, the
/// uncommitted buffer, and whether the input region holds keyboard focus.
pub ghost struct TodoView {
    pub items: Seq<Seq<char>>,
    pub buffer: Seq<char>,
    pub focused: bool,
}

/// The state after one keystroke.
///
/// - Enter with a non-empty buffer appends the buffer to the items and clears
///   it; with an empty buffer it changes nothing.
/// - Backspace drops the last buffer character; on an empty buffer it changes
///   nothing.
/// - Space appends a space character.
/// - A single printable character without control appends itself; with
///   control held it changes nothing.
/// - Any other key changes nothing.
pub open spec fn key_transition(state: TodoView, event: KeyEvent) -> TodoView {
    match event.key {
        Key::Enter => if state.buffer.len() > 0 {
            TodoView {
                items: state.items.push(state.buffer),
                buffer: Seq::empty(),
                focused: state.focused,
            }
        } else {
            state
        },
        Key::Backspace => if state.buffer.len() > 0 {
            TodoView { items: state.items, buffer: state.buffer.drop_last(), focused: state.focused }
        } else {
            state
        },
        Key::Space => TodoView {
            items: state.items,
            buffer: state.buffer.push(' '),
            focused: state.focused,
        },
        Key::Character(c) => if !event.control {
            TodoView {
                items: state.items,
                buffer: state.buffer.push(c),
                focused: state.focused,
            }
        } else {
            state
        },
        Key::Other => state,
    }
}

/// Whether a keystroke marks the view dirty (asks the host for a redraw).
/// Enter with an empty buffer, a control-modified character and every other
/// key are ignored outright; the remaining keys request a redraw even when
/// they leave the state as it was (backspace on an empty buffer does).
pub open spec fn key_marks_dirty(state: TodoView, event: KeyEvent) -> bool {
    match event.key {
        Key::Enter => state.buffer.len() > 0,
        Key::Backspace => true,
        Key::Space => true,
        Key::Character(_) => !event.control,
        Key::Other => false,
    }
}

/// The todo-list view's state.
pub struct TodoList {
    items: Vec<String>,
    input_text: String,
    is_focused: bool,
}

impl View for TodoList {
    type V = TodoView;

    closed spec fn view(&self) -> TodoView {
        TodoView {
            items: Seq::new(self.items@.len(), |i: int| self.items@[i]@),
            buffer: self.input_text@,
            focused: self.is_focused,
        }
    }
}

impl TodoList {
    /// A fresh view: no items, an empty buffer, no focus.
    pub fn new() -> (todo: TodoList)
        ensures
            todo@.items.len() == 0,
            todo@.buffer.len() == 0,
            !todo@.focused,
    {
        TodoList { items: Vec::new(), input_text: String::new(), is_focused: false }
    }

    /// Consumes one keystroke: the executable form of `key_transition`.
    /// Returns whether the view was marked dirty.
    pub fn handle_key(&mut self, event: KeyEvent) -> (dirty: bool)
        ensures
            final(self)@ == key_transition(old(self)@, event),
            dirty == key_marks_dirty(old(self)@, event),
    {
        let dirty = match event.key {
            Key::Enter => {
                if !self.input_text.as_str().is_empty() {
                    let committed = self.input_text.clone();
                    self.items.push(committed);
                    self.input_text = String::new();
                    proof {
                        assert(self@.items =~= old(self)@.items.push(old(self)@.buffer));
                    }
                    true
                } else {
                    false
                }
            },
            Key::Backspace => {
                pop_char(&mut self.input_text);
                true
            },
            Key::Space => {
                push_char(&mut self.input_text, ' ');
                true
            },
            Key::Character(c) => {
                if !event.control {
                    push_char(&mut self.input_text, c);
                    true
                } else {
                    false
                }
            },
            Key::Other => false,
        };
        dirty
    }

    /// Removes the item at `index`: exactly that element leaves the list, and
    /// every later element shifts left by one.
    pub fn delete_item(&mut self, index: usize)
        requires
            index < old(self)@.items.len(),
        ensures
            final(self)@.items == old(self)@.items.remove(index as int),
            final(self)@.items.len() == old(self)@.items.len() - 1,
            forall|j: int| 0 <= j < index ==> final(self)@.items[j] == old(self)@.items[j],
            forall|j: int|
                index <= j < final(self)@.items.len() ==> final(self)@.items[j] == old(
                    self,
                )@.items[j + 1],
            final(self)@.buffer == old(self)@.buffer,
            final(self)@.focused == old(self)@.focused,
    {
        self.items.remove(index);
        proof {
            assert(self@.items =~= old(self)@.items.remove(index as int));
        }
    }

    /// Gives the input region keyboard focus. Items and buffer are untouched.
    pub fn focus_input(&mut self)
        ensures
            final(self)@.focused,
            final(self)@.items == old(self)@.items,
            final(self)@.buffer == old(self)@.buffer,
    {
        self.is_focused = true;
    }

    /// How many items the list holds.
    pub fn item_count(&self) -> (n: usize)
        ensures
            n == self@.items.len(),
    {
        self.items.len()
    }

    /// The item at `index`.
    pub fn item_at(&self, index: usize) -> (item: &String)
        requires
            index < self@.items.len(),
        ensures
            item@ == self@.items[index as int],
    {
        &self.items[index]
    }

    /// The uncommitted buffer.
    pub fn input_buffer(&self) -> (buffer: &String)
        ensures
            buffer@ == self@.buffer,
    {
        &self.input_text
    }

    /// Whether the input region holds keyboard focus.
    pub fn is_focused(&self) -> (focused: bool)
        ensures
            focused == self@.focused,
    {
        self.is_focused
    }
}

/// One rendered row: the item's text and a red delete control bound to the
/// row's index as it stood at render time.
pub struct TodoRow {
    pub text: String,
    pub delete_index: usize,
    pub delete_label: String,
    pub delete_color: u32,
}

/// The todo view's whole screen, as plain values: a header, the input region's
/// text and color, one row per item, and the empty-state message when there
/// are no items.
pub struct TodoScreen {
    pub header: String,
    pub input_text: String,
    pub input_color: u32,
    pub input_border_color: u32,
    pub rows: Vec<TodoRow>,
    pub empty_message: Option<String>,
}

/// Whether the input region shows its placeholder: only while the buffer is
/// empty and the region is not focused.
pub open spec fn shows_placeholder(state: TodoView) -> bool {
    state.buffer.len() == 0 && !state.focused
}

/// What the input region displays: the placeholder when it applies, otherwise
/// the buffer itself, with a trailing caret glyph while focused. The caret is
/// a rendering affordance only; it is never part of the stored buffer.
pub open spec fn input_display(state: TodoView) -> Seq<char> {
    if shows_placeholder(state) {
        "Type and press Enter..."@
    } else if state.focused {
        state.buffer.push('|')
    } else {
        state.buffer
    }
}

impl TodoList {
    /// Renders the state to a screen: a header, the input region (muted
    /// placeholder, or the buffer with a caret while focused), one row per
    /// item whose delete control carries that row's index, and the
    /// empty-state message exactly when there are no items.
    pub fn render(&self) -> (screen: TodoScreen)
        ensures
            screen.header@ == "Todo List"@,
            screen.input_text@ == input_display(self@),
            screen.input_color == if shows_placeholder(self@) {
                color::GRAY
            } else {
                color::WHITE
            },
            screen.input_border_color == color::BLUE,
            screen.rows@.len() == self@.items.len(),
            forall|i: int|
                0 <= i < screen.rows@.len() ==> screen.rows@[i].text@ == self@.items[i]
                    && screen.rows@[i].delete_index == i && screen.rows@[i].delete_label@
                    == "Delete"@ && screen.rows@[i].delete_color == color::RED,
            (screen.empty_message is Some) <==> self@.items.len() == 0,
            (screen.empty_message matches Some(message) ==> message@
                == "No todos yet. Type something and press Enter!"@),
    {
        let buffer_empty = self.input_text.as_str().is_empty();
        let show_placeholder = buffer_empty && !self.is_focused;
        let input_text = if show_placeholder {
            String::from_str("Type and press Enter...")
        } else if self.is_focused {
            let mut with_caret = self.input_text.clone();
            push_char(&mut with_caret, '|');
            with_caret
        } else {
            self.input_text.clone()
        };
        let input_color = if show_placeholder {
            color::GRAY
        } else {
            color::WHITE
        };

        let mut rows: Vec<TodoRow> = Vec::new();
        let mut i: usize = 0;
        while i < self.items.len()
            invariant
                i <= self.items@.len(),
                rows@.len() == i,
                forall|j: int|
                    0 <= j < i ==> rows@[j].text@ == self@.items[j] && rows@[j].delete_index == j
                        && rows@[j].delete_label@ == "Delete"@ && rows@[j].delete_color
                        == color::RED,
            decreases self.items@.len() - i,
        {
            let text = self.items[i].clone();
            rows.push(
                TodoRow {
                    text,
                    delete_index: i,
                    delete_label: String::from_str("Delete"),
                    delete_color: color::RED,
                },
            );
            proof {
                assert(rows@[i as int].text@ == self@.items[i as int]);
                assert(forall|j: int| 0 <= j < i ==> rows@[j] == rows@.drop_last()[j]);
            }
            i = i + 1;
        }

        let empty_message = if self.items.len() == 0 {
            Some(String::from_str("No todos yet. Type something and press Enter!"))
        } else {
            None
        };

        TodoScreen {
            header: String::from_str("Todo List"),
            input_text,
            input_color,
            input_border_color: color::BLUE,
            rows,
            empty_message,
        }
    }
}

/// The state after a whole sequence of keystrokes.
pub open spec fn key_transitions(state: TodoView, events: Seq<KeyEvent>) -> TodoView
    decreases events.len(),
{
    if events.len() == 0 {
        state
    } else {
        key_transitions(key_transition(state, events[0]), events.skip(1))
    }
}

/// Whether the keystroke types exactly the character `c` into the buffer: the
/// character's own key without control, or the space key for a space.
pub open spec fn types_char(event: KeyEvent, c: char) -> bool {
    ||| (event.key matches Key::Character(k) && k == c && !event.control)
    ||| (event.key is Space && c == ' ')
}

/// Typing never touches the items or the focus, and appends exactly the typed
/// characters to the buffer, in order.
pub proof fn lemma_typing_appends(state: TodoView, events: Seq<KeyEvent>, cs: Seq<char>)
    requires
        events.len() == cs.len(),
        forall|i: int| 0 <= i < events.len() ==> types_char(events[i], cs[i]),
    ensures
        key_transitions(state, events).items == state.items,
        key_transitions(state, events).buffer == state.buffer + cs,
        key_transitions(state, events).focused == state.focused,
    decreases events.len(),
{
    if events.len() == 0 {
        assert(state.buffer + cs =~= state.buffer);
    } else {
        let next = key_transition(state, events[0]);
        assert(types_char(events[0], cs[0]));
        assert(next.buffer == state.buffer.push(cs[0]));
        lemma_typing_appends(next, events.skip(1), cs.skip(1));
        assert(state.buffer.push(cs[0]) + cs.skip(1) =~= state.buffer + cs);
    }
}

/// Typing a string character by character into an empty buffer and then
/// committing appends exactly the concatenation of the typed characters
/// (spaces included) to the items, and leaves the buffer empty.
pub proof fn lemma_type_then_commit(
    state: TodoView,
    events: Seq<KeyEvent>,
    cs: Seq<char>,
    commit: KeyEvent,
)
    requires
        state.buffer.len() == 0,
        events.len() == cs.len(),
        cs.len() > 0,
        forall|i: int| 0 <= i < events.len() ==> types_char(events[i], cs[i]),
        commit.key is Enter,
    ensures
        key_transition(key_transitions(state, events), commit).items == state.items.push(cs),
        key_transition(key_transitions(state, events), commit).buffer.len() == 0,
{
    lemma_typing_appends(state, events, cs);
    let typed = key_transitions(state, events);
    assert(typed.buffer =~= cs);
}

/// Committing with an empty buffer changes nothing: in particular, the number
/// of items stays exactly what it was, and no item is appended.
pub proof fn lemma_commit_on_empty_buffer(state: TodoView, event: KeyEvent)
    requires
        state.buffer.len() == 0,
        event.key is Enter,
    ensures
        key_transition(state, event) == state,
        key_transition(state, event).items.len() == state.items.len(),
{
}

/// A keystroke that does not mark the view dirty changes nothing at all: an
/// ignored key asks for no redraw and performs no mutation.
pub proof fn lemma_ignored_key_is_noop(state: TodoView, event: KeyEvent)
    requires
        !key_marks_dirty(state, event),
    ensures
        key_transition(state, event) == state,
{
}

} // verus!
