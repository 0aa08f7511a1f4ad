//! The text-capture widget: one or more labeled single-line text fields
//! with field-to-field focus rotation. The buffers themselves are
//! `tui_input::Input` values; what this module relies on of that crate is
//! stated on the trusted wrappers below, and everything built on top of
//! them is verified.

use vstd::prelude::*;
use crate::keys::InputKey;

verus! {

#[verifier::external_type_specification]
#[verifier::external_body]
pub struct ExInput(tui_input::Input);

/// The characters a text buffer holds.
pub uninterp spec fn input_chars(i: tui_input::Input) -> Seq<char>;

/// The buffer's cursor: how many characters precede it.
pub uninterp spec fn input_cursor(i: tui_input::Input) -> int;

/// A buffer is coherent when its cursor lies within its text. Every
/// wrapper below returns or leaves a coherent buffer.
pub open spec fn input_ok(i: tui_input::Input) -> bool {
    0 <= input_cursor(i) <= input_chars(i).len()
}

/// Relies on `tui_input::Input::default`: a fresh buffer is empty with the
/// cursor at the start.
#[verifier::external_body]
fn input_new() -> (r: tui_input::Input)
    ensures
        input_chars(r) == Seq::<char>::empty(),
        input_cursor(r) == 0,
{
    tui_input::Input::default()
}

/// Relies on `tui_input::Input::value`: the buffer's current text.
#[verifier::external_body]
fn input_value(i: &tui_input::Input) -> (r: String)
    ensures
        r@ == input_chars(*i),
{
    i.value().to_owned()
}

/// Relies on `tui_input::Input::cursor`: the buffer's cursor position,
/// which its operations keep within the text.
#[verifier::external_body]
fn input_cursor_pos(i: &tui_input::Input) -> (r: usize)
    ensures
        r as int == input_cursor(*i),
        r as int <= input_chars(*i).len(),
{
    i.cursor()
}

/// Relies on `tui_input::Input::handle` with `InsertChar`: the character
/// enters at the cursor, and the cursor moves past it.
#[verifier::external_body]
fn input_insert(i: &mut tui_input::Input, c: char)
    ensures
        input_ok(*final(i)),
        input_ok(*old(i)) ==> input_chars(*final(i)) == input_chars(*old(i)).insert(
            input_cursor(*old(i)),
            c,
        ) && input_cursor(*final(i)) == input_cursor(*old(i)) + 1,
{
    i.handle(tui_input::InputRequest::InsertChar(c));
}

/// Relies on `tui_input::Input::handle` with `DeletePrevChar`: with the
/// cursor at the start nothing changes; otherwise one grapheme — one or
/// more characters just before the cursor — is removed and the cursor
/// moves back over it.
#[verifier::external_body]
fn input_delete_prev(i: &mut tui_input::Input)
    ensures
        input_ok(*final(i)),
        input_ok(*old(i)) && input_cursor(*old(i)) == 0 ==> input_chars(*final(i))
            == input_chars(*old(i)) && input_cursor(*final(i)) == 0,
        input_ok(*old(i)) && input_cursor(*old(i)) > 0 ==> 0 <= input_cursor(*final(i))
            < input_cursor(*old(i)) && input_chars(*final(i)) == input_chars(*old(i)).subrange(
            0,
            input_cursor(*final(i)),
        ) + input_chars(*old(i)).skip(input_cursor(*old(i))),
{
    i.handle(tui_input::InputRequest::DeletePrevChar);
}

/// Relies on `tui_input::Input::handle` with `GoToPrevChar`: the text is
/// untouched; the cursor steps back one grapheme, or stays at the start.
#[verifier::external_body]
fn input_move_left(i: &mut tui_input::Input)
    ensures
        input_ok(*final(i)),
        input_chars(*final(i)) == input_chars(*old(i)),
        input_ok(*old(i)) ==> input_cursor(*final(i)) <= input_cursor(*old(i)),
        input_ok(*old(i)) && input_cursor(*old(i)) == 0 ==> input_cursor(*final(i)) == 0,
{
    i.handle(tui_input::InputRequest::GoToPrevChar);
}

/// Relies on `tui_input::Input::handle` with `GoToNextChar`: the text is
/// untouched; the cursor steps forward one grapheme, or stays at the end.
#[verifier::external_body]
fn input_move_right(i: &mut tui_input::Input)
    ensures
        input_ok(*final(i)),
        input_chars(*final(i)) == input_chars(*old(i)),
        input_ok(*old(i)) ==> input_cursor(*final(i)) >= input_cursor(*old(i)),
        input_ok(*old(i)) && input_cursor(*old(i)) == input_chars(*old(i)).len() as int
            ==> input_cursor(*final(i)) == input_cursor(*old(i)),
{
    i.handle(tui_input::InputRequest::GoToNextChar);
}

/// Relies on `tui_input::Input::handle` with `GoToStart`: the text is
/// untouched and the cursor lands at the start.
#[verifier::external_body]
fn input_move_start(i: &mut tui_input::Input)
    ensures
        input_ok(*final(i)),
        input_chars(*final(i)) == input_chars(*old(i)),
        input_cursor(*final(i)) == 0,
{
    i.handle(tui_input::InputRequest::GoToStart);
}

/// Relies on `tui_input::Input::handle` with `GoToEnd`: the text is
/// untouched and the cursor lands after its last character.
#[verifier::external_body]
fn input_move_end(i: &mut tui_input::Input)
    ensures
        input_ok(*final(i)),
        input_chars(*final(i)) == input_chars(*old(i)),
        input_cursor(*final(i)) == input_chars(*old(i)).len() as int,
{
    i.handle(tui_input::InputRequest::GoToEnd);
}

/// Marker for the widget's rendering; it carries no state of its own.
pub struct MultiInput {}

/// One labeled text field.
pub struct InputBox {
    pub prompt: String,
    pub handler: tui_input::Input,
}

impl InputBox {
    fn new(prompt: String) -> (r: Self)
        ensures
            r.prompt == prompt,
            input_chars(r.handler) == Seq::<char>::empty(),
            input_cursor(r.handler) == 0,
    {
        Self { prompt, handler: input_new() }
    }
}

/// The widget's state: a title, the ordered fields, and which field holds
/// the focus.
pub struct MultiInputState {
    pub title: String,
    pub boxes: Vec<InputBox>,
    pub idx: usize,
}

/// How one key transforms the widget, in full: `Esc` and `Enter` close it
/// untouched, `Tab` rotates the focus and keeps every buffer, a character
/// enters the focused buffer at its cursor, backspace removes one grapheme
/// before it, the cursor keys move within it, and every other key does
/// nothing. Buffers other than the focused one always persist.
pub open spec fn handle_event_post(
    pre: MultiInputState,
    post: MultiInputState,
    k: InputKey,
    close: bool,
) -> bool {
    &&& post.wf()
    &&& post.title == pre.title
    &&& post.boxes@.len() == pre.boxes@.len()
    &&& (forall|i: int|
        0 <= i < pre.boxes@.len() ==> #[trigger] post.boxes@[i].prompt == pre.boxes@[i].prompt)
    &&& (close <==> (k == InputKey::Esc || k == InputKey::Enter))
    &&& (forall|i: int|
        0 <= i < pre.boxes@.len() && i != pre.idx ==> #[trigger] post.contents()[i]
            == pre.contents()[i])
    &&& ((k == InputKey::Esc || k == InputKey::Enter || k == InputKey::Up || k == InputKey::Down
        || k == InputKey::Other) ==> post.boxes == pre.boxes && post.idx == pre.idx)
    &&& (k == InputKey::Tab ==> post.contents() == pre.contents() && (pre.boxes@.len() <= 1
        ==> post.idx == pre.idx) && (pre.boxes@.len() > 1 && pre.idx + 1 < pre.boxes@.len()
        ==> post.idx == pre.idx + 1) && (pre.boxes@.len() > 1 && pre.idx + 1
        == pre.boxes@.len() ==> post.idx == 0))
    &&& (k != InputKey::Tab ==> post.idx == pre.idx)
    &&& (k matches InputKey::Char(c) ==> post.contents()[pre.idx as int]
        == pre.contents()[pre.idx as int].insert(pre.cursor_of(pre.idx as int), c)
        && post.cursor_of(pre.idx as int) == pre.cursor_of(pre.idx as int) + 1)
    &&& (k == InputKey::Backspace && pre.cursor_of(pre.idx as int) > 0 ==> 0 <= post.cursor_of(
        pre.idx as int,
    ) < pre.cursor_of(pre.idx as int) && post.contents()[pre.idx as int]
        == pre.contents()[pre.idx as int].subrange(0, post.cursor_of(pre.idx as int))
        + pre.contents()[pre.idx as int].skip(pre.cursor_of(pre.idx as int)))
    &&& ((k == InputKey::Left || k == InputKey::Right || k == InputKey::Home || k
        == InputKey::End || k == InputKey::Backspace && pre.cursor_of(pre.idx as int) == 0)
        ==> post.contents() == pre.contents())
    &&& (k == InputKey::Home ==> post.cursor_of(pre.idx as int) == 0)
    &&& (k == InputKey::End ==> post.cursor_of(pre.idx as int)
        == pre.contents()[pre.idx as int].len() as int)
}

impl MultiInputState {
    /// The focus always rests on a field, and every buffer is coherent.
    pub open spec fn wf(&self) -> bool {
        &&& self.idx < self.boxes@.len()
        &&& forall|i: int| 0 <= i < self.boxes@.len() ==> input_ok(#[trigger] self.boxes@[i].handler)
    }

    /// What each field holds, in field order.
    pub open spec fn contents(&self) -> Seq<Seq<char>> {
        Seq::new(self.boxes@.len(), |i: int| input_chars(self.boxes@[i].handler))
    }

    /// The cursor of field `i`.
    pub open spec fn cursor_of(&self, i: int) -> int {
        input_cursor(self.boxes@[i].handler)
    }

    /// One empty field per prompt, with the focus on the first.
    pub fn new(title: String, input_prompts: Vec<String>) -> (r: MultiInputState)
        ensures
            r.title == title,
            r.idx == 0,
            r.boxes@.len() == input_prompts@.len(),
            forall|i: int|
                0 <= i < input_prompts@.len() ==> #[trigger] r.boxes@[i].prompt
                    == input_prompts@[i],
            forall|i: int|
                0 <= i < input_prompts@.len() ==> #[trigger] r.contents()[i] == Seq::<
                    char,
                >::empty(),
            forall|i: int| 0 <= i < input_prompts@.len() ==> #[trigger] r.cursor_of(i) == 0,
            input_prompts@.len() > 0 ==> r.wf(),
    {
        let ghost prompts = input_prompts@;
        let mut rest = input_prompts;
        let mut boxes: Vec<InputBox> = Vec::new();
        while rest.len() > 0
            invariant
                rest@.len() <= prompts.len(),
                rest@ =~= prompts.skip(prompts.len() - rest@.len()),
                boxes@.len() + rest@.len() == prompts.len(),
                forall|i: int|
                    0 <= i < boxes@.len() ==> #[trigger] boxes@[i].prompt == prompts[i]
                        && input_chars(boxes@[i].handler) == Seq::<char>::empty()
                        && input_cursor(boxes@[i].handler) == 0,
            decreases rest@.len(),
        {
            let ghost p = prompts.len() - rest@.len();
            let ghost rv = rest@;
            let prompt = rest.remove(0);
            proof {
                assert(rv[0] == prompts.skip(p as int)[0]);
                assert(rest@ =~= rv.skip(1));
                assert(rest@ =~= prompts.skip(p + 1));
            }
            boxes.push(InputBox::new(prompt));
        }
        let r = MultiInputState { title, boxes, idx: 0 };
        proof {
            assert forall|i: int| 0 <= i < input_prompts@.len() implies #[trigger] r.contents()[i]
                == Seq::<char>::empty() by {
                assert(r.boxes@[i].prompt == prompts[i]);
                assert(r.contents()[i] == input_chars(r.boxes@[i].handler));
            }
            assert forall|i: int| 0 <= i < input_prompts@.len() implies #[trigger] r.cursor_of(i)
                == 0 by {
                assert(r.boxes@[i].prompt == prompts[i]);
            }
            assert forall|i: int| 0 <= i < r.boxes@.len() implies input_ok(
                #[trigger] r.boxes@[i].handler,
            ) by {
                assert(r.boxes@[i].prompt == prompts[i]);
                assert(input_chars(r.boxes@[i].handler) == Seq::<char>::empty());
            }
        }
        r
    }

    /// Rotates the focus to the next field, wrapping to the first; with a
    /// single field nothing moves.
    pub fn next_box(&mut self)
        requires
            old(self).wf(),
        ensures
            final(self).wf(),
            final(self).title == old(self).title,
            final(self).boxes == old(self).boxes,
            old(self).boxes@.len() <= 1 ==> final(self).idx == old(self).idx,
            old(self).boxes@.len() > 1 && old(self).idx + 1 < old(self).boxes@.len()
                ==> final(self).idx == old(self).idx + 1,
            old(self).boxes@.len() > 1 && old(self).idx + 1 == old(self).boxes@.len()
                ==> final(self).idx == 0,
    {
        if self.boxes.len() <= 1 {
            return ;
        }
        if self.idx == self.boxes.len() - 1 {
            self.idx = 0;
        } else {
            self.idx = self.idx + 1;
        }
    }

    /// Routes one key: `Esc` and `Enter` close the widget untouched, `Tab`
    /// rotates the focus, editing keys act on the focused buffer, and
    /// every other key does nothing. Buffers other than the focused one
    /// always persist. The whole transformation is `handle_event_post`.
    pub fn handle_event(&mut self, k: &InputKey) -> (close: bool)
        requires
            old(self).wf(),
        ensures
            handle_event_post(*old(self), *final(self), *k, close),
    {
        match k {
            InputKey::Esc => true,
            InputKey::Enter => true,
            InputKey::Tab => {
                self.next_box();
                proof {
                    assert(final(self).contents() =~= old(self).contents());
                }
                false
            },
            InputKey::Char(c) => {
                let idx = self.idx;
                let b = &mut self.boxes[idx].handler;
                input_insert(b, *c);
                proof {
                    assert(forall|i: int|
                        0 <= i < final(self).boxes@.len() && i != old(self).idx
                            ==> #[trigger] final(self).boxes@[i] == old(self).boxes@[i]);
                }
                false
            },
            InputKey::Backspace => {
                let idx = self.idx;
                let b = &mut self.boxes[idx].handler;
                input_delete_prev(b);
                proof {
                    if old(self).cursor_of(old(self).idx as int) == 0 {
                        assert(final(self).contents() =~= old(self).contents());
                    }
                }
                false
            },
            InputKey::Left => {
                let idx = self.idx;
                let b = &mut self.boxes[idx].handler;
                input_move_left(b);
                proof {
                    assert(final(self).contents() =~= old(self).contents());
                }
                false
            },
            InputKey::Right => {
                let idx = self.idx;
                let b = &mut self.boxes[idx].handler;
                input_move_right(b);
                proof {
                    assert(final(self).contents() =~= old(self).contents());
                }
                false
            },
            InputKey::Home => {
                let idx = self.idx;
                let b = &mut self.boxes[idx].handler;
                input_move_start(b);
                proof {
                    assert(final(self).contents() =~= old(self).contents());
                }
                false
            },
            InputKey::End => {
                let idx = self.idx;
                let b = &mut self.boxes[idx].handler;
                input_move_end(b);
                proof {
                    assert(final(self).contents() =~= old(self).contents());
                }
                false
            },
            InputKey::Up => false,
            InputKey::Down => false,
            InputKey::Other => false,
        }
    }

    /// The text of field `idx`.
    pub fn get_content_at(&self, idx: usize) -> (r: String)
        requires
            idx < self.boxes@.len(),
        ensures
            r@ == self.contents()[idx as int],
    {
        input_value(&self.boxes[idx].handler)
    }

    /// The cursor of field `idx`, for rendering.
    pub fn cursor_at(&self, idx: usize) -> (r: usize)
        requires
            idx < self.boxes@.len(),
        ensures
            r as int == self.cursor_of(idx as int),
    {
        input_cursor_pos(&self.boxes[idx].handler)
    }

    /// How many fields the widget holds.
    pub fn field_count(&self) -> (r: usize)
        ensures
            r == self.boxes@.len(),
    {
        self.boxes.len()
    }

    /// The prompt of field `idx`, for rendering.
    pub fn prompt_at(&self, idx: usize) -> (r: String)
        requires
            idx < self.boxes@.len(),
        ensures
            r@ == self.boxes@[idx as int].prompt@,
    {
        self.boxes[idx].prompt.clone()
    }

    /// The index of the focused field.
    pub fn focused(&self) -> (r: usize)
        ensures
            r == self.idx,
    {
        self.idx
    }
}

} // verus!
