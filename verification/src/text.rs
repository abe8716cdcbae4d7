//! The text field in which the name of the output archive is typed.

use vstd::prelude::*;

verus! {

/// `std`'s `String::push`: the string afterwards is the string before with
/// `ch` appended as its last character. Assumed from the documentation of
/// `std`, not proved.
pub assume_specification[ String::push ](s: &mut String, ch: char)
    ensures
        final(s)@ == old(s)@.push(ch),
;

/// `std`'s `String::pop`: on an empty string it returns `None` and leaves the
/// string empty; otherwise it removes the last character and returns it.
/// Assumed from the documentation of `std`, not proved.
pub assume_specification[ String::pop ](s: &mut String) -> (last: Option<char>)
    ensures
        old(s)@.len() == 0 ==> last is None && final(s)@ == old(s)@,
        old(s)@.len() > 0 ==> last == Some(old(s)@.last()) && final(s)@ == old(s)@.drop_last(),
;

/// The text after a backspace: without its last character, or still empty.
pub open spec fn popped(text: Seq<char>) -> Seq<char> {
    if text.len() == 0 {
        text
    } else {
        text.drop_last()
    }
}

/// The text after `n` backspaces.
pub open spec fn popped_n(text: Seq<char>, n: nat) -> Seq<char>
    decreases n,
{
    if n == 0 {
        text
    } else {
        popped(popped_n(text, (n - 1) as nat))
    }
}

/// The text after typing the characters of `typed` one by one.
pub open spec fn pushed_all(text: Seq<char>, typed: Seq<char>) -> Seq<char>
    decreases typed.len(),
{
    if typed.len() == 0 {
        text
    } else {
        pushed_all(text, typed.drop_last()).push(typed.last())
    }
}

/// Typing one character after another is appending them all.
pub proof fn lemma_pushed_all_appends(text: Seq<char>, typed: Seq<char>)
    ensures
        pushed_all(text, typed) == text + typed,
    decreases typed.len(),
{
    if typed.len() > 0 {
        lemma_pushed_all_appends(text, typed.drop_last());
        assert(text + typed =~= (text + typed.drop_last()).push(typed.last()));
    }
}

/// `n` backspaces remove the last `n` characters, or all of them if there
/// are fewer.
pub proof fn lemma_popped_n_truncates(text: Seq<char>, n: nat)
    ensures
        popped_n(text, n) == if n <= text.len() {
            text.take(text.len() - n)
        } else {
            Seq::<char>::empty()
        },
    decreases n,
{
    if n > 0 {
        lemma_popped_n_truncates(text, (n - 1) as nat);
        if n <= text.len() {
            assert(text.take(text.len() - n + 1).drop_last() =~= text.take(text.len() - n));
        }
    }
}

/// Typing any characters and then pressing backspace once for each of them
/// gives back the text from before; starting from the empty text, it is empty
/// again.
pub proof fn lemma_pops_undo_pushes(text: Seq<char>, typed: Seq<char>)
    ensures
        popped_n(pushed_all(text, typed), typed.len()) == text,
        popped_n(pushed_all(Seq::<char>::empty(), typed), typed.len()) == Seq::<char>::empty(),
{
    lemma_pushed_all_appends(text, typed);
    lemma_popped_n_truncates(text + typed, typed.len());
    assert((text + typed).take(text.len() as int) =~= text);
    let empty = Seq::<char>::empty();
    lemma_pushed_all_appends(empty, typed);
    lemma_popped_n_truncates(empty + typed, typed.len());
}

/// A line of text that grows and shrinks at its end.
#[derive(Debug)]
pub struct TextBuffer {
    content: String,
}

impl View for TextBuffer {
    type V = Seq<char>;

    closed spec fn view(&self) -> Seq<char> {
        self.content@
    }
}

impl TextBuffer {
    /// The empty text.
    pub fn new() -> (buffer: TextBuffer)
        ensures
            buffer@ == Seq::<char>::empty(),
    {
        TextBuffer { content: String::new() }
    }

    /// Appends `c` at the end.
    pub fn push(&mut self, c: char)
        ensures
            final(self)@ == old(self)@.push(c),
    {
        self.content.push(c);
    }

    /// Removes the last character and returns it; on the empty text, does
    /// nothing and returns `None`.
    pub fn pop(&mut self) -> (removed: Option<char>)
        ensures
            final(self)@ == popped(old(self)@),
            removed == if old(self)@.len() == 0 {
                None
            } else {
                Some(old(self)@.last())
            },
    {
        self.content.pop()
    }

    /// The text as a string slice.
    pub fn as_str(&self) -> (text: &str)
        ensures
            text@ == self@,
    {
        self.content.as_str()
    }
}

} // verus!
