//! The state of one picker session and what each key does to it.
//!
//! The program around this library draws the session, waits for one event,
//! hands it to [`Session::handle_event`], and goes on or leaves as the
//! returned [`Outcome`] says.

use crate::selection::{labels, ListModel, SelectionList};
use crate::text::{popped, TextBuffer};
use vstd::prelude::*;

verus! {

/// A key, as far as the session tells keys apart.
#[derive(Clone, Copy, Debug, PartialEq, Eq)]
pub enum Key {
    /// A key that types the character.
    Char(char),
    Backspace,
    Enter,
    Up,
    Down,
    Esc,
    /// Any other key.
    Other,
}

/// One thing that happened at the terminal.
#[derive(Clone, Copy, Debug, PartialEq, Eq)]
pub enum Event {
    /// A key was pressed.
    Key(Key),
    /// Anything else: a resize, the mouse, a change of focus.
    Other,
}

/// What follows an event.
#[derive(Clone, Copy, Debug, PartialEq, Eq)]
pub enum Outcome {
    /// The session goes on: draw it again and wait for the next event.
    Continue,
    /// The user confirmed; the session is over.
    Confirm,
    /// The user cancelled; the session is over.
    Cancel,
}

/// Mathematical model of a session.
pub struct SessionModel {
    pub languages: ListModel,
    pub architectures: ListModel,
    pub zip_name: Seq<char>,
}

impl SessionModel {
    /// The session at its start: one language, two architectures, nothing
    /// highlighted, no archive name.
    pub open spec fn initial() -> SessionModel {
        SessionModel {
            languages: ListModel { items: seq!["Python"@], selected: None },
            architectures: ListModel { items: seq!["arm64"@, "x86_64"@], selected: None },
            zip_name: Seq::empty(),
        }
    }

    /// Both lists have their highlight, if any, on one of their labels.
    pub open spec fn wf(self) -> bool {
        self.languages.wf() && self.architectures.wf()
    }

    /// The session after `key`: a character is appended to the archive name,
    /// backspace removes its last character, up and down move the highlight
    /// of the architecture list. No key changes anything else; the language
    /// list in particular is shown and never moved.
    pub open spec fn after_key(self, key: Key) -> SessionModel {
        match key {
            Key::Char(c) => SessionModel { zip_name: self.zip_name.push(c), ..self },
            Key::Backspace => SessionModel { zip_name: popped(self.zip_name), ..self },
            Key::Up => SessionModel { architectures: self.architectures.previous(), ..self },
            Key::Down => SessionModel { architectures: self.architectures.next(), ..self },
            Key::Enter | Key::Esc | Key::Other => self,
        }
    }

    /// The session after `event`: only keys change it.
    pub open spec fn after_event(self, event: Event) -> SessionModel {
        match event {
            Event::Key(key) => self.after_key(key),
            Event::Other => self,
        }
    }
}

/// What follows `key`: enter confirms, escape cancels, after every other key
/// the session goes on.
pub open spec fn outcome_of_key(key: Key) -> Outcome {
    match key {
        Key::Enter => Outcome::Confirm,
        Key::Esc => Outcome::Cancel,
        _ => Outcome::Continue,
    }
}

/// What follows `event`: only a key can end the session.
pub open spec fn outcome_of_event(event: Event) -> Outcome {
    match event {
        Event::Key(key) => outcome_of_key(key),
        Event::Other => Outcome::Continue,
    }
}

/// The two selection lists and the archive name of one run of the picker.
#[derive(Debug)]
pub struct Session {
    languages: SelectionList,
    architectures: SelectionList,
    zip_name: TextBuffer,
}

impl View for Session {
    type V = SessionModel;

    closed spec fn view(&self) -> SessionModel {
        SessionModel {
            languages: self.languages@,
            architectures: self.architectures@,
            zip_name: self.zip_name@,
        }
    }
}

impl Session {
    /// A session at its start.
    pub fn new() -> (session: Session)
        ensures
            session@ == SessionModel::initial(),
            session@.wf(),
    {
        let languages: Vec<String> = vec!["Python".to_owned()];
        let architectures: Vec<String> = vec!["arm64".to_owned(), "x86_64".to_owned()];
        assert(labels(languages@) =~= seq!["Python"@]);
        assert(labels(architectures@) =~= seq!["arm64"@, "x86_64"@]);
        Session {
            languages: SelectionList::with_items(languages),
            architectures: SelectionList::with_items(architectures),
            zip_name: TextBuffer::new(),
        }
    }

    /// The language list.
    pub fn languages(&self) -> (list: &SelectionList)
        ensures
            list@ == self@.languages,
    {
        &self.languages
    }

    /// The architecture list.
    pub fn architectures(&self) -> (list: &SelectionList)
        ensures
            list@ == self@.architectures,
    {
        &self.architectures
    }

    /// The archive name typed so far.
    pub fn zip_name(&self) -> (text: &TextBuffer)
        ensures
            text@ == self@.zip_name,
    {
        &self.zip_name
    }

    /// Applies `key` to the session and says what follows.
    pub fn handle_key(&mut self, key: Key) -> (outcome: Outcome)
        ensures
            final(self)@ == old(self)@.after_key(key),
            outcome == outcome_of_key(key),
            final(self)@.wf(),
    {
        proof {
            use_type_invariant(&self.languages);
            use_type_invariant(&self.architectures);
        }
        match key {
            Key::Char(c) => {
                self.zip_name.push(c);
                Outcome::Continue
            },
            Key::Backspace => {
                self.zip_name.pop();
                Outcome::Continue
            },
            Key::Up => {
                self.architectures.previous();
                Outcome::Continue
            },
            Key::Down => {
                self.architectures.next();
                Outcome::Continue
            },
            Key::Enter => Outcome::Confirm,
            Key::Esc => Outcome::Cancel,
            Key::Other => Outcome::Continue,
        }
    }

    /// Applies `event` to the session and says what follows.
    pub fn handle_event(&mut self, event: Event) -> (outcome: Outcome)
        ensures
            final(self)@ == old(self)@.after_event(event),
            outcome == outcome_of_event(event),
            final(self)@.wf(),
    {
        match event {
            Event::Key(key) => self.handle_key(key),
            Event::Other => {
                proof {
                    use_type_invariant(&self.languages);
                    use_type_invariant(&self.architectures);
                }
                Outcome::Continue
            },
        }
    }
}

} // verus!
