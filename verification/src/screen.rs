//! What one frame shows: for each of the four panels its title, its place
//! and its content.
//!
//! Nothing is drawn here. The program around this library scans the
//! directory, asks for the frame, and paints it.

use crate::layout::{Area, PanelAreas};
use crate::selection::labels;
use crate::session::Session;
use vstd::prelude::*;

verus! {

/// The title of the language panel.
pub const LANGUAGE_TITLE: &'static str = "Language";

/// The title of the panel that lists the `.txt` files.
pub const FILES_TITLE: &'static str = "Txt Files";

/// The title of the architecture panel.
pub const ARCHITECTURE_TITLE: &'static str = "Architecture";

/// The title of the panel that shows the archive name.
pub const ZIP_NAME_TITLE: &'static str = "Zip Name";

/// The marker drawn in front of a highlighted label.
pub const HIGHLIGHT_SYMBOL: &'static str = ">> ";

/// A bordered panel that shows a list of labels.
#[derive(Debug)]
pub struct ListPanel<'a> {
    pub title: &'static str,
    pub area: Area,
    pub items: &'a Vec<String>,
    /// The position of the label to draw highlighted, if any.
    pub selected: Option<usize>,
}

/// A bordered panel that shows one line of text.
#[derive(Debug)]
pub struct TextPanel<'a> {
    pub title: &'static str,
    pub area: Area,
    pub text: &'a str,
}

/// The four panels of one frame.
#[derive(Debug)]
pub struct Screen<'a> {
    pub language: ListPanel<'a>,
    pub files: ListPanel<'a>,
    pub architecture: ListPanel<'a>,
    pub zip_name: TextPanel<'a>,
}

impl<'a> ListPanel<'a> {
    /// The panel has this title and place, lists these labels, and
    /// highlights this position.
    pub open spec fn shows(
        self,
        title: Seq<char>,
        area: Area,
        items: Seq<Seq<char>>,
        selected: Option<int>,
    ) -> bool {
        &&& self.title@ == title
        &&& self.area == area
        &&& labels(self.items@) == items
        &&& selected == match self.selected {
            Some(i) => Some(i as int),
            None => None,
        }
    }
}

impl<'a> TextPanel<'a> {
    /// The panel has this title and place and shows this text.
    pub open spec fn shows(self, title: Seq<char>, area: Area, text: Seq<char>) -> bool {
        &&& self.title@ == title
        &&& self.area == area
        &&& self.text@ == text
    }
}

/// The frame for `session` with the file list `files`, laid out on `areas`:
/// the language list and the architecture list with their highlights, the
/// files without any, and the archive name as typed so far.
pub fn compose<'a>(session: &'a Session, files: &'a Vec<String>, areas: PanelAreas) -> (screen:
    Screen<'a>)
    ensures
        screen.language.shows(
            LANGUAGE_TITLE@,
            areas.language,
            session@.languages.items,
            session@.languages.selected,
        ),
        screen.files.shows(FILES_TITLE@, areas.files, labels(files@), None),
        screen.architecture.shows(
            ARCHITECTURE_TITLE@,
            areas.architecture,
            session@.architectures.items,
            session@.architectures.selected,
        ),
        screen.zip_name.shows(ZIP_NAME_TITLE@, areas.zip_name, session@.zip_name),
        screen.language.selected matches Some(i) ==> i < screen.language.items@.len(),
        screen.architecture.selected matches Some(i) ==> i < screen.architecture.items@.len(),
{
    let languages = session.languages();
    let architectures = session.architectures();
    Screen {
        language: ListPanel {
            title: LANGUAGE_TITLE,
            area: areas.language,
            items: languages.items(),
            selected: languages.selected(),
        },
        files: ListPanel { title: FILES_TITLE, area: areas.files, items: files, selected: None },
        architecture: ListPanel {
            title: ARCHITECTURE_TITLE,
            area: areas.architecture,
            items: architectures.items(),
            selected: architectures.selected(),
        },
        zip_name: TextPanel {
            title: ZIP_NAME_TITLE,
            area: areas.zip_name,
            text: session.zip_name().as_str(),
        },
    }
}

} // verus!
