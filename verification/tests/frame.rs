use term_picker::layout::{Area, PanelAreas};
use term_picker::screen::{
    compose, ARCHITECTURE_TITLE, FILES_TITLE, HIGHLIGHT_SYMBOL, LANGUAGE_TITLE, ZIP_NAME_TITLE,
};
use term_picker::session::{Key, Session};

fn areas() -> PanelAreas {
    PanelAreas {
        language: Area { x: 0, y: 0, width: 20, height: 40 },
        files: Area { x: 20, y: 0, width: 50, height: 40 },
        architecture: Area { x: 70, y: 0, width: 30, height: 20 },
        zip_name: Area { x: 70, y: 20, width: 30, height: 20 },
    }
}

#[test]
fn titles_and_marker() {
    assert_eq!(LANGUAGE_TITLE, "Language");
    assert_eq!(FILES_TITLE, "Txt Files");
    assert_eq!(ARCHITECTURE_TITLE, "Architecture");
    assert_eq!(ZIP_NAME_TITLE, "Zip Name");
    assert_eq!(HIGHLIGHT_SYMBOL, ">> ");
}

#[test]
fn first_frame_shows_lists_without_highlight_and_no_name() {
    let session = Session::new();
    let files = vec!["a.txt".to_string(), "b.txt".to_string()];
    let screen = compose(&session, &files, areas());

    assert_eq!(screen.language.title, "Language");
    assert_eq!(screen.language.area, areas().language);
    assert_eq!(screen.language.items, &vec!["Python".to_string()]);
    assert_eq!(screen.language.selected, None);

    assert_eq!(screen.files.title, "Txt Files");
    assert_eq!(screen.files.area, areas().files);
    assert_eq!(screen.files.items, &files);
    assert_eq!(screen.files.selected, None);

    assert_eq!(screen.architecture.title, "Architecture");
    assert_eq!(screen.architecture.area, areas().architecture);
    assert_eq!(screen.architecture.items, &vec!["arm64".to_string(), "x86_64".to_string()]);
    assert_eq!(screen.architecture.selected, None);

    assert_eq!(screen.zip_name.title, "Zip Name");
    assert_eq!(screen.zip_name.area, areas().zip_name);
    assert_eq!(screen.zip_name.text, "");
}

#[test]
fn frame_follows_the_session() {
    let mut session = Session::new();
    session.handle_key(Key::Down);
    session.handle_key(Key::Down);
    for c in "out".chars() {
        session.handle_key(Key::Char(c));
    }
    let files = Vec::new();
    let screen = compose(&session, &files, areas());
    assert_eq!(screen.architecture.selected, Some(1));
    assert_eq!(screen.language.selected, None);
    assert_eq!(screen.zip_name.text, "out");
    assert_eq!(screen.files.items, &Vec::<String>::new());
}

#[test]
fn file_panel_never_highlights() {
    let mut session = Session::new();
    let files = vec!["only.txt".to_string()];
    for key in [Key::Down, Key::Up, Key::Up, Key::Char('x'), Key::Backspace] {
        session.handle_key(key);
        let screen = compose(&session, &files, areas());
        assert_eq!(screen.files.selected, None);
        assert_eq!(screen.files.items, &files);
    }
}
