use here::colorize_ext::{Painted, Tint};
use here::report::{Notice, Piece};

const CRIMSON: Tint = Tint::TrueColor { r: 220, g: 20, b: 60 };
const GRAY: Tint = Tint::TrueColor { r: 128, g: 128, b: 128 };
const ORANGE: Tint = Tint::TrueColor { r: 255, g: 165, b: 0 };

fn piece(text: &str, tint: Tint) -> Painted {
    Painted { text: text.to_owned(), tint }
}

#[test]
fn search_term_required_names_the_argument() {
    let notice = Notice::SearchTermRequired;
    assert_eq!(notice.plain(), "[Error] Argument [PROGRAM SEARCH] is required");
    assert_eq!(
        notice.spans(),
        vec![
            piece("[Error]", CRIMSON),
            piece("Argument", GRAY),
            piece("[PROGRAM SEARCH]", Tint::White),
            piece("is", GRAY),
            piece("required", Tint::White),
        ]
    );
}

#[test]
fn not_found_names_the_term_in_quotes() {
    let notice = Notice::NotFound { term: "cargo".to_owned() };
    assert_eq!(notice.plain(), "[Error] Could not find \"cargo\"");
    assert_eq!(
        notice.spans(),
        vec![
            piece("[Error]", CRIMSON),
            piece("Could not find", GRAY),
            piece("\"cargo\"", Tint::White),
        ]
    );
}

#[test]
fn not_a_symlink_names_the_path() {
    let notice = Notice::NotSymlink { path: "/home/me".to_owned() };
    assert_eq!(notice.plain(), "[Warning] Path /home/me is not a symlink");
    assert_eq!(
        notice.spans(),
        vec![
            piece("[Warning]", ORANGE),
            piece("Path", GRAY),
            piece("/home/me", Tint::BrightWhite),
            piece("is", GRAY),
            piece("not a symlink", Tint::Cyan),
        ]
    );
}

#[test]
fn missing_link_names_the_path() {
    let notice = Notice::MissingLink { path: "/nowhere".to_owned() };
    assert_eq!(notice.plain(), "[Warning] Symlink /nowhere does not exist");
    assert_eq!(
        notice.spans(),
        vec![
            piece("[Warning]", ORANGE),
            piece("Symlink", GRAY),
            piece("/nowhere", Tint::BrightWhite),
            piece("does", GRAY),
            piece("not exist", Tint::Cyan),
        ]
    );
}

#[test]
fn aborted_is_an_error_of_its_own() {
    let notice = Notice::Aborted;
    assert_eq!(notice.plain(), "[Error] Selection aborted");
    assert_ne!(notice.plain(), Notice::NotFound { term: "x".to_owned() }.plain());
    assert_eq!(notice.spans()[0], piece("[Error]", CRIMSON));
}

#[test]
fn no_working_directory_is_an_error() {
    let notice = Notice::NoWorkingDirectory;
    assert_eq!(notice.plain(), "[Error] Could not read current working directory");
    assert_eq!(notice.spans()[0], piece("[Error]", CRIMSON));
}

#[test]
fn clipboard_unavailable_is_a_warning() {
    let notice = Notice::ClipboardUnavailable;
    assert_eq!(notice.plain(), "[Warning] Could not copy to clipboard");
    assert_eq!(notice.spans()[0], piece("[Warning]", ORANGE));
}

#[test]
fn errors_are_fatal_and_warnings_are_not() {
    assert!(Notice::SearchTermRequired.is_fatal());
    assert!(Notice::NotFound { term: "x".to_owned() }.is_fatal());
    assert!(Notice::Aborted.is_fatal());
    assert!(Notice::NoWorkingDirectory.is_fatal());
    assert!(!Notice::NotSymlink { path: "x".to_owned() }.is_fatal());
    assert!(!Notice::MissingLink { path: "x".to_owned() }.is_fatal());
    assert!(!Notice::ClipboardUnavailable.is_fatal());
}

#[test]
fn plain_text_is_the_words_with_single_spaces() {
    let notices = [
        Notice::SearchTermRequired,
        Notice::NotFound { term: "a b".to_owned() },
        Notice::Aborted,
        Notice::NoWorkingDirectory,
        Notice::NotSymlink { path: "C:\\x y".to_owned() },
        Notice::MissingLink { path: "".to_owned() },
        Notice::ClipboardUnavailable,
    ];
    for notice in notices {
        let words: Vec<String> = notice.spans().into_iter().map(|span| span.text).collect();
        assert_eq!(notice.plain(), words.join(" "));
    }
}

#[test]
fn a_notice_is_printed_plain_in_one_piece() {
    let notice = Notice::NotFound { term: "cargo".to_owned() };
    assert_eq!(
        notice.printed(true),
        vec![Piece { text: "[Error] Could not find \"cargo\"".to_owned(), tint: None }]
    );
}

#[test]
fn a_notice_is_printed_in_colour_word_by_word() {
    let notice = Notice::NotFound { term: "cargo".to_owned() };
    assert_eq!(
        notice.printed(false),
        vec![
            Piece { text: "[Error]".to_owned(), tint: Some(CRIMSON) },
            Piece { text: "Could not find".to_owned(), tint: Some(GRAY) },
            Piece { text: "\"cargo\"".to_owned(), tint: Some(Tint::White) },
        ]
    );
}

#[test]
fn printed_says_the_same_with_and_without_colour() {
    let notices = [
        Notice::SearchTermRequired,
        Notice::Aborted,
        Notice::NoWorkingDirectory,
        Notice::NotSymlink { path: "/a b".to_owned() },
        Notice::MissingLink { path: "/gone".to_owned() },
        Notice::ClipboardUnavailable,
    ];
    for notice in notices {
        let plain = notice.printed(true);
        assert_eq!(plain.len(), 1);
        assert_eq!(plain[0].tint, None);
        assert_eq!(plain[0].text, notice.plain());
        let coloured = notice.printed(false);
        let spans = notice.spans();
        assert_eq!(coloured.len(), spans.len());
        for (piece, span) in coloured.iter().zip(spans.iter()) {
            assert_eq!(piece.text, span.text);
            assert_eq!(piece.tint, Some(span.tint));
        }
        let words: Vec<String> = coloured.into_iter().map(|piece| piece.text).collect();
        assert_eq!(words.join(" "), plain[0].text);
    }
}
