use here::fetch::{candidates, search_term_is_valid, string_path_from_search, Search};

#[test]
fn the_single_dot_is_no_search_term() {
    assert!(!search_term_is_valid("."));
}

#[test]
fn the_empty_text_is_no_search_term() {
    assert!(!search_term_is_valid(""));
}

#[test]
fn other_texts_are_search_terms() {
    assert!(search_term_is_valid("cargo"));
    assert!(search_term_is_valid(".."));
    assert!(search_term_is_valid("./x"));
    assert!(search_term_is_valid(" "));
    assert!(search_term_is_valid("x"));
    assert!(search_term_is_valid("·"));
}

#[test]
fn candidates_are_the_lines_of_the_output() {
    assert_eq!(
        candidates("C:\\a\\x.exe\r\nC:\\b\\x.exe\r\n"),
        vec!["C:\\a\\x.exe", "C:\\b\\x.exe"]
    );
    assert_eq!(candidates("/usr/bin/x\n"), vec!["/usr/bin/x"]);
    assert_eq!(candidates("/usr/bin/x"), vec!["/usr/bin/x"]);
}

#[test]
fn output_without_text_holds_no_candidate() {
    assert_eq!(candidates(""), Vec::<String>::new());
    assert_eq!(candidates("\r\n"), Vec::<String>::new());
    assert_eq!(candidates("  \r\n\r\n\t"), Vec::<String>::new());
}

#[test]
fn surrounding_whitespace_goes_and_inner_lines_stay() {
    assert_eq!(candidates("\r\n  a\r\n\r\nb  \r\n"), vec!["a", "", "b"]);
    assert_eq!(candidates("a \r\n b"), vec!["a ", " b"]);
    assert_eq!(candidates("a\rb\nc"), vec!["ab", "c"]);
}

#[test]
fn no_candidate_is_not_found() {
    assert_eq!(string_path_from_search("", &false), Search::NotFound);
    assert_eq!(string_path_from_search("\r\n", &true), Search::NotFound);
}

#[test]
fn one_candidate_is_found() {
    let expected = Search::Found("C:\\tools\\x.exe".to_owned());
    assert_eq!(string_path_from_search("C:\\tools\\x.exe\r\n", &false), expected);
    assert_eq!(string_path_from_search("C:\\tools\\x.exe\r\n", &true), expected);
}

#[test]
fn select_first_option_takes_the_first_candidate() {
    let output = ["C:\\a\\x.exe", "C:\\b\\x.exe"].join("\r\n");
    assert_eq!(
        string_path_from_search(&output, &true),
        Search::Found("C:\\a\\x.exe".to_owned())
    );
}

#[test]
fn several_candidates_are_ambiguous_without_select_first() {
    let output = ["C:\\a\\x.exe", "C:\\b\\x.exe"].join("\r\n");
    assert_eq!(
        string_path_from_search(&output, &false),
        Search::Ambiguous(vec!["C:\\a\\x.exe".to_owned(), "C:\\b\\x.exe".to_owned()])
    );
}

#[test]
fn a_found_path_is_taken_verbatim() {
    assert_eq!(
        string_path_from_search("not / a :: path?\n", &false),
        Search::Found("not / a :: path?".to_owned())
    );
}

fn short_outputs(alphabet: &[char], longest: usize) -> Vec<String> {
    let mut all = vec![String::new()];
    let mut last = vec![String::new()];
    for _ in 0..longest {
        let mut next = Vec::new();
        for text in &last {
            for c in alphabet {
                let mut longer = text.clone();
                longer.push(*c);
                next.push(longer);
            }
        }
        all.extend(next.iter().cloned());
        last = next;
    }
    all
}

#[test]
fn candidates_are_the_trimmed_output_without_returns_cut_at_line_feeds() {
    for output in short_outputs(&[' ', '\r', '\n', 'a', '/'], 6) {
        let text = output.trim().replace('\r', "");
        let expected: Vec<String> = if text.is_empty() {
            Vec::new()
        } else {
            text.split('\n').map(str::to_owned).collect()
        };
        assert_eq!(candidates(&output), expected, "{:?}", output);
    }
}

#[test]
fn select_first_changes_nothing_but_the_choice_among_several() {
    for output in short_outputs(&['\r', '\n', 'a', 'b'], 6) {
        let lines = candidates(&output);
        let first = string_path_from_search(&output, &true);
        let asked = string_path_from_search(&output, &false);
        match lines.len() {
            0 => {
                assert_eq!(first, Search::NotFound);
                assert_eq!(asked, Search::NotFound);
            }
            1 => {
                assert_eq!(first, Search::Found(lines[0].clone()));
                assert_eq!(asked, Search::Found(lines[0].clone()));
            }
            _ => {
                assert_eq!(first, Search::Found(lines[0].clone()));
                assert_eq!(asked, Search::Ambiguous(lines));
            }
        }
    }
}
