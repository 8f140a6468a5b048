//! The resolver's search half: from what the locate facility printed to the
//! path it names, or to the candidates that somebody has to choose from.

use crate::text::{chars_of, remove_char, split, split_on, trim, trimmed, views, without};
use vstd::prelude::*;

verus! {

/// Whether `term` can be searched for: it is neither empty nor the single dot.
pub open spec fn is_search_term(term: Seq<char>) -> bool {
    term.len() > 0 && term != seq!['.']
}

/// The candidates that the locate facility reported in `output`: the output
/// without surrounding whitespace and without carriage returns, cut at each
/// line feed. Output that holds nothing but whitespace and carriage returns
/// reports no candidate.
pub open spec fn candidate_lines(output: Seq<char>) -> Seq<Seq<char>> {
    let text = without(trimmed(output), '\r');
    if text.len() == 0 {
        Seq::<Seq<char>>::empty()
    } else {
        split(text, '\n')
    }
}

/// What a search came to.
#[derive(Debug, PartialEq, Eq)]
pub enum Search {
    /// The locate facility reported no candidate.
    NotFound,
    /// The path that the search resolved to.
    Found(String),
    /// Several candidates, in the order reported; one has to be chosen.
    Ambiguous(Vec<String>),
}

/// The mathematical value of a [`Search`].
pub enum SearchView {
    NotFound,
    Found(Seq<char>),
    Ambiguous(Seq<Seq<char>>),
}

impl View for Search {
    type V = SearchView;

    open spec fn view(&self) -> SearchView {
        match self {
            Search::NotFound => SearchView::NotFound,
            Search::Found(path) => SearchView::Found(path@),
            Search::Ambiguous(candidates) => SearchView::Ambiguous(views(candidates@)),
        }
    }
}

/// What the candidates in `output` resolve to: nothing where there is none,
/// the candidate where there is one, the first of several where
/// `select_first` is set, and otherwise all of them to choose from.
pub open spec fn search_result(output: Seq<char>, select_first: bool) -> SearchView {
    let lines = candidate_lines(output);
    if lines.len() == 0 {
        SearchView::NotFound
    } else if lines.len() == 1 || select_first {
        SearchView::Found(lines[0])
    } else {
        SearchView::Ambiguous(lines)
    }
}

/// Whether `term` can be searched for.
pub fn search_term_is_valid(term: &str) -> (ok: bool)
    ensures
        ok == is_search_term(term@),
{
    let v = chars_of(term);
    if v.len() == 0 {
        false
    } else if v.len() == 1 && v[0] == '.' {
        assert(v@ == seq!['.']);
        false
    } else {
        assert(v@ != seq!['.']) by {
            if v@.len() == 1 {
                assert(seq!['.'][0] == '.');
            }
        }
        true
    }
}

/// The candidates that the locate facility reported in `output`.
pub fn candidates(output: &str) -> (lines: Vec<String>)
    ensures
        views(lines@) == candidate_lines(output@),
{
    let shorn = trim(output);
    let text = remove_char(shorn.as_str(), '\r');
    if text.as_str().is_empty() {
        let none: Vec<String> = Vec::new();
        assert(views(none@) == Seq::<Seq<char>>::empty());
        none
    } else {
        split_on(text.as_str(), '\n')
    }
}

/// Resolves a search from the captured output of the locate facility.
pub fn string_path_from_search(output: &str, select_first_option: &bool) -> (found: Search)
    ensures
        found@ == search_result(output@, *select_first_option),
{
    let lines = candidates(output);
    if lines.len() == 0 {
        Search::NotFound
    } else if lines.len() == 1 || *select_first_option {
        assert(views(lines@)[0] == lines@[0]@);
        Search::Found(lines[0].clone())
    } else {
        Search::Ambiguous(lines)
    }
}

/// With `select_first` set a search never asks anybody to choose: it is
/// settled by the output alone, and where there are candidates the first one
/// is taken as it stands.
pub proof fn lemma_select_first_settles(output: Seq<char>)
    ensures
        !(search_result(output, true) is Ambiguous),
        candidate_lines(output).len() > 0 ==> search_result(output, true) == SearchView::Found(
            candidate_lines(output)[0],
        ),
{
}

/// A search asks for a choice exactly when there are several candidates and
/// `select_first` is not set; it finds nothing exactly when there is none.
pub proof fn lemma_search_cases(output: Seq<char>, select_first: bool)
    ensures
        search_result(output, select_first) is NotFound <==> candidate_lines(output).len() == 0,
        search_result(output, select_first) is Ambiguous <==> candidate_lines(output).len() > 1
            && !select_first,
        search_result(output, select_first) matches SearchView::Ambiguous(c) ==> c
            == candidate_lines(output),
{
}

/// `select_first` matters only where there are several candidates.
pub proof fn lemma_select_first_is_idle(output: Seq<char>)
    requires
        candidate_lines(output).len() <= 1,
    ensures
        search_result(output, true) == search_result(output, false),
{
}

} // verus!
