//! The transformer: from a resolved path to the path that is delivered and
//! the text that is shown, one step after the other.

use crate::cli::TransformFlags;
use crate::text::{
    count, double_char, doubled, lemma_count_doubled, lemma_count_quoted, lemma_count_replaced,
    lemma_doubled_ends, quote, quoted, replace_char, replaced, text_of,
};
use vstd::prelude::*;

verus! {

/// What `path_clean::clean` makes of a path in the path syntax that the
/// program is built for: `.` elements and repeated separators are gone, each
/// `..` is resolved against the name before it, and an empty result is `.`.
pub uninterp spec fn normal_form(path: Seq<char>) -> Seq<char>;

/// What `std::path::Path::parent` makes of a path: the path without its final
/// component, or nothing where the path ends in a root or a prefix, or is
/// empty.
pub uninterp spec fn parent_of(path: Seq<char>) -> Option<Seq<char>>;

/// What `std::path::Path::join` makes of a base and a segment: the segment
/// adjoined to the base, which an absolute segment replaces.
pub uninterp spec fn adjoined(base: Seq<char>, segment: Seq<char>) -> Seq<char>;

/// Calls `path_clean::clean`. The contract names the result and claims
/// nothing more of it.
#[verifier::external_body]
fn clean_path(path: &str) -> (cleaned: String)
    ensures
        cleaned@ == normal_form(path@),
{
    path_clean::clean(path).display().to_string()
}

/// Calls `std::path::Path::parent`. The contract names the result.
#[verifier::external_body]
fn parent_path(path: &str) -> (parent: Option<String>)
    ensures
        text_of(parent) == parent_of(path@),
{
    match std::path::Path::new(path).parent() {
        Some(parent) => Some(parent.display().to_string()),
        None => None,
    }
}

/// Calls `std::path::Path::join`. The contract names the result.
#[verifier::external_body]
pub(crate) fn join_path(base: &str, segment: &str) -> (path: String)
    ensures
        path@ == adjoined(base@, segment@),
{
    std::path::Path::new(base).join(segment).display().to_string()
}

/// How many times normalizing cleans a path at most.
pub const MAX_PASSES: usize = 4;

/// `path` after `passes` passes of cleaning.
pub open spec fn cleaned_times(path: Seq<char>, passes: nat) -> Seq<char>
    decreases passes,
{
    if passes == 0 {
        path
    } else {
        cleaned_times(normal_form(path), (passes - 1) as nat)
    }
}

/// `path` cleaned until a pass changes nothing, or `passes` passes are made.
pub open spec fn settled(path: Seq<char>, passes: nat) -> Seq<char>
    decreases passes,
{
    if passes == 0 || normal_form(path) == path {
        path
    } else {
        settled(normal_form(path), (passes - 1) as nat)
    }
}

/// The normalized form of `path`: `path` cleaned once, and then cleaned
/// until it comes to rest or [`MAX_PASSES`] passes are made in all.
pub open spec fn normalized_form(path: Seq<char>) -> Seq<char> {
    settled(normal_form(path), (MAX_PASSES - 1) as nat)
}

/// The path after folder reduction: the parent where the path is a regular
/// file and has one, else the path as it is.
pub open spec fn folder_reduced(
    path: Seq<char>,
    is_file: bool,
    parent: Option<Seq<char>>,
) -> Seq<char> {
    if is_file && parent is Some {
        parent->0
    } else {
        path
    }
}

/// The path with its separators styled: all forward where `posix_style` is
/// set, else all backward where `no_posix_style` is set, else untouched.
pub open spec fn styled(path: Seq<char>, flags: TransformFlags) -> Seq<char> {
    if flags.posix_style {
        replaced(path, '\\', '/')
    } else if flags.no_posix_style {
        replaced(path, '/', '\\')
    } else {
        path
    }
}

/// The text in double quotes where `wrap_quote` is set.
pub open spec fn wrapped(text: Seq<char>, flags: TransformFlags) -> Seq<char> {
    if flags.wrap_quote {
        quoted(text)
    } else {
        text
    }
}

/// The text with each backslash written twice where `escape_backslash` is set.
pub open spec fn escaped(text: Seq<char>, flags: TransformFlags) -> Seq<char> {
    if flags.escape_backslash {
        doubled(text, '\\')
    } else {
        text
    }
}

/// The text that is shown for a path: styled, then wrapped, then escaped.
pub open spec fn display_text(path: Seq<char>, flags: TransformFlags) -> Seq<char> {
    escaped(wrapped(styled(path, flags), flags), flags)
}

/// Whether cleaning leaves `path` as it is.
pub fn is_normal(path: &str) -> (normal: bool)
    ensures
        normal == (normal_form(path@) == path@),
{
    let cleaned = clean_path(path);
    let given = path.to_owned();
    cleaned == given
}

/// Normalizes `path`: cleans it, and cleans the result again until a pass
/// changes nothing, so that the result is a path that cleaning leaves as it
/// is. Where [`MAX_PASSES`] passes have each changed the path, the result of
/// the last pass is returned without that being known of it.
pub fn normalize(path: &str) -> (cleaned: String)
    ensures
        cleaned@ == normalized_form(path@),
        normal_form(cleaned@) == cleaned@ || cleaned@ == cleaned_times(path@, MAX_PASSES as nat),
        normal_form(cleaned@) == cleaned@ ==> normalized_form(cleaned@) == cleaned@,
{
    let mut current = clean_path(path);
    let mut left: usize = MAX_PASSES - 1;
    proof {
        lemma_settled_rests_or_is_spent(normal_form(path@), left as nat);
    }
    while left > 0
        invariant
            settled(current@, left as nat) == normalized_form(path@),
        decreases left,
    {
        let next = clean_path(current.as_str());
        if next == current {
            return current;
        }
        current = next;
        left = left - 1;
    }
    current
}

/// Folder reduction, given whether `path` is a regular file and what its
/// parent is.
pub fn reduce_to_folder(path: String, is_file: bool, parent: Option<String>) -> (reduced: String)
    ensures
        reduced@ == folder_reduced(path@, is_file, text_of(parent)),
{
    if is_file {
        match parent {
            Some(parent) => parent,
            None => path,
        }
    } else {
        path
    }
}

/// Folder reduction, given whether `path` is a regular file: a regular file
/// gives way to its parent, anything else stays.
pub fn folder_component(path: String, is_file: bool) -> (reduced: String)
    ensures
        reduced@ == folder_reduced(path@, is_file, parent_of(path@)),
        !is_file ==> reduced@ == path@,
        is_file && parent_of(path@) is Some ==> reduced@ == parent_of(path@)->0,
{
    if is_file {
        let parent = parent_path(path.as_str());
        reduce_to_folder(path, is_file, parent)
    } else {
        path
    }
}

/// The text that is shown for `path` under `flags`.
pub fn display_string(path: &str, flags: &TransformFlags) -> (text: String)
    ensures
        text@ == display_text(path@, *flags),
{
    let mut text = if flags.posix_style {
        replace_char(path, '\\', '/')
    } else if flags.no_posix_style {
        replace_char(path, '/', '\\')
    } else {
        path.to_owned()
    };
    if flags.wrap_quote {
        text = quote(text.as_str());
    }
    if flags.escape_backslash {
        text = double_char(text.as_str(), '\\');
    }
    text
}

/// Settling ends at a path that cleaning leaves as it is, or else it has
/// made every pass it was given and each of them changed the path.
pub proof fn lemma_settled_rests_or_is_spent(path: Seq<char>, passes: nat)
    ensures
        normal_form(settled(path, passes)) == settled(path, passes) || settled(path, passes)
            == cleaned_times(path, passes),
    decreases passes,
{
    if passes > 0 && normal_form(path) != path {
        lemma_settled_rests_or_is_spent(normal_form(path), (passes - 1) as nat);
    }
}

/// Normalizing is idempotent wherever cleaning comes to rest: a normalized
/// form that cleaning leaves as it is is its own normalized form. The other
/// normalized forms are those that [`MAX_PASSES`] passes of cleaning each
/// changed.
pub proof fn lemma_normalize_is_idempotent(path: Seq<char>)
    ensures
        normal_form(normalized_form(path)) == normalized_form(path) ==> normalized_form(
            normalized_form(path),
        ) == normalized_form(path),
        normal_form(normalized_form(path)) == normalized_form(path) || normalized_form(path)
            == cleaned_times(path, MAX_PASSES as nat),
{
    lemma_settled_rests_or_is_spent(normal_form(path), (MAX_PASSES - 1) as nat);
}

/// Folder reduction leaves a path alone that is no regular file, whatever
/// its parent is, and replaces a regular file by its parent.
pub proof fn lemma_folder_reduction(path: Seq<char>, is_file: bool, parent: Option<Seq<char>>)
    ensures
        !is_file ==> folder_reduced(path, is_file, parent) == path,
        is_file && parent is Some ==> folder_reduced(path, is_file, parent) == parent->0,
{
}

/// Styling comes before escaping. With `no_posix_style` and
/// `escape_backslash` both set, the text is the path with its forward slashes
/// turned first and every backslash doubled afterwards: no forward slash is
/// left, and each slash of the path, forward or backward, stands as two
/// backslashes.
pub proof fn lemma_styling_precedes_escaping(path: Seq<char>, flags: TransformFlags)
    requires
        flags.no_posix_style,
        !flags.posix_style,
        flags.escape_backslash,
    ensures
        display_text(path, flags) == doubled(wrapped(replaced(path, '/', '\\'), flags), '\\'),
        count(display_text(path, flags), '/') == 0,
        count(display_text(path, flags), '\\') == 2 * (count(path, '/') + count(path, '\\')),
{
    let turned = replaced(path, '/', '\\');
    let inner = wrapped(turned, flags);
    lemma_count_replaced(path, '/', '\\', '/');
    lemma_count_replaced(path, '/', '\\', '\\');
    lemma_count_quoted(turned, '/');
    lemma_count_quoted(turned, '\\');
    lemma_count_doubled(inner, '\\', '/');
    lemma_count_doubled(inner, '\\', '\\');
}

/// Quoting comes before escaping and is not touched by it: with `wrap_quote`
/// set the text begins and ends with one double quote, and holds no other
/// double quote than the path does.
pub proof fn lemma_quotes_stay_single(path: Seq<char>, flags: TransformFlags)
    requires
        flags.wrap_quote,
    ensures
        display_text(path, flags).len() >= 2,
        display_text(path, flags).first() == '"',
        display_text(path, flags).last() == '"',
        count(display_text(path, flags), '"') == count(path, '"') + 2,
{
    let style = styled(path, flags);
    let inner = quoted(style);
    if flags.posix_style {
        lemma_count_replaced(path, '\\', '/', '"');
    } else if flags.no_posix_style {
        lemma_count_replaced(path, '/', '\\', '"');
    }
    lemma_count_quoted(style, '"');
    if flags.escape_backslash {
        lemma_count_doubled(inner, '\\', '"');
        lemma_doubled_ends(inner, '\\');
    }
}

} // verus!
