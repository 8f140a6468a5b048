//! What the command line asked for, as plain values.

use crate::fetch::{is_search_term, search_term_is_valid};
use crate::text::text_of;
use vstd::prelude::*;

verus! {

/// `clap_complete::Shell`: a shell that a completion script can be written
/// for. The library looks at no such value; it carries it from the command
/// line to whoever writes the script.
#[verifier::external_type_specification]
#[verifier::external_body]
pub struct ExShell(clap_complete::Shell);

/// The parsed command line.
#[derive(Debug, Default, PartialEq, Eq)]
pub struct Cli {
    /// Additional path segment, or the program to search for.
    pub path_segment_or_program_search: Option<String>,
    /// Reduce the result to the folder that holds it.
    pub folder_component: bool,
    /// Search for a program instead of starting from the working directory.
    pub where_search: bool,
    /// Make the shell change its directory to the result.
    pub change_directory: bool,
    /// Write every backslash twice.
    pub escape_backslash: bool,
    /// Wrap the result in double quotes.
    pub wrap_quote: bool,
    /// Replace a symlink by what it points to.
    pub resolve_symlink: bool,
    /// Leave the clipboard alone.
    pub no_copy: bool,
    /// Print without colour.
    pub no_color: bool,
    /// Turn backslashes into forward slashes.
    pub posix_style: bool,
    /// Turn forward slashes into backslashes.
    pub no_posix_style: bool,
    /// Take the first candidate where a search reports several.
    pub select_first_option: bool,
    /// Write a completion script for this shell and stop.
    pub generate_completions: Option<clap_complete::Shell>,
    /// Write the help as Markdown and stop.
    pub generate_markdown: bool,
}

/// The switches that steer resolution, transformation and delivery.
#[derive(Clone, Copy, Debug, Default, PartialEq, Eq)]
pub struct TransformFlags {
    pub folder_component: bool,
    pub resolve_symlink: bool,
    pub posix_style: bool,
    pub no_posix_style: bool,
    pub wrap_quote: bool,
    pub escape_backslash: bool,
    pub no_copy: bool,
    pub no_color: bool,
    pub change_directory: bool,
    pub select_first_option: bool,
}

/// Where the path is to come from.
#[derive(Debug, PartialEq, Eq)]
pub enum LocationRequest {
    /// The working directory itself.
    CurrentDirectory,
    /// The working directory joined with a segment.
    Segment(String),
    /// The place of a program that the locate facility finds.
    ProgramSearch(String),
}

/// The mathematical value of a [`LocationRequest`].
pub enum RequestView {
    CurrentDirectory,
    Segment(Seq<char>),
    ProgramSearch(Seq<char>),
}

impl View for LocationRequest {
    type V = RequestView;

    open spec fn view(&self) -> RequestView {
        match self {
            LocationRequest::CurrentDirectory => RequestView::CurrentDirectory,
            LocationRequest::Segment(segment) => RequestView::Segment(segment@),
            LocationRequest::ProgramSearch(term) => RequestView::ProgramSearch(term@),
        }
    }
}

impl RequestView {
    /// A search request holds a term that can be searched for.
    pub open spec fn wf(self) -> bool {
        self matches RequestView::ProgramSearch(term) ==> is_search_term(term)
    }
}

/// The view of the request, if there is one.
pub open spec fn request_of(request: Option<LocationRequest>) -> Option<RequestView> {
    match request {
        Some(request) => Some(request@),
        None => None,
    }
}

impl Cli {
    /// The switches of this command line.
    pub open spec fn spec_flags(&self) -> TransformFlags {
        TransformFlags {
            folder_component: self.folder_component,
            resolve_symlink: self.resolve_symlink,
            posix_style: self.posix_style,
            no_posix_style: self.no_posix_style,
            wrap_quote: self.wrap_quote,
            escape_backslash: self.escape_backslash,
            no_copy: self.no_copy,
            no_color: self.no_color,
            change_directory: self.change_directory,
            select_first_option: self.select_first_option,
        }
    }

    /// Whether this command line asks for documentation instead of a path.
    pub open spec fn wants_documents(&self) -> bool {
        self.generate_completions is Some || self.generate_markdown
    }

    /// The request that this command line makes, if it makes a valid one: a
    /// search where `where_search` is set, which needs a term that can be
    /// searched for; else the segment where one is given; else the working
    /// directory.
    pub open spec fn spec_request(&self) -> Option<RequestView> {
        match text_of(self.path_segment_or_program_search) {
            Some(text) => if self.where_search {
                if is_search_term(text) {
                    Some(RequestView::ProgramSearch(text))
                } else {
                    None
                }
            } else {
                Some(RequestView::Segment(text))
            },
            None => if self.where_search {
                None
            } else {
                Some(RequestView::CurrentDirectory)
            },
        }
    }

    /// The switches of this command line.
    pub fn flags(&self) -> (flags: TransformFlags)
        ensures
            flags == self.spec_flags(),
    {
        TransformFlags {
            folder_component: self.folder_component,
            resolve_symlink: self.resolve_symlink,
            posix_style: self.posix_style,
            no_posix_style: self.no_posix_style,
            wrap_quote: self.wrap_quote,
            escape_backslash: self.escape_backslash,
            no_copy: self.no_copy,
            no_color: self.no_color,
            change_directory: self.change_directory,
            select_first_option: self.select_first_option,
        }
    }

    /// The request that this command line makes; `None` where it asks for a
    /// search without a term that can be searched for.
    pub fn request(&self) -> (request: Option<LocationRequest>)
        ensures
            request_of(request) == self.spec_request(),
            request matches Some(r) ==> r@.wf(),
    {
        match &self.path_segment_or_program_search {
            Some(text) => {
                if self.where_search {
                    if search_term_is_valid(text.as_str()) {
                        Some(LocationRequest::ProgramSearch(text.clone()))
                    } else {
                        None
                    }
                } else {
                    Some(LocationRequest::Segment(text.clone()))
                }
            },
            None => {
                if self.where_search {
                    None
                } else {
                    Some(LocationRequest::CurrentDirectory)
                }
            },
        }
    }
}

} // verus!
