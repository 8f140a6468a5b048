//! One run of the program as an exchange of questions and answers.
//!
//! The run decides; whoever drives it acts. [`begin`] and [`advance`] say in
//! each [`Step`] what to tell the user and what comes next: a question to the
//! system ([`Pending`]), which is answered by a [`Reply`], or the end of the
//! run. The order of the steps is fixed here and nowhere else: resolve, then
//! normalize, then follow a symlink, then reduce to the folder, then style
//! the text and deliver.

use crate::cli::{Cli, LocationRequest, RequestView, TransformFlags};
use crate::dispatch::{
    copies, echoes, lemma_one_echo, output_plan, plan, sink_views, Sink, SinkView,
};
use crate::fetch::{is_search_term, search_result, string_path_from_search, Search, SearchView};
use crate::report::{notice_of, Notice, NoticeView};
use crate::text::{text_of, views};
use crate::transform::{
    adjoined, display_string, display_text, folder_component, folder_reduced, join_path,
    normalize, normalized_form, parent_of,
};
use vstd::prelude::*;

verus! {

/// A question to the system that the run waits on.
#[derive(Debug, PartialEq, Eq)]
pub enum Pending {
    /// What is the working directory? It is joined with the segment, if any.
    WorkingDirectory { segment: Option<String> },
    /// What does the locate facility print for this term?
    Locate { term: String },
    /// Which of these candidates is meant?
    Choice { candidates: Vec<String> },
    /// Does this path exist, and is it a symlink?
    LinkStatus { path: String },
    /// Where does this symlink point?
    LinkTarget { path: String },
    /// Is this path a regular file?
    FileStatus { path: String },
}

/// The mathematical value of a [`Pending`].
pub enum PendingView {
    WorkingDirectory { segment: Option<Seq<char>> },
    Locate { term: Seq<char> },
    Choice { candidates: Seq<Seq<char>> },
    LinkStatus { path: Seq<char> },
    LinkTarget { path: Seq<char> },
    FileStatus { path: Seq<char> },
}

impl View for Pending {
    type V = PendingView;

    open spec fn view(&self) -> PendingView {
        match self {
            Pending::WorkingDirectory { segment } => PendingView::WorkingDirectory {
                segment: text_of(*segment),
            },
            Pending::Locate { term } => PendingView::Locate { term: term@ },
            Pending::Choice { candidates } => PendingView::Choice {
                candidates: views(candidates@),
            },
            Pending::LinkStatus { path } => PendingView::LinkStatus { path: path@ },
            Pending::LinkTarget { path } => PendingView::LinkTarget { path: path@ },
            Pending::FileStatus { path } => PendingView::FileStatus { path: path@ },
        }
    }
}

/// A run that waits for a reply.
#[derive(Debug, PartialEq, Eq)]
pub struct Run {
    pub flags: TransformFlags,
    pub pending: Pending,
}

/// The mathematical value of a [`Run`].
pub struct RunView {
    pub flags: TransformFlags,
    pub pending: PendingView,
}

impl View for Run {
    type V = RunView;

    open spec fn view(&self) -> RunView {
        RunView { flags: self.flags, pending: self.pending@ }
    }
}

/// What the system answers.
#[derive(Debug, PartialEq, Eq)]
pub enum Reply {
    /// The working directory, or none where it cannot be read.
    WorkingDirectory(Option<String>),
    /// All that the locate facility printed.
    Located(String),
    /// The candidate chosen, or none where nobody chose.
    Chosen(Option<String>),
    /// Whether the path exists, and whether it is a symlink.
    LinkStatus { exists: bool, is_symlink: bool },
    /// What the symlink points to.
    LinkTarget(String),
    /// Whether the path is a regular file.
    FileStatus(bool),
}

/// The mathematical value of a [`Reply`].
pub enum ReplyView {
    WorkingDirectory(Option<Seq<char>>),
    Located(Seq<char>),
    Chosen(Option<Seq<char>>),
    LinkStatus { exists: bool, is_symlink: bool },
    LinkTarget(Seq<char>),
    FileStatus(bool),
}

impl View for Reply {
    type V = ReplyView;

    open spec fn view(&self) -> ReplyView {
        match self {
            Reply::WorkingDirectory(dir) => ReplyView::WorkingDirectory(text_of(*dir)),
            Reply::Located(output) => ReplyView::Located(output@),
            Reply::Chosen(answer) => ReplyView::Chosen(text_of(*answer)),
            Reply::LinkStatus { exists, is_symlink } => ReplyView::LinkStatus {
                exists: *exists,
                is_symlink: *is_symlink,
            },
            Reply::LinkTarget(target) => ReplyView::LinkTarget(target@),
            Reply::FileStatus(is_file) => ReplyView::FileStatus(*is_file),
        }
    }
}

/// What comes after a step.
#[derive(Debug, PartialEq, Eq)]
pub enum Next {
    /// Write the documents asked for, and end with success.
    Documents { completions: Option<clap_complete::Shell>, markdown: bool },
    /// Put the run's question to the system and come back with the reply.
    Ask(Run),
    /// Serve the sinks in order, and end with success.
    Deliver(Vec<Sink>),
    /// End with failure.
    Fail,
}

/// The mathematical value of a [`Next`].
pub enum NextView {
    Documents { completions: Option<clap_complete::Shell>, markdown: bool },
    Ask(RunView),
    Deliver(Seq<SinkView>),
    Fail,
}

impl View for Next {
    type V = NextView;

    open spec fn view(&self) -> NextView {
        match self {
            Next::Documents { completions, markdown } => NextView::Documents {
                completions: *completions,
                markdown: *markdown,
            },
            Next::Ask(run) => NextView::Ask(run@),
            Next::Deliver(sinks) => NextView::Deliver(sink_views(sinks@)),
            Next::Fail => NextView::Fail,
        }
    }
}

/// One step of a run: what to tell the user, if anything, and what comes next.
#[derive(Debug, PartialEq, Eq)]
pub struct Step {
    pub notice: Option<Notice>,
    pub next: Next,
}

/// The mathematical value of a [`Step`].
pub struct StepView {
    pub notice: Option<NoticeView>,
    pub next: NextView,
}

impl View for Step {
    type V = StepView;

    open spec fn view(&self) -> StepView {
        StepView { notice: notice_of(self.notice), next: self.next@ }
    }
}

impl StepView {
    /// The question that the step puts to the system, if it puts one.
    pub open spec fn question(self) -> Option<PendingView> {
        match self.next {
            NextView::Ask(run) => Some(run.pending),
            _ => None,
        }
    }

    /// What the step delivers, if it delivers.
    pub open spec fn sinks(self) -> Option<Seq<SinkView>> {
        match self.next {
            NextView::Deliver(sinks) => Some(sinks),
            _ => None,
        }
    }
}

/// The step that puts a question to the system.
pub open spec fn asking(
    pending: PendingView,
    warning: Option<NoticeView>,
    flags: TransformFlags,
) -> StepView {
    StepView { notice: warning, next: NextView::Ask(RunView { flags, pending }) }
}

/// The step that ends the run with an error.
pub open spec fn failed(notice: NoticeView) -> StepView {
    StepView { notice: Some(notice), next: NextView::Fail }
}

/// The last step of a run that came through: the text is made from the path
/// and both are delivered.
pub open spec fn delivered(
    path: Seq<char>,
    warning: Option<NoticeView>,
    flags: TransformFlags,
) -> StepView {
    StepView {
        notice: warning,
        next: NextView::Deliver(plan(flags, display_text(path, flags), path)),
    }
}

/// The step after symlink resolution: folder reduction where
/// `folder_component` is set, which needs to know whether the path is a
/// regular file; else delivery.
pub open spec fn past_link(
    path: Seq<char>,
    warning: Option<NoticeView>,
    flags: TransformFlags,
) -> StepView {
    if flags.folder_component {
        asking(PendingView::FileStatus { path }, warning, flags)
    } else {
        delivered(path, warning, flags)
    }
}

/// The step after normalization: symlink resolution where `resolve_symlink`
/// is set, which needs to know what the path is; else what follows it.
pub open spec fn normalized(path: Seq<char>, flags: TransformFlags) -> StepView {
    if flags.resolve_symlink {
        asking(PendingView::LinkStatus { path }, None, flags)
    } else {
        past_link(path, None, flags)
    }
}

/// The step after resolution: the path is normalized first of all.
pub open spec fn resolved(path: Seq<char>, flags: TransformFlags) -> StepView {
    normalized(normalized_form(path), flags)
}

/// The step after a search for `term` has come to `found`: failure where
/// nothing was found, the transformer where a path was, and else the choice
/// among the candidates.
pub open spec fn searched(term: Seq<char>, found: SearchView, flags: TransformFlags) -> StepView {
    match found {
        SearchView::NotFound => failed(NoticeView::NotFound { term }),
        SearchView::Found(path) => resolved(path, flags),
        SearchView::Ambiguous(candidates) => asking(PendingView::Choice { candidates }, None, flags),
    }
}

/// The step after the system has told what `path` is: a symlink is read;
/// anything else is kept, with a warning, and the run goes on.
pub open spec fn link_checked(
    path: Seq<char>,
    exists: bool,
    is_symlink: bool,
    flags: TransformFlags,
) -> StepView {
    if !exists {
        past_link(path, Some(NoticeView::MissingLink { path }), flags)
    } else if !is_symlink {
        past_link(path, Some(NoticeView::NotSymlink { path }), flags)
    } else {
        asking(PendingView::LinkTarget { path }, None, flags)
    }
}

/// The first step of a run.
pub open spec fn begun(cli: &Cli) -> StepView {
    let flags = cli.spec_flags();
    if cli.wants_documents() {
        StepView {
            notice: None,
            next: NextView::Documents {
                completions: cli.generate_completions,
                markdown: cli.generate_markdown,
            },
        }
    } else {
        match cli.spec_request() {
            None => failed(NoticeView::SearchTermRequired),
            Some(RequestView::ProgramSearch(term)) => asking(
                PendingView::Locate { term },
                None,
                flags,
            ),
            Some(RequestView::Segment(segment)) => asking(
                PendingView::WorkingDirectory { segment: Some(segment) },
                None,
                flags,
            ),
            Some(RequestView::CurrentDirectory) => asking(
                PendingView::WorkingDirectory { segment: None },
                None,
                flags,
            ),
        }
    }
}

/// Whether `reply` answers the question `pending`.
pub open spec fn answers(pending: PendingView, reply: ReplyView) -> bool {
    match pending {
        PendingView::WorkingDirectory { .. } => reply is WorkingDirectory,
        PendingView::Locate { .. } => reply is Located,
        PendingView::Choice { .. } => reply is Chosen,
        PendingView::LinkStatus { .. } => reply is LinkStatus,
        PendingView::LinkTarget { .. } => reply is LinkTarget,
        PendingView::FileStatus { .. } => reply is FileStatus,
    }
}

/// The step that follows when `reply` comes in for `run`. A reply that does
/// not answer the run's question changes nothing: the question stands.
pub open spec fn advanced(run: RunView, reply: ReplyView) -> StepView {
    let flags = run.flags;
    match run.pending {
        PendingView::WorkingDirectory { segment } => match reply {
            ReplyView::WorkingDirectory(None) => failed(NoticeView::NoWorkingDirectory),
            ReplyView::WorkingDirectory(Some(dir)) => match segment {
                Some(segment) => resolved(adjoined(dir, segment), flags),
                None => resolved(dir, flags),
            },
            _ => asking(run.pending, None, flags),
        },
        PendingView::Locate { term } => match reply {
            ReplyView::Located(output) => searched(
                term,
                search_result(output, flags.select_first_option),
                flags,
            ),
            _ => asking(run.pending, None, flags),
        },
        PendingView::Choice { candidates } => match reply {
            ReplyView::Chosen(None) => failed(NoticeView::Aborted),
            ReplyView::Chosen(Some(path)) => resolved(path, flags),
            _ => asking(run.pending, None, flags),
        },
        PendingView::LinkStatus { path } => match reply {
            ReplyView::LinkStatus { exists, is_symlink } => link_checked(
                path,
                exists,
                is_symlink,
                flags,
            ),
            _ => asking(run.pending, None, flags),
        },
        PendingView::LinkTarget { path } => match reply {
            ReplyView::LinkTarget(target) => past_link(target, None, flags),
            _ => asking(run.pending, None, flags),
        },
        PendingView::FileStatus { path } => match reply {
            ReplyView::FileStatus(is_file) => delivered(
                folder_reduced(path, is_file, parent_of(path)),
                None,
                flags,
            ),
            _ => asking(run.pending, None, flags),
        },
    }
}

/// How many questions a run may still ask, at most, counting the one it
/// waits on.
pub open spec fn questions_left(pending: PendingView) -> nat {
    match pending {
        PendingView::WorkingDirectory { .. } => 4,
        PendingView::Locate { .. } => 5,
        PendingView::Choice { .. } => 4,
        PendingView::LinkStatus { .. } => 3,
        PendingView::LinkTarget { .. } => 2,
        PendingView::FileStatus { .. } => 1,
    }
}

fn ask(pending: Pending, warning: Option<Notice>, flags: TransformFlags) -> (step: Step)
    ensures
        step@ == asking(pending@, notice_of(warning), flags),
{
    Step { notice: warning, next: Next::Ask(Run { flags, pending }) }
}

fn fail(notice: Notice) -> (step: Step)
    ensures
        step@ == failed(notice@),
{
    Step { notice: Some(notice), next: Next::Fail }
}

/// The last step of a run that came through with `path`.
pub fn deliver(path: String, warning: Option<Notice>, flags: TransformFlags) -> (step: Step)
    ensures
        step@ == delivered(path@, notice_of(warning), flags),
{
    let display = display_string(path.as_str(), &flags);
    let sinks = output_plan(&flags, display.as_str(), path.as_str());
    Step { notice: warning, next: Next::Deliver(sinks) }
}

/// The step after symlink resolution has left `path`.
pub fn after_link(path: String, warning: Option<Notice>, flags: TransformFlags) -> (step: Step)
    ensures
        step@ == past_link(path@, notice_of(warning), flags),
{
    if flags.folder_component {
        ask(Pending::FileStatus { path }, warning, flags)
    } else {
        deliver(path, warning, flags)
    }
}

/// The step after normalization has left `path`.
pub fn after_normalize(path: String, flags: TransformFlags) -> (step: Step)
    ensures
        step@ == normalized(path@, flags),
{
    if flags.resolve_symlink {
        ask(Pending::LinkStatus { path }, None, flags)
    } else {
        after_link(path, None, flags)
    }
}

/// The step after resolution has come to `path`.
pub fn start_transform(path: &str, flags: TransformFlags) -> (step: Step)
    ensures
        step@ == resolved(path@, flags),
{
    after_normalize(normalize(path), flags)
}

/// The step after the system has told what `path` is.
pub fn after_link_status(
    path: String,
    exists: bool,
    is_symlink: bool,
    flags: TransformFlags,
) -> (step: Step)
    ensures
        step@ == link_checked(path@, exists, is_symlink, flags),
{
    if !exists {
        let warning = Notice::MissingLink { path: path.clone() };
        after_link(path, Some(warning), flags)
    } else if !is_symlink {
        let warning = Notice::NotSymlink { path: path.clone() };
        after_link(path, Some(warning), flags)
    } else {
        ask(Pending::LinkTarget { path }, None, flags)
    }
}

/// The step after a search for `term` has come to `found`.
pub fn after_search(term: String, found: Search, flags: TransformFlags) -> (step: Step)
    ensures
        step@ == searched(term@, found@, flags),
{
    match found {
        Search::NotFound => fail(Notice::NotFound { term }),
        Search::Found(path) => start_transform(path.as_str(), flags),
        Search::Ambiguous(candidates) => ask(Pending::Choice { candidates }, None, flags),
    }
}

/// The first step of a run.
pub fn begin(cli: &Cli) -> (step: Step)
    ensures
        step@ == begun(cli),
{
    let flags = cli.flags();
    if cli.generate_completions.is_some() || cli.generate_markdown {
        return Step {
            notice: None,
            next: Next::Documents {
                completions: cli.generate_completions,
                markdown: cli.generate_markdown,
            },
        };
    }
    match cli.request() {
        None => fail(Notice::SearchTermRequired),
        Some(LocationRequest::ProgramSearch(term)) => ask(Pending::Locate { term }, None, flags),
        Some(LocationRequest::Segment(segment)) => ask(
            Pending::WorkingDirectory { segment: Some(segment) },
            None,
            flags,
        ),
        Some(LocationRequest::CurrentDirectory) => ask(
            Pending::WorkingDirectory { segment: None },
            None,
            flags,
        ),
    }
}

/// The step that follows when `reply` comes in for `run`.
pub fn advance(run: Run, reply: Reply) -> (step: Step)
    ensures
        step@ == advanced(run@, reply@),
{
    let Run { flags, pending } = run;
    match pending {
        Pending::WorkingDirectory { segment } => match reply {
            Reply::WorkingDirectory(None) => fail(Notice::NoWorkingDirectory),
            Reply::WorkingDirectory(Some(dir)) => match segment {
                Some(segment) => {
                    let path = join_path(dir.as_str(), segment.as_str());
                    start_transform(path.as_str(), flags)
                },
                None => start_transform(dir.as_str(), flags),
            },
            _ => ask(Pending::WorkingDirectory { segment }, None, flags),
        },
        Pending::Locate { term } => match reply {
            Reply::Located(output) => {
                let found = string_path_from_search(output.as_str(), &flags.select_first_option);
                after_search(term, found, flags)
            },
            _ => ask(Pending::Locate { term }, None, flags),
        },
        Pending::Choice { candidates } => match reply {
            Reply::Chosen(None) => fail(Notice::Aborted),
            Reply::Chosen(Some(path)) => start_transform(path.as_str(), flags),
            _ => ask(Pending::Choice { candidates }, None, flags),
        },
        Pending::LinkStatus { path } => match reply {
            Reply::LinkStatus { exists, is_symlink } => after_link_status(
                path,
                exists,
                is_symlink,
                flags,
            ),
            _ => ask(Pending::LinkStatus { path }, None, flags),
        },
        Pending::LinkTarget { path } => match reply {
            Reply::LinkTarget(target) => after_link(target, None, flags),
            _ => ask(Pending::LinkTarget { path }, None, flags),
        },
        Pending::FileStatus { path } => match reply {
            Reply::FileStatus(is_file) => {
                let reduced = folder_component(path, is_file);
                deliver(reduced, None, flags)
            },
            _ => ask(Pending::FileStatus { path }, None, flags),
        },
    }
}

/// A search for the single dot fails at once: the run ends with an error in
/// its first step, before any question is put to the system, the locate
/// facility included.
pub proof fn lemma_dot_is_never_searched(cli: &Cli)
    requires
        !cli.wants_documents(),
        cli.where_search,
        text_of(cli.path_segment_or_program_search) == Some(seq!['.']),
    ensures
        begun(cli) == failed(NoticeView::SearchTermRequired),
{
    assert(seq!['.'].len() == 1);
}

/// The locate facility is asked in the first step or never, and only for a
/// term that can be searched for.
pub proof fn lemma_locate_comes_first(cli: &Cli, run: RunView, reply: ReplyView)
    ensures
        begun(cli).next matches NextView::Ask(first) ==> (first.pending matches PendingView::Locate {
            term,
        } ==> cli.where_search && is_search_term(term)),
        advanced(run, reply).next matches NextView::Ask(next) ==> (next.pending is Locate ==> run.pending
            is Locate && !answers(run.pending, reply)),
{
}

/// A run is a straight line: each answered question leaves fewer questions
/// to ask, at most five are asked in all, and the flags stay what they were.
pub proof fn lemma_advance_makes_progress(run: RunView, reply: ReplyView)
    requires
        answers(run.pending, reply),
    ensures
        questions_left(run.pending) <= 5,
        advanced(run, reply).next matches NextView::Ask(next) ==> questions_left(next.pending)
            < questions_left(run.pending) && next.flags == run.flags,
{
}

/// A step ends the run in failure exactly when it reports an error, in the
/// first step and in every later one. A warning never does.
pub proof fn lemma_errors_end_the_run(cli: &Cli, run: RunView, reply: ReplyView)
    ensures
        begun(cli).next is Fail <==> (begun(cli).notice matches Some(n) && n.is_fatal()),
        advanced(run, reply).next is Fail <==> (advanced(run, reply).notice matches Some(n)
            && n.is_fatal()),
        advanced(run, reply).next is Documents == false,
{
}

/// With `select_first_option` set nobody is ever asked to choose.
pub proof fn lemma_select_first_never_asks(run: RunView, reply: ReplyView)
    requires
        run.flags.select_first_option,
        answers(run.pending, reply),
    ensures
        !(advanced(run, reply).next matches NextView::Ask(next) && next.pending is Choice),
{
}

/// Whatever is delivered, the terminal is served exactly once; with
/// `no_copy` set the clipboard is not served at all, and without it once.
pub proof fn lemma_delivery_echoes_once(run: RunView, reply: ReplyView)
    ensures
        advanced(run, reply).sinks() matches Some(sinks) ==> echoes(sinks) == 1,
        advanced(run, reply).sinks() matches Some(sinks) ==> (run.flags.no_copy ==> copies(sinks)
            == 0),
        advanced(run, reply).sinks() matches Some(sinks) ==> (!run.flags.no_copy ==> copies(sinks)
            == 1),
{
    let flags = run.flags;
    assert forall|path: Seq<char>|
        echoes(#[trigger] plan(flags, display_text(path, flags), path)) == 1 && (flags.no_copy
            ==> copies(plan(flags, display_text(path, flags), path)) == 0) && (!flags.no_copy
            ==> copies(plan(flags, display_text(path, flags), path)) == 1) by {
        lemma_one_echo(flags, display_text(path, flags), path);
    }
}

/// `select_first_option` matters to a search and to nothing else: away from
/// the locate facility's answer, a run with the flag and a run without it
/// tell the user the same, ask the same, deliver the same and fail alike.
pub proof fn lemma_select_first_only_matters_in_search(
    run: RunView,
    other: RunView,
    reply: ReplyView,
)
    requires
        !(run.pending is Locate),
        other.pending == run.pending,
        other.flags == (TransformFlags {
            select_first_option: !run.flags.select_first_option,
            ..run.flags
        }),
    ensures
        advanced(other, reply).notice == advanced(run, reply).notice,
        advanced(other, reply).question() == advanced(run, reply).question(),
        advanced(other, reply).sinks() == advanced(run, reply).sinks(),
        advanced(other, reply).next is Fail == advanced(run, reply).next is Fail,
{
}

} // verus!
