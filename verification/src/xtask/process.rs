//! What the development tasks ask their runner to do, and what the runner reports back.
use vstd::prelude::*;

verus! {

/// A program to run, with its arguments and, where it reads one, its standard input.
#[derive(Debug, Clone)]
pub struct CommandLine {
    pub program: String,
    pub args: Vec<String>,
    pub stdin: Option<String>,
}

#[verifier::ext_equal]
pub struct CommandLineView {
    pub program: Seq<char>,
    pub args: Seq<Seq<char>>,
    pub stdin: Option<Seq<char>>,
}

impl DeepView for CommandLine {
    type V = CommandLineView;

    open spec fn deep_view(&self) -> CommandLineView {
        CommandLineView {
            program: self.program@,
            args: self.args.deep_view(),
            stdin: self.stdin.deep_view(),
        }
    }
}

/// Why a task failed.
#[derive(Debug)]
pub enum XtaskError {
    /// There is no Tilt file to watch the project with.
    TiltfileNotFound,
    /// A command could not be run, fed or waited for; the text says why.
    CommandFailed(String),
}

pub enum XtaskErrorView {
    TiltfileNotFound,
    CommandFailed(Seq<char>),
}

impl DeepView for XtaskError {
    type V = XtaskErrorView;

    open spec fn deep_view(&self) -> XtaskErrorView {
        match self {
            XtaskError::TiltfileNotFound => XtaskErrorView::TiltfileNotFound,
            XtaskError::CommandFailed(m) => XtaskErrorView::CommandFailed(m@),
        }
    }
}

/// The text of an error, as it is displayed.
pub open spec fn error_text(e: XtaskErrorView) -> Seq<char> {
    match e {
        XtaskErrorView::TiltfileNotFound => "Tiltfile not found"@,
        XtaskErrorView::CommandFailed(m) => m,
    }
}

/// The outcome of a task, its error taken by its view.
pub open spec fn outcome_view(r: Result<(), XtaskError>) -> Result<(), XtaskErrorView> {
    match r {
        Ok(()) => Ok(()),
        Err(e) => Err(e.deep_view()),
    }
}

impl XtaskError {
    /// The text of the error, as it is displayed.
    pub fn message(&self) -> (s: String)
        ensures
            s@ == error_text(self.deep_view()),
    {
        match self {
            XtaskError::TiltfileNotFound => String::from_str("Tiltfile not found"),
            XtaskError::CommandFailed(m) => m.clone(),
        }
    }
}

/// A copy of an outcome.
pub fn copy_outcome(r: &Result<(), XtaskError>) -> (c: Result<(), XtaskError>)
    ensures
        outcome_view(c) == outcome_view(*r),
{
    match r {
        Ok(()) => Ok(()),
        Err(XtaskError::TiltfileNotFound) => Err(XtaskError::TiltfileNotFound),
        Err(XtaskError::CommandFailed(m)) => Err(XtaskError::CommandFailed(m.clone())),
    }
}

/// The next thing for the runner to do.
#[derive(Debug)]
pub enum Action {
    /// Run the command to its end and report its standard output.
    Capture(CommandLine),
    /// Start the command, write its standard input if it has one, wait for it to end and
    /// report that it ended.
    Run(CommandLine),
    /// Report whether the file exists.
    CheckFile(String),
    /// The task is over, with this outcome.
    Finish(Result<(), XtaskError>),
}

pub enum ActionView {
    Capture(CommandLineView),
    Run(CommandLineView),
    CheckFile(Seq<char>),
    Finish(Result<(), XtaskErrorView>),
}

impl DeepView for Action {
    type V = ActionView;

    open spec fn deep_view(&self) -> ActionView {
        match self {
            Action::Capture(c) => ActionView::Capture(c.deep_view()),
            Action::Run(c) => ActionView::Run(c.deep_view()),
            Action::CheckFile(p) => ActionView::CheckFile(p@),
            Action::Finish(r) => ActionView::Finish(outcome_view(*r)),
        }
    }
}

/// What the runner reports.
#[derive(Debug)]
pub enum Event {
    /// The task begins.
    Start,
    /// The captured command ended with this standard output.
    Output(Vec<u8>),
    /// The started command ended.
    Exited,
    /// Whether the checked file exists.
    FileChecked(bool),
    /// The command could not be run, fed or waited for; the text says why.
    Failed(String),
}

pub enum EventView {
    Start,
    Output(Seq<u8>),
    Exited,
    FileChecked(bool),
    Failed(Seq<char>),
}

impl DeepView for Event {
    type V = EventView;

    open spec fn deep_view(&self) -> EventView {
        match self {
            Event::Start => EventView::Start,
            Event::Output(o) => EventView::Output(o@),
            Event::Exited => EventView::Exited,
            Event::FileChecked(b) => EventView::FileChecked(*b),
            Event::Failed(m) => EventView::Failed(m@),
        }
    }
}

} // verus!
