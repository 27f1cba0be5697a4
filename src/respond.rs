//! Responses: what follows from an action and the outcome of reading its file.
use vstd::prelude::*;
use vstd::string::StringExecFns;
use crate::routes::{not_found_file, page_file, page_status, Action, ActionView};

verus! {

/// Status of a successful response.
pub const OK: u16 = 200;

/// Status of a response when no file answers.
pub const NOT_FOUND: u16 = 404;

/// Status of a response to a method other than `GET`.
pub const METHOD_NOT_ALLOWED: u16 = 405;

/// Status of a response when a file exists but cannot be read.
pub const INTERNAL_ERROR: u16 = 500;

/// What came of reading the file of an action.
#[derive(Clone, Debug, PartialEq, Eq)]
pub enum FileOutcome {
    /// The file was read; these are its bytes.
    Found(Vec<u8>),
    /// There is no such file.
    Missing,
    /// The file could not be read for another reason.
    Unreadable,
}

/// The mathematical value of a [`FileOutcome`].
pub enum FileOutcomeView {
    Found(Seq<u8>),
    Missing,
    Unreadable,
}

impl View for FileOutcome {
    type V = FileOutcomeView;

    open spec fn view(&self) -> FileOutcomeView {
        match self {
            FileOutcome::Found(b) => FileOutcomeView::Found(b@),
            FileOutcome::Missing => FileOutcomeView::Missing,
            FileOutcome::Unreadable => FileOutcomeView::Unreadable,
        }
    }
}

/// A response: its status, its body, and the file the body came from
/// (whose name tells the content type).
#[derive(Clone, Debug, PartialEq, Eq)]
pub struct Response {
    pub status: u16,
    pub body: Vec<u8>,
    pub file: Option<String>,
}

/// The mathematical value of a [`Response`].
pub struct ResponseView {
    pub status: u16,
    pub body: Seq<u8>,
    pub file: Option<Seq<char>>,
}

impl View for Response {
    type V = ResponseView;

    open spec fn view(&self) -> ResponseView {
        ResponseView {
            status: self.status,
            body: self.body@,
            file: match self.file {
                Some(f) => Some(f@),
                None => None,
            },
        }
    }
}

/// Either the response, or the action to take next.
#[derive(Clone, Debug, PartialEq, Eq)]
pub enum Step {
    Reply(Response),
    Next(Action),
}

/// The mathematical value of a [`Step`].
pub enum StepView {
    Reply(ResponseView),
    Next(ActionView),
}

impl View for Step {
    type V = StepView;

    open spec fn view(&self) -> StepView {
        match self {
            Step::Reply(r) => StepView::Reply(r@),
            Step::Next(a) => StepView::Next(a@),
        }
    }
}

/// A response with a status and no body.
pub open spec fn bare(status: u16) -> ResponseView {
    ResponseView { status, body: Seq::empty(), file: None }
}

/// A response that carries the bytes of a file.
pub open spec fn from_file(status: u16, body: Seq<u8>, file: Seq<char>) -> ResponseView {
    ResponseView { status, body, file: Some(file) }
}

/// What follows from action `a` when reading its file came to `o`.
/// A named page or the not-found page that is missing answers 404 with no
/// body; a missing static file falls back to the not-found page; a file
/// that cannot be read answers 500; a refused method answers 405
/// whatever `o` is.
pub open spec fn respond_of(a: ActionView, o: FileOutcomeView) -> StepView {
    match a {
        ActionView::MethodNotAllowed => StepView::Reply(bare(METHOD_NOT_ALLOWED)),
        ActionView::Page(p) => match o {
            FileOutcomeView::Found(b) => StepView::Reply(from_file(page_status(p), b, page_file(p))),
            FileOutcomeView::Missing => StepView::Reply(bare(NOT_FOUND)),
            FileOutcomeView::Unreadable => StepView::Reply(bare(INTERNAL_ERROR)),
        },
        ActionView::Static(f) => match o {
            FileOutcomeView::Found(b) => StepView::Reply(from_file(OK, b, f)),
            FileOutcomeView::Missing => StepView::Next(ActionView::NotFoundPage),
            FileOutcomeView::Unreadable => StepView::Reply(bare(INTERNAL_ERROR)),
        },
        ActionView::NotFoundPage => match o {
            FileOutcomeView::Found(b) => StepView::Reply(from_file(NOT_FOUND, b, not_found_file())),
            FileOutcomeView::Missing => StepView::Reply(bare(NOT_FOUND)),
            FileOutcomeView::Unreadable => StepView::Reply(bare(INTERNAL_ERROR)),
        },
    }
}

/// A response with a status and no body.
fn bare_response(status: u16) -> (r: Response)
    ensures
        r@ == bare(status),
{
    let r = Response { status, body: Vec::new(), file: None };
    assert(r@.body =~= Seq::<u8>::empty());
    r
}

/// What follows from `action` when reading its file came to `outcome`.
pub fn respond(action: Action, outcome: FileOutcome) -> (r: Step)
    ensures
        r@ == respond_of(action@, outcome@),
{
    match action {
        Action::MethodNotAllowed => Step::Reply(bare_response(METHOD_NOT_ALLOWED)),
        Action::Page(p) => match outcome {
            FileOutcome::Found(b) => Step::Reply(
                Response { status: p.status(), body: b, file: Some(String::from_str(p.file())) },
            ),
            FileOutcome::Missing => Step::Reply(bare_response(NOT_FOUND)),
            FileOutcome::Unreadable => Step::Reply(bare_response(INTERNAL_ERROR)),
        },
        Action::Static(f) => match outcome {
            FileOutcome::Found(b) => Step::Reply(Response { status: OK, body: b, file: Some(f) }),
            FileOutcome::Missing => Step::Next(Action::NotFoundPage),
            FileOutcome::Unreadable => Step::Reply(bare_response(INTERNAL_ERROR)),
        },
        Action::NotFoundPage => match outcome {
            FileOutcome::Found(b) => Step::Reply(
                Response {
                    status: NOT_FOUND,
                    body: b,
                    file: Some(String::from_str("static/404.html")),
                },
            ),
            FileOutcome::Missing => Step::Reply(bare_response(NOT_FOUND)),
            FileOutcome::Unreadable => Step::Reply(bare_response(INTERNAL_ERROR)),
        },
    }
}

} // verus!
