//! What a command hands back to its caller: the next thing to do outside the
//! library, up to the end of the process.

use vstd::prelude::*;
use vstd::string::*;

verus! {

/// One of the two output streams of the process.
#[derive(Clone, Copy, Debug, PartialEq, Eq, Structural)]
pub enum Stream {
    Stdout,
    Stderr,
}

/// The end of the process: `text` is written to `stream` as it stands, then
/// the process exits with `code`.
#[derive(Clone, Debug, PartialEq, Eq)]
pub struct Exit {
    pub stream: Stream,
    pub text: String,
    pub code: i32,
}

/// The mathematical value of an [`Exit`].
pub struct ExitView {
    pub stream: Stream,
    pub text: Seq<char>,
    pub code: int,
}

impl View for Exit {
    type V = ExitView;

    open spec fn view(&self) -> ExitView {
        ExitView { stream: self.stream, text: self.text@, code: self.code as int }
    }
}

/// The method of a request to the registry.
#[derive(Clone, Copy, Debug, PartialEq, Eq, Structural)]
pub enum Method {
    Get,
    Post,
    Delete,
}

/// One request to the registry. The body is sent as it stands.
#[derive(Clone, Debug, PartialEq, Eq)]
pub struct Request {
    pub method: Method,
    pub url: String,
    pub body: Option<String>,
}

/// The mathematical value of a [`Request`].
pub struct RequestView {
    pub method: Method,
    pub url: Seq<char>,
    pub body: Option<Seq<char>>,
}

/// The characters of an optional text.
pub open spec fn spec_text(o: Option<String>) -> Option<Seq<char>> {
    match o {
        Some(s) => Some(s@),
        None => None,
    }
}

impl View for Request {
    type V = RequestView;

    open spec fn view(&self) -> RequestView {
        RequestView { method: self.method, url: self.url@, body: spec_text(self.body) }
    }
}

/// What the registry answered.
#[derive(Clone, Debug, PartialEq, Eq)]
pub struct HttpOutcome {
    pub status: u16,
    pub body: String,
}

/// The next thing for the caller to do.
#[derive(Clone, Debug, PartialEq, Eq)]
pub enum Action {
    /// Send the request, then go on with `http` on the answer, or with
    /// `failure` on the transport's diagnostic.
    Send(Request),
    /// Find out whether standard input is a terminal, then go on with
    /// `piped_stdin`. The body of a POST to `url` is awaited from there.
    Probe { url: String },
    /// Write `announce` to standard output, read standard input to its end,
    /// then go on with `http_post` on `url` and what was read.
    Read { announce: String, url: String },
    /// Load the metadata of every topic from the brokers at `hosts`, then go
    /// on with `List::loaded`.
    LoadTopics { hosts: Vec<String> },
    /// Load the metadata of `topic` from the brokers at `hosts`, then go on
    /// with `Describe::loaded`.
    LoadTopic { hosts: Vec<String>, topic: String },
    /// End the process.
    Exit(Exit),
}

/// The mathematical value of an [`Action`].
pub enum ActionView {
    Send(RequestView),
    Probe { url: Seq<char> },
    Read { announce: Seq<char>, url: Seq<char> },
    LoadTopics { hosts: Seq<Seq<char>> },
    LoadTopic { hosts: Seq<Seq<char>>, topic: Seq<char> },
    Exit(ExitView),
}

/// The characters of each text of a list.
pub open spec fn spec_texts(v: Vec<String>) -> Seq<Seq<char>> {
    Seq::new(v@.len(), |i: int| v@[i]@)
}

impl View for Action {
    type V = ActionView;

    open spec fn view(&self) -> ActionView {
        match *self {
            Action::Send(request) => ActionView::Send(request@),
            Action::Probe { url } => ActionView::Probe { url: url@ },
            Action::Read { announce, url } => ActionView::Read { announce: announce@, url: url@ },
            Action::LoadTopics { hosts } => ActionView::LoadTopics { hosts: spec_texts(hosts) },
            Action::LoadTopic { hosts, topic } => ActionView::LoadTopic {
                hosts: spec_texts(hosts),
                topic: topic@,
            },
            Action::Exit(exit) => ActionView::Exit(exit@),
        }
    }
}

/// The end of a run that did its work: `text` and a line feed on standard
/// output, exit code 0.
pub open spec fn spec_success(text: Seq<char>) -> ExitView {
    ExitView { stream: Stream::Stdout, text: text + "\n"@, code: 0 }
}

/// The end of a run that failed: `text` and a line feed on standard error,
/// exit code 1.
pub open spec fn spec_failure(text: Seq<char>) -> ExitView {
    ExitView { stream: Stream::Stderr, text: text + "\n"@, code: 1 }
}

/// What the argument parser leaves to say when it hands back no invocation:
/// help that was asked for goes to standard output with exit code 0, a usage
/// error to standard error with exit code 2. The rendered text is written as
/// it stands.
pub open spec fn spec_unparsed(help: bool, rendered: Seq<char>) -> ExitView {
    if help {
        ExitView { stream: Stream::Stdout, text: rendered, code: 0 }
    } else {
        ExitView { stream: Stream::Stderr, text: rendered, code: 2 }
    }
}

/// `text` followed by a line feed.
pub fn line_of(text: &String) -> (r: String)
    ensures
        r@ == text@ + "\n"@,
{
    let mut r = text.clone();
    r.append("\n");
    r
}

/// Ends the process with `text` as a line on standard output and exit code 0.
pub fn success(text: &String) -> (e: Exit)
    ensures
        e@ == spec_success(text@),
{
    Exit { stream: Stream::Stdout, text: line_of(text), code: 0 }
}

/// Ends the process with `text` as a line on standard error and exit code 1.
/// This is how every transport, broker and input error ends.
pub fn failure(text: &String) -> (e: Exit)
    ensures
        e@ == spec_failure(text@),
{
    Exit { stream: Stream::Stderr, text: line_of(text), code: 1 }
}

/// Ends the process when the arguments gave no invocation: see
/// [`spec_unparsed`].
pub fn unparsed(help: bool, rendered: String) -> (e: Exit)
    ensures
        e@ == spec_unparsed(help, rendered@),
{
    if help {
        Exit { stream: Stream::Stdout, text: rendered, code: 0 }
    } else {
        Exit { stream: Stream::Stderr, text: rendered, code: 2 }
    }
}

} // verus!
