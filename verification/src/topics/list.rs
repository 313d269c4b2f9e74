//! `topics list`: the names of the cluster's topics as a JSON array.

use vstd::prelude::*;
use crate::command::{
    spec_success, spec_text, spec_texts, success, Action, ActionView, Exit, ExitView,
};

verus! {

/// The flags of `topics list`.
#[derive(Clone, Debug, PartialEq, Eq)]
pub struct List {
    /// The brokers to start from, handed to the broker client as one entry.
    pub bootstrap_servers: String,
}

/// The mathematical value of a [`List`].
pub struct ListView {
    pub bootstrap_servers: Seq<char>,
}

impl View for List {
    type V = ListView;

    open spec fn view(&self) -> ListView {
        ListView { bootstrap_servers: self.bootstrap_servers@ }
    }
}

/// The names could not be rendered as JSON.
#[derive(Clone, Copy, Debug, PartialEq, Eq, Structural)]
pub struct Unserialisable;

/// The error of `serde_json`. It is carried through unread: nothing is
/// claimed of what it holds.
#[verifier::external_type_specification]
#[verifier::external_body]
pub struct ExJsonError(serde_json::Error);

/// The pretty-printed JSON array that `serde_json` renders of a list of
/// texts; `None` where it reports an error instead.
pub uninterp spec fn spec_pretty_names(names: Seq<Seq<char>>) -> Option<Seq<char>>;

/// Calls `serde_json::to_string_pretty` on the list. The contract claims
/// only that the outcome is fixed by the texts of the list: the rendering on
/// `Ok`, and that there is none on `Err`.
#[verifier::external_body]
fn pretty_names(names: &Vec<String>) -> (r: Result<String, serde_json::Error>)
    ensures
        match r {
            Ok(json) => spec_pretty_names(spec_texts(*names)) == Some(json@),
            Err(_) => spec_pretty_names(spec_texts(*names)) is None,
        },
{
    serde_json::to_string_pretty(names)
}

/// The first action of `topics list`: load every topic from the one entry of
/// bootstrap servers.
pub open spec fn spec_list_run(l: ListView) -> ActionView {
    ActionView::LoadTopics { hosts: seq![l.bootstrap_servers] }
}

/// How `topics list` ends on what the rendering gave: the JSON as a line on
/// standard output with exit code 0, or the error.
pub open spec fn spec_listed(json: Option<Seq<char>>) -> Result<ExitView, Unserialisable> {
    match json {
        Some(text) => Ok(spec_success(text)),
        None => Err(Unserialisable),
    }
}

/// The mathematical value of what `listed` and `loaded` return.
pub open spec fn spec_listing(r: Result<Exit, Unserialisable>) -> Result<ExitView, Unserialisable> {
    match r {
        Ok(exit) => Ok(exit@),
        Err(e) => Err(e),
    }
}

/// Ends `topics list` on what the rendering gave.
pub fn listed(json: Option<String>) -> (r: Result<Exit, Unserialisable>)
    ensures
        spec_listing(r) == spec_listed(spec_text(json)),
{
    match json {
        Some(text) => Ok(success(&text)),
        None => Err(Unserialisable),
    }
}

impl List {
    /// The first action of `topics list`.
    pub fn run(&self) -> (a: Action)
        ensures
            a@ == spec_list_run(self@),
    {
        let hosts = vec![self.bootstrap_servers.clone()];
        assert(spec_texts(hosts) =~= seq![self.bootstrap_servers@]);
        Action::LoadTopics { hosts }
    }

    /// Ends `topics list` once the names are loaded: renders them, in the
    /// order given, as a pretty-printed JSON array.
    pub fn loaded(&self, names: &Vec<String>) -> (r: Result<Exit, Unserialisable>)
        ensures
            spec_listing(r) == spec_listed(spec_pretty_names(spec_texts(*names))),
    {
        match pretty_names(names) {
            Ok(json) => listed(Some(json)),
            Err(_) => listed(None),
        }
    }
}

} // verus!
