//! The `topics` verb and its two subcommands.

use vstd::prelude::*;
use crate::command::{Action, ActionView};
use crate::topics::describe::{spec_describe_run, Describe, DescribeView};
use crate::topics::list::{spec_list_run, List, ListView};

pub mod describe;
pub mod list;

verus! {

/// The subcommands of `topics`.
#[derive(Clone, Debug, PartialEq, Eq)]
pub enum SubCommand {
    List(List),
    Describe(Describe),
}

/// The `topics` verb.
#[derive(Clone, Debug, PartialEq, Eq)]
pub struct Topics {
    pub sub_command: SubCommand,
}

/// The mathematical value of a [`Topics`].
pub enum TopicsView {
    List(ListView),
    Describe(DescribeView),
}

impl View for Topics {
    type V = TopicsView;

    open spec fn view(&self) -> TopicsView {
        match self.sub_command {
            SubCommand::List(list) => TopicsView::List(list@),
            SubCommand::Describe(describe) => TopicsView::Describe(describe@),
        }
    }
}

/// The first action of `topics`: that of its subcommand.
pub open spec fn spec_topics_run(t: TopicsView) -> ActionView {
    match t {
        TopicsView::List(list) => spec_list_run(list),
        TopicsView::Describe(describe) => spec_describe_run(describe),
    }
}

impl Topics {
    /// The first action of `topics`: that of its subcommand.
    pub fn run(&self) -> (a: Action)
        ensures
            a@ == spec_topics_run(self@),
    {
        match &self.sub_command {
            SubCommand::List(list) => list.run(),
            SubCommand::Describe(describe) => describe.run(),
        }
    }
}

} // verus!
