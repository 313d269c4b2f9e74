//! One invocation of the tool: a verb with its flags.

use vstd::prelude::*;
use crate::command::{Action, ActionView};
use crate::consume::{spec_consume, Consume, ConsumeView};
use crate::schemas::{spec_run, Schemas, SchemasView};
use crate::topics::{spec_topics_run, Topics, TopicsView};

verus! {

/// What the arguments were parsed into.
#[derive(Clone, Debug, PartialEq, Eq)]
pub enum Invocation {
    Topics(Topics),
    Consume(Consume),
    Schemas(Schemas),
}

/// The mathematical value of an [`Invocation`].
pub enum InvocationView {
    Topics(TopicsView),
    Consume(ConsumeView),
    Schemas(SchemasView),
}

impl View for Invocation {
    type V = InvocationView;

    open spec fn view(&self) -> InvocationView {
        match *self {
            Invocation::Topics(topics) => InvocationView::Topics(topics@),
            Invocation::Consume(consume) => InvocationView::Consume(consume@),
            Invocation::Schemas(schemas) => InvocationView::Schemas(schemas@),
        }
    }
}

/// The first action of an invocation: that of its verb.
pub open spec fn spec_invoke(i: InvocationView) -> ActionView {
    match i {
        InvocationView::Topics(topics) => spec_topics_run(topics),
        InvocationView::Consume(_) => spec_consume(),
        InvocationView::Schemas(schemas) => spec_run(schemas),
    }
}

impl Invocation {
    /// The first action of the invocation: that of its verb.
    pub fn run(&self) -> (a: Action)
        ensures
            a@ == spec_invoke(self@),
    {
        match self {
            Invocation::Topics(topics) => topics.run(),
            Invocation::Consume(consume) => consume.run(),
            Invocation::Schemas(schemas) => schemas.run(),
        }
    }
}

} // verus!
