//! The `consume` verb. It only says its name.

use vstd::prelude::*;
use vstd::string::*;
use crate::command::{spec_success, success, Action, ActionView};

verus! {

/// The flags of the `consume` verb.
#[derive(Clone, Debug, PartialEq, Eq)]
pub struct Consume {
    /// The brokers to start from.
    pub bootstrap_servers: String,
}

/// The mathematical value of a [`Consume`].
pub struct ConsumeView {
    pub bootstrap_servers: Seq<char>,
}

impl View for Consume {
    type V = ConsumeView;

    open spec fn view(&self) -> ConsumeView {
        ConsumeView { bootstrap_servers: self.bootstrap_servers@ }
    }
}

/// The only action of the verb: the line `consume` on standard output, exit
/// code 0.
pub open spec fn spec_consume() -> ActionView {
    ActionView::Exit(spec_success("consume"@))
}

impl Consume {
    /// The only action of the verb.
    pub fn run(&self) -> (a: Action)
        ensures
            a@ == spec_consume(),
    {
        Action::Exit(success(&String::from_str("consume")))
    }
}

} // verus!
