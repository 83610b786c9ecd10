//! What the command line asks for.

use vstd::prelude::*;

verus! {

/// Which of the two fields is to be switched.
#[derive(Clone, Copy, Debug, PartialEq, Eq, Structural)]
pub enum Action {
    /// The document's current context.
    Context,
    /// The namespace of the current context.
    Namespace,
}

/// The arguments of one run.
#[derive(Clone, Debug, PartialEq, Eq)]
pub struct Args {
    pub action: Action,
    /// The new value. Where it is given, nobody is asked.
    pub item_name: Option<String>,
}

} // verus!
