//! What the caller is asked to do between two steps of the library.
//!
//! The library neither prompts nor talks to a cluster. Each of its steps takes
//! the document and what the caller has learnt, and gives back the document and
//! a `Next`: the one thing that the caller is to do before the following step.

use crate::error::Error;
use vstd::prelude::*;

verus! {

/// A request to the caller.
#[derive(Clone, Debug, PartialEq, Eq)]
pub enum Next {
    /// Ask the cluster for the names of its namespaces, in the order in which
    /// it gives them, and hand them to the step that takes the listing.
    ListNamespaces,
    /// Put this text before the user, who picks one of its lines, and hand
    /// what the prompt reports to the step that takes the answer.
    Prompt(String),
    /// Write the document back: it has its new value.
    Store,
    /// Tell the user that nothing was selected, and write the document back
    /// as it is.
    Keep,
    /// End the run with this error. The document is not written back.
    Fail(Error),
}

/// A `Next` with its text as a sequence of characters.
pub enum NextView {
    ListNamespaces,
    Prompt(Seq<char>),
    Store,
    Keep,
    Fail(Error),
}

impl View for Next {
    type V = NextView;

    open spec fn view(&self) -> NextView {
        match self {
            Next::ListNamespaces => NextView::ListNamespaces,
            Next::Prompt(text) => NextView::Prompt(text@),
            Next::Store => NextView::Store,
            Next::Keep => NextView::Keep,
            Next::Fail(error) => NextView::Fail(*error),
        }
    }
}

/// The text of `keep_notice`.
pub open spec fn keep_notice_text() -> Seq<char> {
    "No namespace selected"@
}

/// What to tell the user on `Next::Keep`.
pub fn keep_notice() -> (notice: String)
    ensures
        notice@ == keep_notice_text(),
{
    "No namespace selected".to_owned()
}

} // verus!
