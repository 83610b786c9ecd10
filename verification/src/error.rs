//! The ways in which a run can fail.

use vstd::prelude::*;

verus! {

/// Why a run ended without the document being written back. Every kind ends
/// the run: none is tried again.
///
/// The library itself reports `ConfigLocationUnresolvable` and
/// `SelectionCancelled`. The other three belong to the caller, who reads the
/// file, asks the cluster and writes the file.
#[derive(Clone, Copy, Debug, PartialEq, Eq, Structural)]
pub enum Error {
    /// Neither an explicit path nor a home directory is known.
    ConfigLocationUnresolvable,
    /// The file does not hold a document of the expected shape.
    MalformedConfig,
    /// The user left the prompt without choosing.
    SelectionCancelled,
    /// The cluster did not list its namespaces.
    RemoteListingFailed,
    /// The file could not be read or written.
    PersistenceFailed,
}

impl Error {
    /// The text of `message`.
    pub open spec fn text(self) -> Seq<char> {
        match self {
            Error::ConfigLocationUnresolvable => "HOME env var is not set"@,
            Error::MalformedConfig => "Malformed config"@,
            Error::SelectionCancelled => "Selection cancelled"@,
            Error::RemoteListingFailed => "Listing the namespaces failed"@,
            Error::PersistenceFailed => "Reading or writing the config failed"@,
        }
    }

    /// What to tell the user about this failure.
    pub fn message(&self) -> (message: String)
        ensures
            message@ == self.text(),
    {
        match self {
            Error::ConfigLocationUnresolvable => "HOME env var is not set".to_owned(),
            Error::MalformedConfig => "Malformed config".to_owned(),
            Error::SelectionCancelled => "Selection cancelled".to_owned(),
            Error::RemoteListingFailed => "Listing the namespaces failed".to_owned(),
            Error::PersistenceFailed => "Reading or writing the config failed".to_owned(),
        }
    }
}

} // verus!
