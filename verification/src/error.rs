//! The ways in which a migration can fail.

use vstd::prelude::*;

verus! {

/// Why a migration was aborted. Every error ends the run; none is recovered
/// from.
#[derive(Debug, PartialEq, Eq)]
pub enum Error {
    /// The source database could not be read; `context` names what was being
    /// read.
    SourceRead { context: String },
    /// The destination database refused a write; `context` names what was
    /// being written.
    DestinationWrite { context: String },
    /// `user` is not of the form `@<localpart>:<server name>` for the server
    /// being migrated.
    InvalidUserId { user: String },
    /// A row of `table` belongs to `user`, who is not among the migrated
    /// users.
    MissingUserFromDependentTable { table: String, user: String },
    /// `user` is linked to the auth provider `synapse_id`, for which no
    /// upstream provider was supplied.
    MissingAuthProviderMapping { synapse_id: String, user: String },
}

/// The mathematical value of an [`Error`]: the same variants, over character
/// sequences.
pub enum ErrorView {
    SourceRead { context: Seq<char> },
    DestinationWrite { context: Seq<char> },
    InvalidUserId { user: Seq<char> },
    MissingUserFromDependentTable { table: Seq<char>, user: Seq<char> },
    MissingAuthProviderMapping { synapse_id: Seq<char>, user: Seq<char> },
}

impl View for Error {
    type V = ErrorView;

    open spec fn view(&self) -> ErrorView {
        match *self {
            Error::SourceRead { context } => ErrorView::SourceRead { context: context@ },
            Error::DestinationWrite { context } => ErrorView::DestinationWrite {
                context: context@,
            },
            Error::InvalidUserId { user } => ErrorView::InvalidUserId { user: user@ },
            Error::MissingUserFromDependentTable { table, user } => {
                ErrorView::MissingUserFromDependentTable { table: table@, user: user@ }
            },
            Error::MissingAuthProviderMapping { synapse_id, user } => {
                ErrorView::MissingAuthProviderMapping { synapse_id: synapse_id@, user: user@ }
            },
        }
    }
}

} // verus!
