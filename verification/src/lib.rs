//! A streaming migration engine that turns the identity and session rows of a
//! Synapse homeserver into the rows of a Matrix Authentication Service
//! database.
//!
//! The engine performs no input or output. A driver reads the source tables
//! row by row and hands each row to the [`Pipeline`], which answers with the
//! batches of rows to insert. Inside the pipeline a [`Migration`] turns each
//! source row into its destination rows, and a [`MasWriteBuffer`] per kind
//! of row gathers them into batches.

pub mod error;
pub mod ident;
pub mod laws;
pub mod localpart;
pub mod mas;
pub mod migration;
pub mod pipeline;
pub mod providers;
pub mod record;
pub mod session_index;
pub mod state;
pub mod synapse;
pub mod text;
pub mod write_buffer;

pub use error::{Error, ErrorView};
pub use ident::{id_timestamp, mint, timestamp_of, Timestamp, RANDOM_SPAN, TIMESTAMP_LIMIT};
pub use localpart::extract_localpart;
pub use mas::{
    IpAddress, MasNewCompatAccessToken, MasNewCompatRefreshToken, MasNewCompatSession,
    MasNewEmailThreepid, MasNewThreepid, MasNewUnsupportedThreepid, MasNewUpstreamOauthLink,
    MasNewUser, MasNewUserPassword,
};
pub use migration::{transform_user, Migration};
pub use state::{MigrationView, Stage};
pub use pipeline::{Pipeline, PipelineView, Rows};
pub use providers::ProviderMapping;
pub use record::Record;
pub use session_index::SessionIndex;
pub use synapse::{
    SynapseAccessToken, SynapseDevice, SynapseExternalId, SynapseRefreshableTokenPair,
    SynapseThreepid, SynapseUser,
};
pub use write_buffer::{MasWriteBuffer, WRITE_BUFFER_BATCH_SIZE};
