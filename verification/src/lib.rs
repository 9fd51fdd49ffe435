//! Keeps a local catalog of music artists in step with a remote listening
//! history, and keeps the OAuth2 credential that the enrichment service
//! asks for valid while doing so.
//!
//! The library decides and computes; it does no input or output. Two state
//! machines carry the work, each driven by a caller that performs what the
//! machine asks for and reports what came of it:
//!
//! - [`credentials::Manager`] leads from whatever the token store holds to a
//!   valid access token, by way of the authorization flow, the
//!   authorization-code grant and the refresh grant.
//! - [`reconcile::Engine`] deals with the artist records of the remote
//!   catalog one at a time, and says for each whether to look up a seed and
//!   what to write to the artist store.
//!
//! The other modules serve them: [`catalog`] and [`enrichment`] build the
//! addresses of the two services and read their answers, [`oauth`] builds
//! and reads what is exchanged with the token endpoint, [`json`] reads the
//! documents, [`clock`] the instants, and [`text`] holds the work on
//! characters.

pub mod catalog;
pub mod clock;
pub mod credentials;
pub mod enrichment;
pub mod json;
pub mod oauth;
pub mod reconcile;
pub mod text;
