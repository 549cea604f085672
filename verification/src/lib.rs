//! Decision core of a polling daemon that keeps local working copies in
//! step with their remotes and triggers a build whenever a repository
//! advances or has never produced build output.
//!
//! Everything with decision content lives here, verified: the
//! fast-forward synchronization policy, the build-trigger rule, the
//! classification of a finished build, the per-cycle sequencing over all
//! configured repositories, and the inter-cycle sleep cadence.  The
//! surrounding process — reading configuration records, talking to the
//! version-control library, spawning the build command, sleeping — is an
//! unverified shell that feeds plain values in and carries decisions out.

pub mod config;
pub mod cycle;
pub mod executor;
pub mod sync;
