//! Decision logic of the NemoClaw command line: how a gateway is deployed, found
//! again and addressed, and what the command line makes of its arguments.
//!
//! The functions here work on plain values; an error of a connection is read as the
//! `miette::Report` that it comes as. What reads disks and environments, talks to
//! containers and prints stands outside.

pub mod bootstrap;
pub mod cli;
pub mod deploy;
pub mod encoding;
pub mod gateway;
pub mod hosts;
pub mod images;
pub mod metadata;
pub mod namespace;
pub mod options;
pub mod pki;
pub mod reconcile;
pub mod shell;
pub mod text;
pub mod tls;
