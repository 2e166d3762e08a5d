//! Discovery of locally configured AWS credential profiles and delegated
//! execution of an S3 bucket-listing command through the external `aws`
//! command-line tool.
//!
//! The crate has two independent parts: [`discovery`] parses the user's
//! AWS config file for `[profile <name>]` section headers, and [`runner`]
//! builds the argument vector for the delegated command and classifies
//! the captured output of the spawned process.  Reading the config file
//! and spawning the process are left to the caller; everything that
//! decides — the header scan, the argument assembly, the classification
//! of every possible outcome — is here, with its contract.

pub mod discovery;
pub mod runner;
