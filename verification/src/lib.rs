//! Client-side core of a package distribution and remote execution protocol.
//!
//! The library holds the decision logic: package-name handling, registry
//! resolution, archive entry selection, the dependency-install worklist,
//! publish/unpublish request planning, remote-run request and response
//! planning, and the administrative user payloads. Network and filesystem
//! work is left to the caller, which feeds results back in as plain values.

#![verifier::loop_isolation(false)]

pub mod admin;
pub mod archive;
pub mod auth;
pub mod installer;
pub mod logger;
pub mod manifest;
pub mod paths;
pub mod perms;
pub mod pkgname;
pub mod publish;
pub mod remote;
pub mod textutil;
