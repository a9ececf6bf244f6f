//! A package manager and build orchestrator for an embeddable scripting
//! runtime: users install native extension packages from a local directory or
//! a remote repository, and the tool synthesizes, builds and runs a host
//! executable that embeds the runtime together with every installed package.
//!
//! The crate verifies the install/build/run lifecycle: resolving a package
//! source into a typed identity, keeping a registry of installed packages with
//! unique names, rewriting the host project's build manifest and entry-point
//! source from the registry, and planning the dispatch of a script run.
//! Filesystem probes, the manifest text format and external toolchain
//! invocations are reached only through a small set of trusted wrappers;
//! everything that decides or computes is specified and proved.

pub mod commands;
pub mod config;
pub mod errors;
pub mod host;
pub mod manifest;
pub mod package;
pub mod run;
pub mod strutil;
