//! Orchestration core for publishing a command-line tool to several package
//! repositories: target catalog, diagnostic engine, remote-access prober,
//! checksum resolution, configuration conflicts and the publish pipeline.

pub mod targets;
pub mod check;
pub mod text;
pub mod config;
pub mod repositories;
pub mod checksums;
pub mod publish;
