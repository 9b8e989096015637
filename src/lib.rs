//! A TLS endpoint auditor: the decision logic behind probing which protocol
//! versions and cipher suites a `host:port` accepts, classifying each suite,
//! and assembling one coherent report from the probe outcomes
//! (`classify`, `names`, `tool_output`, `report`).
//!
//! Beside it stand the rules of the desktop toolbox's other commands: the
//! HTTP relay (`http`), image re-encoding and PDF page selection (`media`),
//! password hashing (`password`) and DSA key export (`keys`, `hex`).

pub mod text;
pub mod classify;
pub mod names;
pub mod tool_output;
pub mod report;
pub mod hex;
pub mod http;
pub mod media;
pub mod password;
pub mod keys;
