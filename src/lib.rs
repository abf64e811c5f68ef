//! Decision logic of an album release tool: project naming, credential and
//! manifest validation, the upload retry and worker-pool bookkeeping, the
//! publish and teardown workflows as state machines whose effects are run by
//! the caller, the platform client's URLs and response handling, and the
//! text of the album page and of a new album's manifest.

pub mod text;
pub mod naming;
pub mod upload;
pub mod publish;
pub mod teardown;
pub mod config;
pub mod template;
pub mod types;
pub mod credentials;
pub mod client;
pub mod deployer;
pub mod generator;
pub mod validator;
pub mod scaffold;
pub mod page;
