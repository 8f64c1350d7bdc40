//! Decision core of a code-execution sandbox: the runtime registry, the workspace
//! layout, the command that starts the isolated environment, how a finished run is
//! classified and scored, and the lifecycle of one sandbox. The caller performs the
//! file system and process work that these decisions ask for.

pub mod compiler;
pub mod driver;
pub mod error;
pub mod request;
pub mod sandbox;
pub mod scoring;
pub mod text;
pub mod workspace;
