//! Bootstrap of a desktop application whose logic runs in an embedded Python
//! interpreter: resolving the environment to run against, the capability
//! module offered to the script, and the one-shot lifecycle that ends in the
//! process's exit code.

pub mod bootstrap;
pub mod environment;
pub mod greeting;
pub mod registrar;
