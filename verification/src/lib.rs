//! A build-orchestration pipeline around three external tools: a
//! compiler that produces a WebAssembly module, a runner that checks
//! it, and a minifier that strips it. The pipeline's decisions — which
//! tool to run next, what each outcome means, and what to print — are
//! verified here; spawning the tools and reading the configuration
//! file are left to an unverified driver.

pub mod config;
pub mod pipeline;
pub mod yaml;

pub use config::{ConfigError, SnipParams};
pub use pipeline::{Action, Event, Launch, Pipeline, Stage};
pub use yaml::Node;
