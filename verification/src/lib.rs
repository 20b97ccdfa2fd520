//! Deploy manifests: the data model, its validation rules, and the
//! format detection and error reporting around reading a manifest.

pub mod cli;
pub mod error;
pub mod model;
pub mod parser;
pub mod text;
pub mod validation;

pub use error::{DeployError, ValidationError, Violation};
pub use model::{
    App, Build, CronJob, DeployManifest, EnvValue, Health, Network, Runtime, Scaling, Service,
    Start, StartCommand, Storage, Worker,
};
pub use parser::Format;
pub use text::{decimal_string, str_eq};
pub use validation::Validate;
