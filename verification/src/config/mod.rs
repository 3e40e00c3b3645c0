//! Configuration models and their resolution.
pub mod effective;
pub mod repo;
pub mod repository;
pub mod user;

pub use effective::EffectiveConfig;
pub use repo::{BackendSection, BackendType, BenchConfig, CloudConfig, ProjectConfig, RepoConfig};
pub use repository::RepositoryRef;
pub use user::{Config, UserCloudConfig};
