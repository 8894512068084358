//! Models of the configuration files that the checks inspect. Each holds, as
//! plain values, the fields that the checks read.

pub mod cargo;
pub mod devbox;
pub mod packagejson;
pub mod precommit;
pub mod pyproject;
pub mod renovate;
pub mod tsconfig;

pub use cargo::CargoToml;
pub use devbox::DevboxConfig;
pub use packagejson::PackageJson;
pub use precommit::PrecommitConfig;
pub use pyproject::PyprojectToml;
pub use renovate::RenovateConfig;
pub use tsconfig::{TsCompilerOptions, TsConfig};
