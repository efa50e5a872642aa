//! Deckwatch plugin: provisions AWS resources (IAM, RDS, S3) with a unified
//! per-workload IAM role.
//!
//! The library holds every decision of the plugin, and no input or output. Its entry
//! points are
//!
//! - [`metadata()`]: what the plugin declares of itself,
//! - [`apply()`]: what a deployment is given, and the AWS calls that lead there,
//! - [`provision()`]: one resource on behalf of an application,
//! - [`apply_inner`]: the part of [`apply()`] that makes no call.
//!
//! [`apply()`] and [`provision()`] are flows: each maps the replies that came back so
//! far to the next call, or to the result (see [`api`]). [`AwsCredentials::from_config`]
//! finds the credentials that calls are signed with, and [`clock`] the time at which
//! they are.
pub mod api;
pub mod apply;
pub mod aws_sign;
pub mod backup;
pub mod clock;
pub mod config;
pub mod context;
pub mod credentials;
pub mod encode;
pub mod extract;
pub mod iam;
pub mod json;
pub mod metadata;
pub mod number;
pub mod plugin;
pub mod provision;
pub mod rds;
pub mod s3;
pub mod secretsmanager;
pub mod settings;
pub mod split;
pub mod sqs;
pub mod string_map;
pub mod sts;
pub mod text;
pub mod transport;

pub use crate::apply::apply;
pub use crate::config::{AwsConfig, RdsConfig, S3Config};
pub use crate::context::PluginContext;
pub use crate::credentials::AwsCredentials;
pub use crate::metadata::{metadata, rds_resource, s3_resource};
pub use crate::plugin::{apply_inner, EnvVarSpec, PluginResult};
pub use crate::provision::{provision, ResourceProvisionRequest, ResourceProvisionResult};
pub use crate::settings::PluginSettings;
pub use crate::string_map::StringMap;
