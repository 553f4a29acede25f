//! Lifecycle control for one ephemeral compute resource: resolve the
//! provisioning variables, clear stale engine workspaces, and make sure the
//! resource is torn down exactly once whichever way the run ends.

pub mod lifecycle;
pub mod provider;
pub mod request;
pub mod rules;
pub mod summary;
pub mod text;
pub mod vars;
pub mod workspace;
