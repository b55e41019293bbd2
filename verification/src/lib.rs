//! Flared: a single-host application deployment daemon, as a verified library.
//!
//! The control-plane logic lives here: wire framing, token authentication,
//! the deployment pipeline's decisions, versioned rollback, the ingress
//! routing table and the health registry. The surrounding process (sockets,
//! TLS, files, subprocesses) hands this library plain values and carries out
//! the plans it returns.

pub mod assoc;
pub mod deploy;
pub mod devices;
pub mod envfile;
pub mod framing;
pub mod health;
pub mod lifecycle;
pub mod netpolicy;
pub mod paths;
pub mod protocol;
pub mod provision;
pub mod routing;
pub mod split;
pub mod strutil;
pub mod tokens;
pub mod types;
