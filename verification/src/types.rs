//! The daemon's data model: control-protocol requests and responses, the
//! per-app manifest sections, persisted app state, and the client-side
//! device registry.

use vstd::prelude::*;

verus! {

/// A request to deploy a repository from a forge.
#[derive(Debug, Clone)]
pub struct DeployRequest {
    pub msg_type: String,
    pub repo: String,
    pub forge: String,
    pub auth_user: Option<String>,
    pub auth_password: Option<String>,
    pub daemon_token: Option<String>,
}

/// The single response to a deploy request.
#[derive(Debug, Clone)]
pub struct DeployResponse {
    pub success: bool,
    pub message: String,
    pub app_dir: Option<String>,
}

/// A lifecycle request against a deployed app.
#[derive(Debug, Clone)]
pub struct ManageRequest {
    pub msg_type: String,
    pub app: String,
    pub action: String,
}

/// The single response to a manage request.
#[derive(Debug, Clone)]
pub struct ManageResponse {
    pub success: bool,
    pub message: String,
}

/// Enrollment of a new daemon-token hash; no prior authentication.
#[derive(Debug, Clone)]
pub struct RegisterTokenRequest {
    pub msg_type: String,
    pub token_hash: String,
}

#[derive(Debug, Clone)]
pub struct RegisterTokenResponse {
    pub success: bool,
}

/// Whether an app's process is meant to be up.
#[derive(Debug, Clone, Copy, PartialEq, Eq, Structural)]
pub enum AppStatus {
    Running,
    Stopped,
}

/// How a run command is launched: plain subprocess, a user-scoped transient
/// service-manager unit, or a change-rooted subprocess.
#[derive(Debug, Clone, Copy, PartialEq, Eq, Structural)]
pub enum IsolationKind {
    Plain,
    Systemd,
    Chroot,
}

/// The authoritative per-app record, persisted in the app's directory.
#[derive(Debug, Clone)]
pub struct AppState {
    pub name: String,
    pub version: String,
    pub status: AppStatus,
    pub pid: Option<u32>,
    pub port: Option<u16>,
    pub health_url: Option<String>,
    pub isolation: Option<IsolationKind>,
}

/// The per-app manifest: what to build, how to run, what to expose.
#[derive(Debug, Clone)]
pub struct AppConfig {
    pub app: AppSection,
    pub build: Option<BuildSection>,
    pub run: Option<RunSection>,
    pub env: Option<Vec<(String, String)>>,
    pub web: Option<WebSection>,
    pub health: Option<HealthSection>,
    pub isolation: Option<IsolationSection>,
    pub storage: Option<StorageSection>,
    pub database: Option<DatabaseSection>,
    pub notify: Option<NotifySection>,
    pub secrets: Option<SecretsSection>,
    pub resource_limits: Option<ResourceLimitsSection>,
    pub hooks: Option<HooksSection>,
    pub metrics: Option<MetricsSection>,
    pub strategy: Option<StrategySection>,
}

#[derive(Debug, Clone)]
pub struct AppSection {
    pub name: String,
    pub version: String,
}

#[derive(Debug, Clone)]
pub struct BuildSection {
    pub command: String,
}

#[derive(Debug, Clone)]
pub struct RunSection {
    pub command: String,
    pub port: Option<u16>,
}

#[derive(Debug, Clone)]
pub struct WebSection {
    pub domain: String,
    pub root: Option<String>,
}

#[derive(Debug, Clone)]
pub struct HealthSection {
    pub url: String,
    pub timeout: Option<u64>,
}

#[derive(Debug, Clone)]
pub struct IsolationSection {
    pub kind: String,
}

#[derive(Debug, Clone)]
pub struct StorageSection {
    pub kind: String,
    pub bucket: Option<String>,
    pub endpoint: Option<String>,
    pub access_key: Option<String>,
    pub secret_key: Option<String>,
    pub size: Option<String>,
    pub mount: Option<String>,
    pub public: Option<bool>,
}

#[derive(Debug, Clone)]
pub struct DatabaseSection {
    pub kind: String,
    pub name: Option<String>,
    pub user: Option<String>,
    pub password: Option<String>,
    pub port: Option<u16>,
    pub preseed: Option<String>,
}

#[derive(Debug, Clone)]
pub struct NotifySection {
    pub on_success: Option<Vec<String>>,
    pub on_fail: Option<Vec<String>>,
}

#[derive(Debug, Clone)]
pub struct SecretsSection {
    pub secrets: Vec<(String, String)>,
}

#[derive(Debug, Clone)]
pub struct ResourceLimitsSection {
    pub memory: Option<String>,
    pub cpu: Option<String>,
    pub timeout: Option<String>,
}

#[derive(Debug, Clone)]
pub struct HooksSection {
    pub pre_deploy: Option<String>,
    pub post_deploy: Option<String>,
}

#[derive(Debug, Clone)]
pub struct MetricsSection {
    pub pushgateway: Option<String>,
    pub collect: Option<Vec<String>>,
}

#[derive(Debug, Clone)]
pub struct StrategySection {
    pub kind: String,
    pub percent: Option<u8>,
    pub wait_time: Option<String>,
}

/// A separately addressed daemon instance the client knows about.
#[derive(Debug, Clone)]
pub struct Device {
    pub id: u32,
    pub name: Option<String>,
    pub host: String,
    pub port: u16,
    pub token: Option<String>,
}

impl Device {
    /// A field-for-field copy (the derived clone carries no contract).
    pub fn duplicate(&self) -> (r: Device)
        ensures
            r == *self,
    {
        Device {
            id: self.id,
            name: match &self.name {
                Some(n) => Some(n.clone()),
                None => None,
            },
            host: self.host.clone(),
            port: self.port,
            token: match &self.token {
                Some(t) => Some(t.clone()),
                None => None,
            },
        }
    }
}

/// The client-side device registry.
#[derive(Debug, Clone)]
pub struct FlareConfig {
    pub devices: Vec<Device>,
}

impl Default for FlareConfig {
    /// An empty registry.
    fn default() -> (r: FlareConfig)
        ensures
            r.devices@ =~= Seq::<Device>::empty(),
    {
        FlareConfig { devices: Vec::new() }
    }
}

/// Saved forge credentials on the client side.
#[derive(Debug, Clone)]
pub struct AuthConfig {
    pub user: Option<String>,
    pub password: Option<String>,
    pub forge: Option<String>,
}

impl Default for AuthConfig {
    /// No saved credentials.
    fn default() -> (r: AuthConfig)
        ensures
            r.user is None,
            r.password is None,
            r.forge is None,
    {
        AuthConfig { user: None, password: None, forge: None }
    }
}

/// A daemon that answered a discovery broadcast.
#[derive(Debug, Clone)]
pub struct DiscoveredDevice {
    pub host: String,
    pub port: u16,
}

} // verus!
