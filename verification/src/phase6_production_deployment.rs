//! Production deployment: the deployment configuration, the deployment run
//! with its progress messages, the readiness checklist, and the health and
//! status that the run leaves behind.
use vstd::prelude::*;
use vstd::string::*;
use crate::crypto::{duration_from_secs, format_duration_debug, instant_elapsed, instant_now, unix_time_nanos, unix_time_secs};
use crate::error::PrivacyError;
use crate::text::{decimal_chars, owned, push_decimal_u128, string_views};
use std::time::Duration;

verus! {

/// Deployment configuration
#[derive(Debug, Clone)]
pub struct DeploymentConfig {
    /// Environment type
    pub environment: EnvironmentType,
    /// Node configuration
    pub node_config: NodeConfig,
    /// Network configuration
    pub network_config: NetworkConfig,
    /// Database configuration
    pub database_config: DatabaseConfig,
    /// Monitoring configuration
    pub monitoring_config: MonitoringConfig,
    /// Security configuration
    pub security_config: SecurityConfig,
}

/// Environment types
#[derive(Debug, Clone, Copy, PartialEq, Eq, Structural)]
pub enum EnvironmentType {
    /// Development environment
    Development,
    /// Staging environment
    Staging,
    /// Production environment
    Production,
    /// Testing environment
    Testing,
}

/// Node configuration
#[derive(Debug, Clone)]
pub struct NodeConfig {
    /// Node ID
    pub node_id: String,
    /// Node type
    pub node_type: NodeType,
    /// Resource allocation
    pub resources: ResourceAllocation,
    /// Scaling configuration
    pub scaling_config: ScalingConfig,
}

/// Node types
#[derive(Debug, Clone, Copy, PartialEq, Eq, Structural)]
pub enum NodeType {
    /// Validator node
    Validator,
    /// Full node
    FullNode,
    /// Light node
    LightNode,
    /// Archive node
    ArchiveNode,
    /// RPC node
    RpcNode,
}

/// Resource allocation
#[derive(Debug, Clone)]
pub struct ResourceAllocation {
    /// CPU cores
    pub cpu_cores: u32,
    /// Memory in GB
    pub memory_gb: u32,
    /// Storage in GB
    pub storage_gb: u32,
    /// Network bandwidth in Mbps
    pub network_bandwidth_mbps: u32,
}

/// Scaling configuration
#[derive(Debug, Clone)]
pub struct ScalingConfig {
    /// Auto-scaling enabled
    pub auto_scaling: bool,
    /// Minimum instances
    pub min_instances: u32,
    /// Maximum instances
    pub max_instances: u32,
}

/// Trigger types
#[derive(Debug, Clone, Copy, PartialEq, Eq, Structural)]
pub enum TriggerType {
    /// CPU utilization
    CpuUtilization,
    /// Memory utilization
    MemoryUtilization,
    /// Network traffic
    NetworkTraffic,
    /// Transaction volume
    TransactionVolume,
    /// Response time
    ResponseTime,
}

/// Scaling actions
#[derive(Debug, Clone, Copy, PartialEq, Eq, Structural)]
pub enum ScalingAction {
    /// Scale up
    ScaleUp,
    /// Scale down
    ScaleDown,
    /// Alert only
    AlertOnly,
}

/// Network configuration
#[derive(Debug, Clone)]
pub struct NetworkConfig {
    /// Network ID
    pub network_id: String,
    /// Bootstrap nodes
    pub bootstrap_nodes: Vec<String>,
    /// P2P port
    pub p2p_port: u16,
    /// RPC port
    pub rpc_port: u16,
    /// WebSocket port
    pub websocket_port: u16,
    /// Network discovery
    pub discovery_enabled: bool,
}

/// Database configuration
#[derive(Debug, Clone)]
pub struct DatabaseConfig {
    /// Database type
    pub db_type: DatabaseType,
    /// Connection string
    pub connection_string: String,
    /// Connection pool size
    pub pool_size: u32,
    /// Backup configuration
    pub backup_config: BackupConfig,
}

/// Database types
#[derive(Debug, Clone, Copy, PartialEq, Eq, Structural)]
pub enum DatabaseType {
    /// PostgreSQL
    PostgreSQL,
    /// MySQL
    MySQL,
    /// SQLite
    SQLite,
    /// Redis
    Redis,
}

/// Backup configuration
#[derive(Debug, Clone)]
pub struct BackupConfig {
    /// Backup enabled
    pub enabled: bool,
    /// Backup frequency
    pub frequency: BackupFrequency,
    /// Retention period
    pub retention_days: u32,
    /// Backup location
    pub backup_location: String,
}

/// Backup frequencies
#[derive(Debug, Clone, Copy, PartialEq, Eq, Structural)]
pub enum BackupFrequency {
    /// Hourly
    Hourly,
    /// Daily
    Daily,
    /// Weekly
    Weekly,
    /// Monthly
    Monthly,
}

/// Monitoring configuration
#[derive(Debug, Clone)]
pub struct MonitoringConfig {
    /// Metrics collection
    pub metrics_enabled: bool,
    /// Logging configuration
    pub logging_config: LoggingConfig,
    /// Alerting configuration
    pub alerting_config: AlertingConfig,
    /// Dashboard configuration
    pub dashboard_config: DashboardConfig,
}

/// Logging configuration
#[derive(Debug, Clone)]
pub struct LoggingConfig {
    /// Log level
    pub log_level: LogLevel,
    /// Log format
    pub log_format: LogFormat,
    /// Log destination
    pub log_destination: LogDestination,
    /// Log retention
    pub retention_days: u32,
}

/// Log levels
#[derive(Debug, Clone, Copy, PartialEq, Eq, Structural)]
pub enum LogLevel {
    /// Error
    Error,
    /// Warning
    Warning,
    /// Info
    Info,
    /// Debug
    Debug,
    /// Trace
    Trace,
}

/// Log formats
#[derive(Debug, Clone, Copy, PartialEq, Eq, Structural)]
pub enum LogFormat {
    /// JSON format
    Json,
    /// Plain text format
    Plain,
    /// Structured format
    Structured,
}

/// Log destinations
#[derive(Debug, Clone, Copy, PartialEq, Eq, Structural)]
pub enum LogDestination {
    /// Console output
    Console,
    /// File output
    File,
    /// Remote logging service
    Remote,
}

/// Alerting configuration
#[derive(Debug, Clone)]
pub struct AlertingConfig {
    /// Alerting enabled
    pub enabled: bool,
    /// Alert channels
    pub channels: Vec<AlertChannel>,
    /// Alert rules
    pub rules: Vec<AlertRule>,
}

/// Alert channels
#[derive(Debug, Clone)]
pub struct AlertChannel {
    /// Channel type
    pub channel_type: ChannelType,
    /// Channel configuration
    pub config: Vec<(String, String)>,
}

/// Channel types
#[derive(Debug, Clone, Copy, PartialEq, Eq, Structural)]
pub enum ChannelType {
    /// Email
    Email,
    /// Slack
    Slack,
    /// Discord
    Discord,
    /// Webhook
    Webhook,
    /// SMS
    Sms,
}

/// Alert rules
#[derive(Debug, Clone)]
pub struct AlertRule {
    /// Rule name
    pub name: String,
    /// Rule condition
    pub condition: String,
    /// Rule severity
    pub severity: AlertSeverity,
    /// Rule action
    pub action: String,
}

/// Alert severities
#[derive(Debug, Clone, Copy, PartialEq, Eq, Structural)]
pub enum AlertSeverity {
    /// Critical
    Critical,
    /// High
    High,
    /// Medium
    Medium,
    /// Low
    Low,
}

/// Dashboard configuration
#[derive(Debug, Clone)]
pub struct DashboardConfig {
    /// Dashboard enabled
    pub enabled: bool,
    /// Dashboard URL
    pub url: String,
    /// Dashboard refresh interval
    pub refresh_interval: Duration,
    /// Dashboard widgets
    pub widgets: Vec<DashboardWidget>,
}

/// Dashboard widgets
#[derive(Debug, Clone)]
pub struct DashboardWidget {
    /// Widget type
    pub widget_type: WidgetType,
    /// Widget configuration
    pub config: Vec<(String, String)>,
}

/// Widget types
#[derive(Debug, Clone, Copy, PartialEq, Eq, Structural)]
pub enum WidgetType {
    /// Metrics chart
    MetricsChart,
    /// Status indicator
    StatusIndicator,
    /// Alert list
    AlertList,
    /// Log viewer
    LogViewer,
}

/// Security configuration
#[derive(Debug, Clone)]
pub struct SecurityConfig {
    /// SSL/TLS configuration
    pub ssl_config: SslConfig,
    /// Firewall configuration
    pub firewall_config: FirewallConfig,
    /// Access control
    pub access_control: AccessControl,
}

/// SSL configuration
#[derive(Debug, Clone)]
pub struct SslConfig {
    /// SSL enabled
    pub enabled: bool,
    /// Certificate path
    pub certificate_path: String,
    /// Private key path
    pub private_key_path: String,
    /// Certificate authority
    pub ca_path: Option<String>,
}

/// Firewall configuration
#[derive(Debug, Clone)]
pub struct FirewallConfig {
    /// Firewall enabled
    pub enabled: bool,
    /// Allowed ports
    pub allowed_ports: Vec<u16>,
    /// Allowed IPs
    pub allowed_ips: Vec<String>,
    /// Blocked IPs
    pub blocked_ips: Vec<String>,
}

/// Access control
#[derive(Debug, Clone)]
pub struct AccessControl {
    /// Authentication enabled
    pub authentication_enabled: bool,
    /// Authorization enabled
    pub authorization_enabled: bool,
    /// Role-based access control
    pub rbac_enabled: bool,
    /// API keys
    pub api_keys: Vec<String>,
}

/// Infrastructure status
#[derive(Debug, Clone)]
pub struct InfrastructureStatus {
    /// Overall status
    pub overall_status: InfrastructureHealth,
    /// Last health check
    pub last_health_check: u64,
    /// Uptime
    pub uptime: Duration,
}

/// Infrastructure health
#[derive(Debug, Clone, Copy, PartialEq, Eq, Structural)]
pub enum InfrastructureHealth {
    /// Healthy
    Healthy,
    /// Degraded
    Degraded,
    /// Unhealthy
    Unhealthy,
    /// Unknown
    Unknown,
}

/// Component health
#[derive(Debug, Clone, Copy, PartialEq, Eq, Structural)]
pub enum ComponentHealth {
    /// Running
    Running,
    /// Stopped
    Stopped,
    /// Error
    Error,
    /// Starting
    Starting,
    /// Stopping
    Stopping,
}

/// Network I/O
#[derive(Debug, Clone)]
pub struct NetworkIo {
    /// Bytes received
    pub bytes_received: u64,
    /// Bytes sent
    pub bytes_sent: u64,
    /// Packets received
    pub packets_received: u64,
    /// Packets sent
    pub packets_sent: u64,
}

/// Deployment metrics
#[derive(Debug, Clone)]
pub struct DeploymentMetrics {
    /// Deployment start time
    pub deployment_start_time: u64,
    /// Deployment duration
    pub deployment_duration: Duration,
    /// Deployment status
    pub deployment_status: DeploymentStatus,
    /// Rollback count
    pub rollback_count: u32,
}

/// Deployment status
#[derive(Debug, Clone, Copy, PartialEq, Eq, Structural)]
pub enum DeploymentStatus {
    /// In progress
    InProgress,
    /// Completed
    Completed,
    /// Failed
    Failed,
    /// Rolled back
    RolledBack,
}

/// Production readiness checklist
#[derive(Debug, Clone)]
pub struct ProductionReadinessChecklist {
    /// Checklist items
    pub items: Vec<ReadinessItem>,
    /// Overall readiness score
    pub readiness_score: u8,
    /// Last updated
    pub last_updated: u64,
}

/// Readiness item
#[derive(Debug, Clone)]
pub struct ReadinessItem {
    /// Item ID
    pub id: String,
    /// Item name
    pub name: String,
    /// Item description
    pub description: String,
    /// Item status
    pub status: ReadinessStatus,
    /// Item category
    pub category: ReadinessCategory,
    /// Item priority
    pub priority: ReadinessPriority,
}

/// Readiness status
#[derive(Debug, Clone, Copy, PartialEq, Eq, Structural)]
pub enum ReadinessStatus {
    /// Not started
    NotStarted,
    /// In progress
    InProgress,
    /// Completed
    Completed,
    /// Failed
    Failed,
    /// Not applicable
    NotApplicable,
}

/// Readiness categories
#[derive(Debug, Clone, Copy, PartialEq, Eq, Structural)]
pub enum ReadinessCategory {
    /// Infrastructure
    Infrastructure,
    /// Security
    Security,
    /// Performance
    Performance,
    /// Monitoring
    Monitoring,
    /// Documentation
    Documentation,
    /// Testing
    Testing,
    /// Compliance
    Compliance,
}

/// Readiness priorities
#[derive(Debug, Clone, Copy, PartialEq, Eq, Structural)]
pub enum ReadinessPriority {
    /// Critical
    Critical,
    /// High
    High,
    /// Medium
    Medium,
    /// Low
    Low,
}

/// Deployment result
#[derive(Debug, Clone)]
pub struct DeploymentResult {
    /// Deployment ID
    pub deployment_id: String,
    /// Deployment time
    pub deployment_time: Duration,
    /// Deployment status
    pub status: DeploymentStatus,
    /// Success flag
    pub success: bool,
    /// Result message
    pub message: String,
}

/// The production deployment manager.
pub struct ProductionDeploymentManager {
    deployment_config: DeploymentConfig,
    infrastructure_status: InfrastructureStatus,
    deployment_metrics: DeploymentMetrics,
    readiness_checklist: ProductionReadinessChecklist,
    progress_log: Vec<String>,
}

/// A progress line for a step item: a check mark, the name and the
/// description.
pub open spec fn item_line(item: (Seq<char>, Seq<char>)) -> Seq<char> {
    "   ✅ "@ + item.0 + ": "@ + item.1
}

/// The progress lines of a step: its header, one line per item, its
/// footer.
pub open spec fn step_lines(header: Seq<char>, table: Seq<(Seq<char>, Seq<char>)>, footer: Seq<char>) -> Seq<Seq<char>> {
    seq![header] + table.map_values(|item: (Seq<char>, Seq<char>)| item_line(item)) + seq![footer]
}

/// The pre-deployment checks.
pub open spec fn pre_deployment_checks() -> Seq<(Seq<char>, Seq<char>)> {
    seq![
        ("Infrastructure Readiness"@, "Validate infrastructure components"@),
        ("Security Configuration"@, "Verify security settings"@),
        ("Database Connectivity"@, "Test database connections"@),
        ("Network Configuration"@, "Validate network settings"@),
        ("Resource Availability"@, "Check resource availability"@),
        ("Dependencies"@, "Verify all dependencies"@),
    ]
}

/// The infrastructure components.
pub open spec fn infrastructure_components() -> Seq<(Seq<char>, Seq<char>)> {
    seq![
        ("Load Balancer"@, "Deploy load balancer"@),
        ("Database Cluster"@, "Deploy database cluster"@),
        ("Cache Layer"@, "Deploy cache layer"@),
        ("Message Queue"@, "Deploy message queue"@),
        ("Storage System"@, "Deploy storage system"@),
        ("Network Components"@, "Deploy network components"@),
    ]
}

/// The application components.
pub open spec fn application_components() -> Seq<(Seq<char>, Seq<char>)> {
    seq![
        ("Core Services"@, "Deploy core blockchain services"@),
        ("RPC Services"@, "Deploy RPC endpoints"@),
        ("P2P Services"@, "Deploy P2P networking"@),
        ("Mining Services"@, "Deploy mining components"@),
        ("Privacy Services"@, "Deploy privacy components"@),
        ("Monitoring Services"@, "Deploy monitoring components"@),
    ]
}

/// The monitoring components.
pub open spec fn monitoring_components() -> Seq<(Seq<char>, Seq<char>)> {
    seq![
        ("Metrics Collection"@, "Configure metrics collection"@),
        ("Log Aggregation"@, "Configure log aggregation"@),
        ("Alerting Rules"@, "Configure alerting rules"@),
        ("Dashboard Setup"@, "Configure monitoring dashboard"@),
        ("Health Checks"@, "Configure health checks"@),
        ("Performance Monitoring"@, "Configure performance monitoring"@),
    ]
}

/// The post-deployment tests.
pub open spec fn post_deployment_tests() -> Seq<(Seq<char>, Seq<char>)> {
    seq![
        ("Health Check"@, "Verify system health"@),
        ("Functionality Test"@, "Test core functionality"@),
        ("Performance Test"@, "Test performance metrics"@),
        ("Security Test"@, "Test security measures"@),
        ("Integration Test"@, "Test system integration"@),
        ("Load Test"@, "Test system under load"@),
    ]
}

/// The progress lines of a deployment run, up to the final line.
pub open spec fn deployment_lines() -> Seq<Seq<char>> {
    seq!["🚀 Starting production deployment..."@, "🔧 Initializing deployment..."@,
        "   ✅ Deployment initialization complete"@] + step_lines(
        "🔍 Running pre-deployment checks..."@,
        pre_deployment_checks(),
        "   ✅ All pre-deployment checks passed"@,
    ) + step_lines(
        "🏗️ Deploying infrastructure..."@,
        infrastructure_components(),
        "   ✅ Infrastructure deployment complete"@,
    ) + step_lines(
        "📦 Deploying application..."@,
        application_components(),
        "   ✅ Application deployment complete"@,
    ) + step_lines(
        "📊 Configuring monitoring..."@,
        monitoring_components(),
        "   ✅ Monitoring configuration complete"@,
    ) + step_lines(
        "🧪 Running post-deployment tests..."@,
        post_deployment_tests(),
        "   ✅ All post-deployment tests passed"@,
    ) + seq!["📋 Updating deployment status..."@, "   ✅ Deployment status updated"@]
}

/// The readiness checklist items: identifier, name, description, category
/// and priority.
pub open spec fn readiness_table() -> Seq<(Seq<char>, Seq<char>, Seq<char>, ReadinessCategory, ReadinessPriority)> {
    seq![
        ("INFRA-001"@, "Infrastructure Deployment"@, "Deploy all infrastructure components"@, ReadinessCategory::Infrastructure, ReadinessPriority::Critical),
        ("SEC-001"@, "Security Configuration"@, "Configure security measures"@, ReadinessCategory::Security, ReadinessPriority::Critical),
        ("PERF-001"@, "Performance Optimization"@, "Optimize system performance"@, ReadinessCategory::Performance, ReadinessPriority::High),
        ("MON-001"@, "Monitoring Setup"@, "Setup monitoring systems"@, ReadinessCategory::Monitoring, ReadinessPriority::High),
        ("DOC-001"@, "Documentation"@, "Complete documentation"@, ReadinessCategory::Documentation, ReadinessPriority::Medium),
        ("TEST-001"@, "Testing"@, "Complete testing"@, ReadinessCategory::Testing, ReadinessPriority::High),
        ("COMP-001"@, "Compliance"@, "Ensure compliance"@, ReadinessCategory::Compliance, ReadinessPriority::High),
    ]
}

/// `item` is the completed checklist item of a table row.
pub open spec fn completed_item(
    item: ReadinessItem,
    row: (Seq<char>, Seq<char>, Seq<char>, ReadinessCategory, ReadinessPriority),
) -> bool {
    &&& item.id@ == row.0
    &&& item.name@ == row.1
    &&& item.description@ == row.2
    &&& item.status == ReadinessStatus::Completed
    &&& item.category == row.3
    &&& item.priority == row.4
}

/// A deployment identifier: `deploy_` and a time in nanoseconds.
pub open spec fn deployment_id_spec(nanos: u128) -> Seq<char> {
    "deploy_"@ + decimal_chars(nanos as nat)
}

/// Appends the progress lines of a step.
fn log_step(log: &mut Vec<String>, header: &str, table: &[(&str, &str)], footer: &str)
    ensures
        string_views(final(log)@) == string_views(old(log)@) + step_lines(
            header@,
            table@.map_values(|p: (&str, &str)| (p.0@, p.1@)),
            footer@,
        ),
{
    let ghost start = string_views(log@);
    let ghost tv = table@.map_values(|p: (&str, &str)| (p.0@, p.1@));
    log.push(owned(header));
    let mut i: usize = 0;
    while i < table.len()
        invariant
            i <= table@.len(),
            tv == table@.map_values(|p: (&str, &str)| (p.0@, p.1@)),
            string_views(log@) == start + seq![header@] + tv.take(i as int).map_values(
                |item: (Seq<char>, Seq<char>)| item_line(item),
            ),
        decreases table@.len() - i,
    {
        let (name, description) = table[i];
        let mut line = owned("   ✅ ");
        line.append(name);
        line.append(": ");
        line.append(description);
        let ghost before = string_views(log@);
        log.push(line);
        proof {
            assert(tv[i as int] == (name@, description@));
            assert(tv.take(i + 1) =~= tv.take(i as int).push(tv[i as int]));
            assert(string_views(log@) =~= before.push(item_line(tv[i as int])));
            assert(tv.take(i + 1).map_values(|item: (Seq<char>, Seq<char>)| item_line(item)) =~= tv.take(
                i as int,
            ).map_values(|item: (Seq<char>, Seq<char>)| item_line(item)).push(item_line(tv[i as int])));
        }
        i = i + 1;
    }
    let ghost before = string_views(log@);
    log.push(owned(footer));
    proof {
        assert(tv.take(table@.len() as int) =~= tv);
        assert(string_views(log@) =~= before.push(footer@));
        assert(string_views(log@) =~= start + step_lines(header@, tv, footer@));
    }
}

impl ProductionDeploymentManager {
    /// The deployment configuration.
    pub closed spec fn config(&self) -> DeploymentConfig {
        self.deployment_config
    }

    /// The infrastructure status.
    pub closed spec fn infrastructure(&self) -> InfrastructureStatus {
        self.infrastructure_status
    }

    /// The deployment metrics.
    pub closed spec fn metrics(&self) -> DeploymentMetrics {
        self.deployment_metrics
    }

    /// The readiness checklist.
    pub closed spec fn checklist(&self) -> ProductionReadinessChecklist {
        self.readiness_checklist
    }

    /// The progress lines written so far.
    pub closed spec fn log(&self) -> Seq<Seq<char>> {
        string_views(self.progress_log@)
    }

    /// A manager for a production validator node on `c0dl3-mainnet`, with
    /// a healthy infrastructure, a completed (empty) deployment and an
    /// empty readiness checklist.
    pub fn new() -> (res: Result<Self, PrivacyError>)
        ensures
            res matches Ok(m) && {
                &&& m.config().environment == EnvironmentType::Production
                &&& m.config().node_config.node_id@ == "c0dl3-node-001"@
                &&& m.config().node_config.node_type == NodeType::Validator
                &&& m.config().node_config.resources.cpu_cores == 8
                &&& m.config().node_config.resources.memory_gb == 32
                &&& m.config().node_config.scaling_config.min_instances == 3
                &&& m.config().node_config.scaling_config.max_instances == 10
                &&& m.config().network_config.network_id@ == "c0dl3-mainnet"@
                &&& m.config().network_config.p2p_port == 30333
                &&& m.config().network_config.rpc_port == 9944
                &&& m.config().network_config.websocket_port == 9945
                &&& m.config().database_config.db_type == DatabaseType::PostgreSQL
                &&& m.config().database_config.pool_size == 20
                &&& m.config().database_config.backup_config.frequency == BackupFrequency::Daily
                &&& m.config().monitoring_config.logging_config.log_level == LogLevel::Info
                &&& m.config().security_config.firewall_config.allowed_ports@ == seq![30333u16, 9944, 9945]
                &&& m.config().security_config.ssl_config.enabled
                &&& m.infrastructure().overall_status == InfrastructureHealth::Healthy
                &&& m.infrastructure().last_health_check == 0
                &&& m.metrics().deployment_start_time == 0
                &&& m.metrics().deployment_status == DeploymentStatus::Completed
                &&& m.metrics().rollback_count == 0
                &&& m.checklist().items@.len() == 0
                &&& m.checklist().readiness_score == 0
                &&& m.checklist().last_updated == 0
                &&& m.log().len() == 0
            },
    {
        let mut allowed_ports: Vec<u16> = Vec::new();
        allowed_ports.push(30333);
        allowed_ports.push(9944);
        allowed_ports.push(9945);
        let deployment_config = DeploymentConfig {
            environment: EnvironmentType::Production,
            node_config: NodeConfig {
                node_id: owned("c0dl3-node-001"),
                node_type: NodeType::Validator,
                resources: ResourceAllocation {
                    cpu_cores: 8,
                    memory_gb: 32,
                    storage_gb: 1000,
                    network_bandwidth_mbps: 1000,
                },
                scaling_config: ScalingConfig { auto_scaling: true, min_instances: 3, max_instances: 10 },
            },
            network_config: NetworkConfig {
                network_id: owned("c0dl3-mainnet"),
                bootstrap_nodes: Vec::new(),
                p2p_port: 30333,
                rpc_port: 9944,
                websocket_port: 9945,
                discovery_enabled: true,
            },
            database_config: DatabaseConfig {
                db_type: DatabaseType::PostgreSQL,
                connection_string: owned("postgresql://localhost:5432/c0dl3"),
                pool_size: 20,
                backup_config: BackupConfig {
                    enabled: true,
                    frequency: BackupFrequency::Daily,
                    retention_days: 30,
                    backup_location: owned("/backups"),
                },
            },
            monitoring_config: MonitoringConfig {
                metrics_enabled: true,
                logging_config: LoggingConfig {
                    log_level: LogLevel::Info,
                    log_format: LogFormat::Json,
                    log_destination: LogDestination::File,
                    retention_days: 90,
                },
                alerting_config: AlertingConfig { enabled: true, channels: Vec::new(), rules: Vec::new() },
                dashboard_config: DashboardConfig {
                    enabled: true,
                    url: owned("http://localhost:3000"),
                    refresh_interval: duration_from_secs(30),
                    widgets: Vec::new(),
                },
            },
            security_config: SecurityConfig {
                ssl_config: SslConfig {
                    enabled: true,
                    certificate_path: owned("/certs/cert.pem"),
                    private_key_path: owned("/certs/key.pem"),
                    ca_path: Some(owned("/certs/ca.pem")),
                },
                firewall_config: FirewallConfig {
                    enabled: true,
                    allowed_ports,
                    allowed_ips: Vec::new(),
                    blocked_ips: Vec::new(),
                },
                access_control: AccessControl {
                    authentication_enabled: true,
                    authorization_enabled: true,
                    rbac_enabled: true,
                    api_keys: Vec::new(),
                },
            },
        };
        let m = ProductionDeploymentManager {
            deployment_config,
            infrastructure_status: InfrastructureStatus {
                overall_status: InfrastructureHealth::Healthy,
                last_health_check: 0,
                uptime: duration_from_secs(0),
            },
            deployment_metrics: DeploymentMetrics {
                deployment_start_time: 0,
                deployment_duration: duration_from_secs(0),
                deployment_status: DeploymentStatus::Completed,
                rollback_count: 0,
            },
            readiness_checklist: ProductionReadinessChecklist { items: Vec::new(), readiness_score: 0, last_updated: 0 },
            progress_log: Vec::new(),
        };
        assert(m.config().security_config.firewall_config.allowed_ports@ =~= seq![30333u16, 9944, 9945]);
        assert(m.log() =~= Seq::<Seq<char>>::empty());
        Ok(m)
    }
}

impl ProductionDeploymentManager {
    /// Marks the deployment as started now and in progress.
    fn initialize_deployment(&mut self) -> (res: Result<(), PrivacyError>)
        ensures
            final(self).config() == old(self).config(),
            final(self).infrastructure() == old(self).infrastructure(),
            final(self).checklist() == old(self).checklist(),
            res matches Err(e) ==> e == PrivacyError::ClockError && final(self).metrics() == old(self).metrics()
                && final(self).log() == old(self).log().push("🔧 Initializing deployment..."@),
            res is Ok ==> {
                &&& final(self).metrics().deployment_status == DeploymentStatus::InProgress
                &&& final(self).metrics().deployment_duration == old(self).metrics().deployment_duration
                &&& final(self).metrics().rollback_count == old(self).metrics().rollback_count
                &&& final(self).log() == old(self).log() + seq![
                    "🔧 Initializing deployment..."@,
                    "   ✅ Deployment initialization complete"@,
                ]
            },
    {
        let ghost start = self.log();
        self.progress_log.push(owned("🔧 Initializing deployment..."));
        assert(self.log() =~= start.push("🔧 Initializing deployment..."@));
        let t = match unix_time_secs() {
            Some(t) => t,
            None => return Err(PrivacyError::ClockError),
        };
        self.deployment_metrics.deployment_start_time = t;
        self.deployment_metrics.deployment_status = DeploymentStatus::InProgress;
        self.progress_log.push(owned("   ✅ Deployment initialization complete"));
        assert(self.log() =~= start + seq![
            "🔧 Initializing deployment..."@,
            "   ✅ Deployment initialization complete"@,
        ]);
        Ok(())
    }

    /// Writes the progress lines of a step that only reports its items.
    fn report_step(&mut self, header: &str, table: &[(&str, &str)], footer: &str)
        ensures
            final(self).config() == old(self).config(),
            final(self).infrastructure() == old(self).infrastructure(),
            final(self).metrics() == old(self).metrics(),
            final(self).checklist() == old(self).checklist(),
            final(self).log() == old(self).log() + step_lines(
                header@,
                table@.map_values(|p: (&str, &str)| (p.0@, p.1@)),
                footer@,
            ),
    {
        log_step(&mut self.progress_log, header, table, footer);
    }

    /// Runs the pre-deployment checks.
    fn run_pre_deployment_checks(&mut self)
        ensures
            final(self).config() == old(self).config(),
            final(self).infrastructure() == old(self).infrastructure(),
            final(self).metrics() == old(self).metrics(),
            final(self).checklist() == old(self).checklist(),
            final(self).log() == old(self).log() + step_lines(
                "🔍 Running pre-deployment checks..."@,
                pre_deployment_checks(),
                "   ✅ All pre-deployment checks passed"@,
            ),
    {
        let checks: [(&str, &str); 6] = [
            ("Infrastructure Readiness", "Validate infrastructure components"),
            ("Security Configuration", "Verify security settings"),
            ("Database Connectivity", "Test database connections"),
            ("Network Configuration", "Validate network settings"),
            ("Resource Availability", "Check resource availability"),
            ("Dependencies", "Verify all dependencies"),
        ];
        assert(checks@.map_values(|p: (&str, &str)| (p.0@, p.1@)) =~= pre_deployment_checks());
        self.report_step("🔍 Running pre-deployment checks...", &checks, "   ✅ All pre-deployment checks passed");
    }

    /// Deploys the infrastructure components.
    fn deploy_infrastructure(&mut self)
        ensures
            final(self).config() == old(self).config(),
            final(self).infrastructure() == old(self).infrastructure(),
            final(self).metrics() == old(self).metrics(),
            final(self).checklist() == old(self).checklist(),
            final(self).log() == old(self).log() + step_lines(
                "🏗️ Deploying infrastructure..."@,
                infrastructure_components(),
                "   ✅ Infrastructure deployment complete"@,
            ),
    {
        let components: [(&str, &str); 6] = [
            ("Load Balancer", "Deploy load balancer"),
            ("Database Cluster", "Deploy database cluster"),
            ("Cache Layer", "Deploy cache layer"),
            ("Message Queue", "Deploy message queue"),
            ("Storage System", "Deploy storage system"),
            ("Network Components", "Deploy network components"),
        ];
        assert(components@.map_values(|p: (&str, &str)| (p.0@, p.1@)) =~= infrastructure_components());
        self.report_step("🏗️ Deploying infrastructure...", &components, "   ✅ Infrastructure deployment complete");
    }

    /// Deploys the application components.
    fn deploy_application(&mut self)
        ensures
            final(self).config() == old(self).config(),
            final(self).infrastructure() == old(self).infrastructure(),
            final(self).metrics() == old(self).metrics(),
            final(self).checklist() == old(self).checklist(),
            final(self).log() == old(self).log() + step_lines(
                "📦 Deploying application..."@,
                application_components(),
                "   ✅ Application deployment complete"@,
            ),
    {
        let components: [(&str, &str); 6] = [
            ("Core Services", "Deploy core blockchain services"),
            ("RPC Services", "Deploy RPC endpoints"),
            ("P2P Services", "Deploy P2P networking"),
            ("Mining Services", "Deploy mining components"),
            ("Privacy Services", "Deploy privacy components"),
            ("Monitoring Services", "Deploy monitoring components"),
        ];
        assert(components@.map_values(|p: (&str, &str)| (p.0@, p.1@)) =~= application_components());
        self.report_step("📦 Deploying application...", &components, "   ✅ Application deployment complete");
    }

    /// Configures the monitoring components.
    fn configure_monitoring(&mut self)
        ensures
            final(self).config() == old(self).config(),
            final(self).infrastructure() == old(self).infrastructure(),
            final(self).metrics() == old(self).metrics(),
            final(self).checklist() == old(self).checklist(),
            final(self).log() == old(self).log() + step_lines(
                "📊 Configuring monitoring..."@,
                monitoring_components(),
                "   ✅ Monitoring configuration complete"@,
            ),
    {
        let components: [(&str, &str); 6] = [
            ("Metrics Collection", "Configure metrics collection"),
            ("Log Aggregation", "Configure log aggregation"),
            ("Alerting Rules", "Configure alerting rules"),
            ("Dashboard Setup", "Configure monitoring dashboard"),
            ("Health Checks", "Configure health checks"),
            ("Performance Monitoring", "Configure performance monitoring"),
        ];
        assert(components@.map_values(|p: (&str, &str)| (p.0@, p.1@)) =~= monitoring_components());
        self.report_step("📊 Configuring monitoring...", &components, "   ✅ Monitoring configuration complete");
    }

    /// Runs the post-deployment tests.
    fn run_post_deployment_tests(&mut self)
        ensures
            final(self).config() == old(self).config(),
            final(self).infrastructure() == old(self).infrastructure(),
            final(self).metrics() == old(self).metrics(),
            final(self).checklist() == old(self).checklist(),
            final(self).log() == old(self).log() + step_lines(
                "🧪 Running post-deployment tests..."@,
                post_deployment_tests(),
                "   ✅ All post-deployment tests passed"@,
            ),
    {
        let tests: [(&str, &str); 6] = [
            ("Health Check", "Verify system health"),
            ("Functionality Test", "Test core functionality"),
            ("Performance Test", "Test performance metrics"),
            ("Security Test", "Test security measures"),
            ("Integration Test", "Test system integration"),
            ("Load Test", "Test system under load"),
        ];
        assert(tests@.map_values(|p: (&str, &str)| (p.0@, p.1@)) =~= post_deployment_tests());
        self.report_step("🧪 Running post-deployment tests...", &tests, "   ✅ All post-deployment tests passed");
    }

    /// Fills the readiness checklist: seven items, all completed, a score
    /// of 100, updated now.
    fn update_readiness_checklist(&mut self) -> (res: Result<(), PrivacyError>)
        ensures
            final(self).config() == old(self).config(),
            final(self).infrastructure() == old(self).infrastructure(),
            final(self).metrics() == old(self).metrics(),
            final(self).log() == old(self).log(),
            res matches Err(e) ==> e == PrivacyError::ClockError,
            res is Ok ==> {
                &&& final(self).checklist().items@.len() == 7
                &&& forall|i: int|
                    0 <= i < 7 ==> #[trigger] completed_item(final(self).checklist().items@[i], readiness_table()[i])
                &&& final(self).checklist().readiness_score == 100
            },
    {
        let table: [(&str, &str, &str, ReadinessCategory, ReadinessPriority); 7] = [
            ("INFRA-001", "Infrastructure Deployment", "Deploy all infrastructure components", ReadinessCategory::Infrastructure, ReadinessPriority::Critical),
            ("SEC-001", "Security Configuration", "Configure security measures", ReadinessCategory::Security, ReadinessPriority::Critical),
            ("PERF-001", "Performance Optimization", "Optimize system performance", ReadinessCategory::Performance, ReadinessPriority::High),
            ("MON-001", "Monitoring Setup", "Setup monitoring systems", ReadinessCategory::Monitoring, ReadinessPriority::High),
            ("DOC-001", "Documentation", "Complete documentation", ReadinessCategory::Documentation, ReadinessPriority::Medium),
            ("TEST-001", "Testing", "Complete testing", ReadinessCategory::Testing, ReadinessPriority::High),
            ("COMP-001", "Compliance", "Ensure compliance", ReadinessCategory::Compliance, ReadinessPriority::High),
        ];
        let ghost tv = table@.map_values(
            |r: (&str, &str, &str, ReadinessCategory, ReadinessPriority)| (r.0@, r.1@, r.2@, r.3, r.4),
        );
        assert(tv =~= readiness_table());
        let mut items: Vec<ReadinessItem> = Vec::new();
        let mut i: usize = 0;
        while i < 7
            invariant
                i <= 7,
                table@.len() == 7,
                tv == readiness_table(),
                forall|j: int|
                    0 <= j < 7 ==> #[trigger] tv[j] == (table@[j].0@, table@[j].1@, table@[j].2@, table@[j].3, table@[j].4),
                items@.len() == i,
                forall|j: int| 0 <= j < i ==> #[trigger] completed_item(items@[j], tv[j]),
            decreases 7 - i,
        {
            let (id, name, description, category, priority) = table[i];
            assert(tv[i as int] == (id@, name@, description@, category, priority));
            items.push(ReadinessItem {
                id: owned(id),
                name: owned(name),
                description: owned(description),
                status: ReadinessStatus::Completed,
                category,
                priority,
            });
            i = i + 1;
        }
        let t = match unix_time_secs() {
            Some(t) => t,
            None => return Err(PrivacyError::ClockError),
        };
        self.readiness_checklist.items = items;
        self.readiness_checklist.readiness_score = 100;
        self.readiness_checklist.last_updated = t;
        Ok(())
    }

    /// Marks the infrastructure healthy as of now and fills the readiness
    /// checklist.
    fn update_deployment_status(&mut self) -> (res: Result<(), PrivacyError>)
        ensures
            final(self).config() == old(self).config(),
            final(self).metrics() == old(self).metrics(),
            res matches Err(e) ==> e == PrivacyError::ClockError,
            res is Ok ==> {
                &&& final(self).infrastructure().overall_status == InfrastructureHealth::Healthy
                &&& final(self).checklist().items@.len() == 7
                &&& forall|i: int|
                    0 <= i < 7 ==> #[trigger] completed_item(final(self).checklist().items@[i], readiness_table()[i])
                &&& final(self).checklist().readiness_score == 100
                &&& final(self).log() == old(self).log() + seq![
                    "📋 Updating deployment status..."@,
                    "   ✅ Deployment status updated"@,
                ]
            },
    {
        let ghost start = self.log();
        self.progress_log.push(owned("📋 Updating deployment status..."));
        assert(self.log() =~= start.push("📋 Updating deployment status..."@));
        let ghost mid = self.log();
        let t = match unix_time_secs() {
            Some(t) => t,
            None => return Err(PrivacyError::ClockError),
        };
        self.infrastructure_status.overall_status = InfrastructureHealth::Healthy;
        self.infrastructure_status.last_health_check = t;
        match self.update_readiness_checklist() {
            Ok(()) => {},
            Err(e) => return Err(e),
        }
        self.progress_log.push(owned("   ✅ Deployment status updated"));
        assert(self.log() =~= mid.push("   ✅ Deployment status updated"@));
        assert(self.log() =~= start + seq!["📋 Updating deployment status..."@, "   ✅ Deployment status updated"@]);
        Ok(())
    }
}

impl ProductionDeploymentManager {
    /// Runs a production deployment: initialization, the pre-deployment
    /// checks, infrastructure, application, monitoring, the post-deployment
    /// tests and the status update. Every step writes its progress lines;
    /// the run ends with the deployment completed, the infrastructure
    /// healthy and the readiness checklist complete.
    pub fn deploy_to_production(&mut self) -> (res: Result<DeploymentResult, PrivacyError>)
        ensures
            final(self).config() == old(self).config(),
            res matches Err(e) ==> e == PrivacyError::ClockError,
            res matches Ok(r) ==> {
                &&& exists|n: u128| r.deployment_id@ == #[trigger] deployment_id_spec(n)
                &&& r.deployment_time == final(self).metrics().deployment_duration
                &&& r.status == DeploymentStatus::Completed
                &&& r.success
                &&& r.message@ == "Production deployment successful"@
                &&& final(self).metrics().deployment_status == DeploymentStatus::Completed
                &&& final(self).metrics().rollback_count == old(self).metrics().rollback_count
                &&& final(self).infrastructure().overall_status == InfrastructureHealth::Healthy
                &&& final(self).checklist().items@.len() == 7
                &&& forall|i: int|
                    0 <= i < 7 ==> #[trigger] completed_item(final(self).checklist().items@[i], readiness_table()[i])
                &&& final(self).checklist().readiness_score == 100
                &&& final(self).log().len() == old(self).log().len() + deployment_lines().len() + 1
                &&& final(self).log().subrange(0, (old(self).log().len() + deployment_lines().len()) as int)
                    == old(self).log() + deployment_lines()
            },
    {
        let start_time = instant_now();
        let ghost start = self.log();
        self.progress_log.push(owned("🚀 Starting production deployment..."));
        assert(self.log() =~= start.push("🚀 Starting production deployment..."@));
        match self.initialize_deployment() {
            Ok(()) => {},
            Err(e) => return Err(e),
        }
        self.run_pre_deployment_checks();
        self.deploy_infrastructure();
        self.deploy_application();
        self.configure_monitoring();
        self.run_post_deployment_tests();
        match self.update_deployment_status() {
            Ok(()) => {},
            Err(e) => return Err(e),
        }
        let ghost body = self.log();
        proof {
            assert(body =~= start + deployment_lines());
        }
        let deployment_time = instant_elapsed(&start_time);
        self.deployment_metrics.deployment_duration = deployment_time;
        self.deployment_metrics.deployment_status = DeploymentStatus::Completed;
        let mut done = owned("✅ Production deployment completed in ");
        let elapsed = format_duration_debug(&deployment_time);
        done.append(elapsed.as_str());
        self.progress_log.push(done);
        proof {
            assert(self.log().subrange(0, body.len() as int) =~= body);
        }
        let nanos = match unix_time_nanos() {
            Some(n) => n,
            None => return Err(PrivacyError::ClockError),
        };
        let mut deployment_id = owned("deploy_");
        push_decimal_u128(&mut deployment_id, nanos);
        assert(deployment_id@ == deployment_id_spec(nanos));
        Ok(DeploymentResult {
            deployment_id,
            deployment_time,
            status: DeploymentStatus::Completed,
            success: true,
            message: owned("Production deployment successful"),
        })
    }

    /// The deployment status.
    pub fn get_deployment_status(&self) -> (res: Result<DeploymentStatus, PrivacyError>)
        ensures
            res == Ok::<DeploymentStatus, PrivacyError>(self.metrics().deployment_status),
    {
        Ok(self.deployment_metrics.deployment_status)
    }

    /// The readiness score.
    pub fn get_readiness_score(&self) -> (res: Result<u8, PrivacyError>)
        ensures
            res == Ok::<u8, PrivacyError>(self.checklist().readiness_score),
    {
        Ok(self.readiness_checklist.readiness_score)
    }

    /// The infrastructure health.
    pub fn get_infrastructure_health(&self) -> (res: Result<InfrastructureHealth, PrivacyError>)
        ensures
            res == Ok::<InfrastructureHealth, PrivacyError>(self.infrastructure().overall_status),
    {
        Ok(self.infrastructure_status.overall_status)
    }

    /// The progress lines written so far, oldest first, for the caller to
    /// show.
    pub fn progress_lines(&self) -> (res: Vec<String>)
        ensures
            string_views(res@) == self.log(),
    {
        let res = self.progress_log.clone();
        assert(res@ =~= self.progress_log@);
        res
    }
}

} // verus!
