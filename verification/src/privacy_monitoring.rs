//! Privacy monitoring: real-time metrics, violation detection, trends,
//! alerting and a dashboard, updated for every monitored transaction, and
//! the privacy report. Figures that the monitor only ever sets to whole
//! numbers are kept as integers; its fractional figures (anonymity set
//! sizes, mixing efficiencies, confidences, thresholds) are not kept here.
use vstd::prelude::*;
use vstd::string::*;
use crate::crypto::{duration_from_secs, hex_encode, random_u64, sha256, unix_time_secs};
use crate::error::PrivacyError;
use crate::placeholder_tracking::{count_line, report_id_spec};
use crate::text::{decimal_chars, extend_bytes, owned, push_decimal_then, u64_le_bytes};

verus! {

/// The privacy monitoring system.
pub struct PrivacyMonitoringSystem {
    metrics_collector: PrivacyMetricsCollector,
    violation_detector: PrivacyViolationDetector,
    analytics_engine: PrivacyAnalyticsEngine,
    alerting_system: PrivacyAlertingSystem,
    dashboard_data: PrivacyDashboardData,
}

/// The metrics collector.
pub struct PrivacyMetricsCollector {
    real_time_metrics: PrivacyRealTimeMetrics,
    historical_metrics: Vec<PrivacyHistoricalMetrics>,
    retention_period: std::time::Duration,
}

/// Real-time privacy metrics.
#[derive(Debug, Clone, Copy, PartialEq, Eq, Structural)]
pub struct PrivacyRealTimeMetrics {
    /// Current privacy level, 0 to 100.
    pub current_privacy_level: u8,
    /// Transactions counted by the monitor.
    pub transactions_per_second: u64,
    /// Privacy violations per minute.
    pub violations_per_minute: u64,
    /// Cross-chain privacy level, 0 to 100.
    pub cross_chain_privacy_level: u64,
    /// System health score, 0 to 100.
    pub system_health_score: u64,
}

/// Historical privacy metrics.
#[derive(Debug, Clone, Copy, PartialEq, Eq, Structural)]
pub struct PrivacyHistoricalMetrics {
    /// Time, seconds since the Unix epoch.
    pub timestamp: u64,
    /// Privacy level.
    pub privacy_level: u8,
    /// Transactions.
    pub transaction_count: u64,
    /// Violations.
    pub violation_count: u64,
}

/// The violation detector.
pub struct PrivacyViolationDetector {
    violation_patterns: Vec<(String, ViolationPattern)>,
    detected_violations: Vec<PrivacyViolation>,
    violation_thresholds: ViolationThresholds,
}

/// A violation pattern.
pub struct ViolationPattern {
    /// Pattern identifier.
    pub pattern_id: String,
    /// Pattern name.
    pub pattern_name: String,
    /// Description.
    pub description: String,
    /// Severity.
    pub severity: ViolationSeverity,
    /// Detection rules.
    pub detection_rules: Vec<DetectionRule>,
}

/// A detection rule.
pub struct DetectionRule {
    /// Rule identifier.
    pub rule_id: String,
    /// Rule type.
    pub rule_type: String,
    /// Rule parameters.
    pub parameters: Vec<(String, String)>,
}

/// Severity of a violation.
#[derive(Debug, Clone, Copy, PartialEq, Eq, Structural)]
pub enum ViolationSeverity {
    /// Low.
    Low,
    /// Medium.
    Medium,
    /// High.
    High,
    /// Critical.
    Critical,
}

/// A detected privacy violation.
pub struct PrivacyViolation {
    /// Violation identifier.
    pub violation_id: String,
    /// Violation type.
    pub violation_type: String,
    /// Description.
    pub description: String,
    /// Severity.
    pub severity: ViolationSeverity,
    /// Detection time, seconds since the Unix epoch.
    pub detected_at: u64,
    /// Hash of the affected transaction.
    pub affected_transaction: Option<String>,
    /// Details.
    pub details: Vec<(String, String)>,
}

/// Violation thresholds.
#[derive(Debug, Clone, Copy, PartialEq, Eq, Structural)]
pub struct ViolationThresholds {
    /// Privacy level below which a transaction violates privacy.
    pub privacy_level_threshold: u8,
    /// Smallest acceptable anonymity set.
    pub anonymity_set_size_threshold: usize,
}

/// The analytics engine.
pub struct PrivacyAnalyticsEngine {
    analytics_data: PrivacyAnalyticsData,
    analytics_models: Vec<(String, AnalyticsModel)>,
    trend_analysis: TrendAnalysis,
}

/// Analytics data: the trends recorded so far.
pub struct PrivacyAnalyticsData {
    /// Privacy trends.
    pub privacy_trends: Vec<PrivacyTrend>,
    /// Anonymity trends.
    pub anonymity_trends: Vec<AnonymityTrend>,
    /// Mixing trends.
    pub mixing_trends: Vec<MixingTrend>,
    /// Cross-chain trends.
    pub cross_chain_trends: Vec<CrossChainTrend>,
    /// Performance trends.
    pub performance_trends: Vec<PerformanceTrend>,
}

/// A privacy trend point.
#[derive(Debug, Clone, Copy, PartialEq, Eq, Structural)]
pub struct PrivacyTrend {
    /// Time, seconds since the Unix epoch.
    pub timestamp: u64,
    /// Privacy level.
    pub privacy_level: u8,
    /// Direction.
    pub trend_direction: TrendDirection,
}

/// An anonymity trend point.
#[derive(Debug, Clone, Copy, PartialEq, Eq, Structural)]
pub struct AnonymityTrend {
    /// Time, seconds since the Unix epoch.
    pub timestamp: u64,
    /// Anonymity level.
    pub anonymity_level: u8,
}

/// A mixing trend point.
#[derive(Debug, Clone, Copy, PartialEq, Eq, Structural)]
pub struct MixingTrend {
    /// Time, seconds since the Unix epoch.
    pub timestamp: u64,
    /// Mixing pool size.
    pub mixing_pool_size: usize,
}

/// A cross-chain trend point.
#[derive(Debug, Clone, Copy, PartialEq, Eq, Structural)]
pub struct CrossChainTrend {
    /// Time, seconds since the Unix epoch.
    pub timestamp: u64,
    /// Cross-chain volume.
    pub cross_chain_volume: u64,
}

/// A performance trend point.
#[derive(Debug, Clone, Copy, PartialEq, Eq, Structural)]
pub struct PerformanceTrend {
    /// Time, seconds since the Unix epoch.
    pub timestamp: u64,
}

/// Direction of a trend.
#[derive(Debug, Clone, Copy, PartialEq, Eq, Structural)]
pub enum TrendDirection {
    /// Increasing.
    Increasing,
    /// Decreasing.
    Decreasing,
    /// Stable.
    Stable,
    /// Volatile.
    Volatile,
}

/// An analytics model.
pub struct AnalyticsModel {
    /// Model identifier.
    pub model_id: String,
    /// Model name.
    pub model_name: String,
    /// Model type.
    pub model_type: String,
}

/// Trend analysis of each figure.
pub struct TrendAnalysis {
    /// Privacy.
    pub privacy_trend_analysis: TrendAnalysisResult,
    /// Anonymity.
    pub anonymity_trend_analysis: TrendAnalysisResult,
    /// Mixing.
    pub mixing_trend_analysis: TrendAnalysisResult,
    /// Performance.
    pub performance_trend_analysis: TrendAnalysisResult,
}

/// The analysis of one trend.
pub struct TrendAnalysisResult {
    /// Direction.
    pub trend_direction: TrendDirection,
    /// Prediction.
    pub prediction: String,
}

/// The alerting system.
pub struct PrivacyAlertingSystem {
    alert_rules: Vec<(String, AlertRule)>,
    active_alerts: Vec<PrivacyAlert>,
    alert_channels: Vec<(String, AlertChannel)>,
}

/// An alert rule.
pub struct AlertRule {
    /// Rule identifier.
    pub rule_id: String,
    /// Rule name.
    pub rule_name: String,
    /// Condition.
    pub condition: String,
    /// Severity.
    pub severity: ViolationSeverity,
    /// Whether the rule is on.
    pub enabled: bool,
}

/// A privacy alert.
pub struct PrivacyAlert {
    /// Alert identifier.
    pub alert_id: String,
    /// Alert type.
    pub alert_type: String,
    /// Message.
    pub message: String,
    /// Severity.
    pub severity: ViolationSeverity,
    /// Time, seconds since the Unix epoch.
    pub timestamp: u64,
    /// Status.
    pub status: AlertStatus,
}

/// Status of an alert.
#[derive(Debug, Clone, Copy, PartialEq, Eq, Structural)]
pub enum AlertStatus {
    /// Active.
    Active,
    /// Acknowledged.
    Acknowledged,
    /// Resolved.
    Resolved,
    /// Suppressed.
    Suppressed,
}

/// An alert channel.
pub struct AlertChannel {
    /// Channel identifier.
    pub channel_id: String,
    /// Channel name.
    pub channel_name: String,
    /// Channel type.
    pub channel_type: String,
    /// Configuration.
    pub configuration: Vec<(String, String)>,
}

/// Dashboard data.
pub struct PrivacyDashboardData {
    /// Dashboard metrics.
    pub dashboard_metrics: DashboardMetrics,
    /// Charts.
    pub dashboard_charts: Vec<DashboardChart>,
    /// Alerts shown.
    pub dashboard_alerts: Vec<PrivacyAlert>,
    /// Status lines.
    pub dashboard_status: DashboardStatus,
}

/// Dashboard metrics.
#[derive(Debug, Clone, Copy, PartialEq, Eq, Structural)]
pub struct DashboardMetrics {
    /// Overall privacy score, 0 to 100.
    pub overall_privacy_score: u64,
    /// Privacy level, 0 to 100.
    pub privacy_level: u8,
    /// Active violations.
    pub active_violations: u64,
    /// System health, 0 to 100.
    pub system_health: u64,
    /// Performance score, 0 to 100.
    pub performance_score: u64,
}

/// A dashboard chart.
pub struct DashboardChart {
    /// Chart identifier.
    pub chart_id: String,
    /// Chart name.
    pub chart_name: String,
    /// Chart type.
    pub chart_type: String,
}

/// Dashboard status lines.
pub struct DashboardStatus {
    /// System status.
    pub system_status: String,
    /// Privacy status.
    pub privacy_status: String,
    /// Performance status.
    pub performance_status: String,
    /// Alert status.
    pub alert_status: String,
}

/// A privacy report.
pub struct PrivacyReport {
    /// Report identifier.
    pub report_id: String,
    /// Generation time, seconds since the Unix epoch.
    pub generated_at: u64,
    /// Real-time metrics.
    pub real_time_metrics: PrivacyRealTimeMetrics,
    /// Violations detected.
    pub violations: Vec<PrivacyViolation>,
    /// Analytics data.
    pub analytics: PrivacyAnalyticsData,
    /// Dashboard data.
    pub dashboard: PrivacyDashboardData,
    /// Summary.
    pub summary: String,
}

/// The character views of a list of string pairs.
pub open spec fn pair_views(v: Seq<(String, String)>) -> Seq<(Seq<char>, Seq<char>)> {
    v.map_values(|p: (String, String)| (p.0@, p.1@))
}

/// The character view of an optional string.
pub open spec fn opt_view(o: Option<String>) -> Option<Seq<char>> {
    match o {
        Some(s) => Some(s@),
        None => None,
    }
}

/// Two violations with the same contents.
pub open spec fn same_violation(a: PrivacyViolation, b: PrivacyViolation) -> bool {
    &&& a.violation_id@ == b.violation_id@
    &&& a.violation_type@ == b.violation_type@
    &&& a.description@ == b.description@
    &&& a.severity == b.severity
    &&& a.detected_at == b.detected_at
    &&& opt_view(a.affected_transaction) == opt_view(b.affected_transaction)
    &&& pair_views(a.details@) == pair_views(b.details@)
}

/// Two alerts with the same contents.
pub open spec fn same_alert(a: PrivacyAlert, b: PrivacyAlert) -> bool {
    &&& a.alert_id@ == b.alert_id@
    &&& a.alert_type@ == b.alert_type@
    &&& a.message@ == b.message@
    &&& a.severity == b.severity
    &&& a.timestamp == b.timestamp
    &&& a.status == b.status
}

/// Two lists of violations with the same contents, in order.
pub open spec fn same_violations(a: Seq<PrivacyViolation>, b: Seq<PrivacyViolation>) -> bool {
    a.len() == b.len() && forall|i: int| 0 <= i < a.len() ==> same_violation(#[trigger] a[i], b[i])
}

/// Two lists of alerts with the same contents, in order.
pub open spec fn same_alerts(a: Seq<PrivacyAlert>, b: Seq<PrivacyAlert>) -> bool {
    a.len() == b.len() && forall|i: int| 0 <= i < a.len() ==> same_alert(#[trigger] a[i], b[i])
}

/// Two analytics records with the same trends.
pub open spec fn same_analytics(a: PrivacyAnalyticsData, b: PrivacyAnalyticsData) -> bool {
    &&& a.privacy_trends@ == b.privacy_trends@
    &&& a.anonymity_trends@ == b.anonymity_trends@
    &&& a.mixing_trends@ == b.mixing_trends@
    &&& a.cross_chain_trends@ == b.cross_chain_trends@
    &&& a.performance_trends@ == b.performance_trends@
}

/// Two dashboards with the same contents.
pub open spec fn same_dashboard(a: PrivacyDashboardData, b: PrivacyDashboardData) -> bool {
    &&& a.dashboard_metrics == b.dashboard_metrics
    &&& a.dashboard_charts@.len() == b.dashboard_charts@.len()
    &&& forall|i: int| 0 <= i < a.dashboard_charts@.len() ==> {
        &&& (#[trigger] a.dashboard_charts@[i]).chart_id@ == b.dashboard_charts@[i].chart_id@
        &&& a.dashboard_charts@[i].chart_name@ == b.dashboard_charts@[i].chart_name@
        &&& a.dashboard_charts@[i].chart_type@ == b.dashboard_charts@[i].chart_type@
    }
    &&& same_alerts(a.dashboard_alerts@, b.dashboard_alerts@)
    &&& a.dashboard_status.system_status@ == b.dashboard_status.system_status@
    &&& a.dashboard_status.privacy_status@ == b.dashboard_status.privacy_status@
    &&& a.dashboard_status.performance_status@ == b.dashboard_status.performance_status@
    &&& a.dashboard_status.alert_status@ == b.dashboard_status.alert_status@
}

/// The metrics the monitor starts with.
pub open spec fn initial_metrics() -> PrivacyRealTimeMetrics {
    PrivacyRealTimeMetrics {
        current_privacy_level: 100,
        transactions_per_second: 0,
        violations_per_minute: 0,
        cross_chain_privacy_level: 100,
        system_health_score: 100,
    }
}

/// The metrics after one more monitored transaction.
pub open spec fn metrics_after_transaction(m: PrivacyRealTimeMetrics) -> PrivacyRealTimeMetrics {
    PrivacyRealTimeMetrics {
        current_privacy_level: 100,
        transactions_per_second: (m.transactions_per_second + 1) as u64,
        violations_per_minute: m.violations_per_minute,
        cross_chain_privacy_level: 100,
        system_health_score: 100,
    }
}

/// The report summary: privacy level, system health, active violations
/// and transactions counted, one per line, the fractional figures with one
/// decimal.
pub open spec fn report_summary(m: PrivacyRealTimeMetrics, violations: nat) -> Seq<char> {
    "Privacy Level: "@ + decimal_chars(m.current_privacy_level as nat) + "%\n"@ + "System Health: "@ + decimal_chars(
        m.system_health_score as nat,
    ) + ".0%\n"@ + count_line("Active Violations: "@, violations) + "Transactions/sec: "@ + decimal_chars(
        m.transactions_per_second as nat,
    ) + ".0\n"@
}

impl PrivacyMonitoringSystem {
    /// The fixed thresholds and the invariant of the monitor: the privacy
    /// level is 100 and the metrics count what was monitored.
    pub closed spec fn well_formed(&self) -> bool {
        &&& self.violation_detector.violation_thresholds == (ViolationThresholds {
            privacy_level_threshold: 90,
            anonymity_set_size_threshold: 5,
        })
        &&& self.metrics_collector.real_time_metrics.current_privacy_level == 100
        &&& self.metrics_collector.real_time_metrics.system_health_score == 100
        &&& self.analytics_engine.analytics_data.privacy_trends@.len()
            == self.analytics_engine.analytics_data.anonymity_trends@.len()
        &&& self.analytics_engine.analytics_data.privacy_trends@.len()
            == self.analytics_engine.analytics_data.mixing_trends@.len()
    }

    /// The real-time metrics.
    pub closed spec fn spec_metrics(&self) -> PrivacyRealTimeMetrics {
        self.metrics_collector.real_time_metrics
    }

    /// The number of violations detected.
    pub closed spec fn spec_violation_count(&self) -> nat {
        self.violation_detector.detected_violations@.len()
    }

    /// The violations detected.
    pub closed spec fn spec_violations(&self) -> Seq<PrivacyViolation> {
        self.violation_detector.detected_violations@
    }

    /// The analytics data.
    pub closed spec fn spec_analytics(&self) -> PrivacyAnalyticsData {
        self.analytics_engine.analytics_data
    }

    /// The dashboard data.
    pub closed spec fn spec_dashboard_data(&self) -> PrivacyDashboardData {
        self.dashboard_data
    }

    /// The number of active alerts.
    pub closed spec fn spec_alert_count(&self) -> nat {
        self.alerting_system.active_alerts@.len()
    }

    /// The privacy trend points recorded.
    pub closed spec fn spec_privacy_trends(&self) -> Seq<PrivacyTrend> {
        self.analytics_engine.analytics_data.privacy_trends@
    }

    /// The dashboard metrics.
    pub closed spec fn spec_dashboard(&self) -> DashboardMetrics {
        self.dashboard_data.dashboard_metrics
    }

    /// A monitor with privacy level 100, full health and no transactions,
    /// violations, trends or alerts; the privacy-level violation pattern,
    /// the privacy trend model, the privacy-level alert rule and the
    /// console channel; thresholds of level 90 and anonymity set 5; a
    /// retention period of 24 hours; a healthy dashboard at level 100.
    pub fn new() -> (res: Self)
        ensures
            res.well_formed(),
            res.spec_metrics() == initial_metrics(),
            res.spec_violation_count() == 0,
            res.spec_alert_count() == 0,
            res.spec_privacy_trends().len() == 0,
            res.spec_dashboard() == (DashboardMetrics {
                overall_privacy_score: 100,
                privacy_level: 100,
                active_violations: 0,
                system_health: 100,
                performance_score: 100,
            }),
    {
        PrivacyMonitoringSystem {
            metrics_collector: PrivacyMetricsCollector {
                real_time_metrics: PrivacyRealTimeMetrics {
                    current_privacy_level: 100,
                    transactions_per_second: 0,
                    violations_per_minute: 0,
                    cross_chain_privacy_level: 100,
                    system_health_score: 100,
                },
                historical_metrics: Vec::new(),
                retention_period: duration_from_secs(86400),
            },
            violation_detector: PrivacyViolationDetector {
                violation_patterns: create_violation_patterns(),
                detected_violations: Vec::new(),
                violation_thresholds: ViolationThresholds {
                    privacy_level_threshold: 90,
                    anonymity_set_size_threshold: 5,
                },
            },
            analytics_engine: PrivacyAnalyticsEngine {
                analytics_data: PrivacyAnalyticsData {
                    privacy_trends: Vec::new(),
                    anonymity_trends: Vec::new(),
                    mixing_trends: Vec::new(),
                    cross_chain_trends: Vec::new(),
                    performance_trends: Vec::new(),
                },
                analytics_models: create_analytics_models(),
                trend_analysis: TrendAnalysis {
                    privacy_trend_analysis: TrendAnalysisResult {
                        trend_direction: TrendDirection::Stable,
                        prediction: owned("Stable privacy levels"),
                    },
                    anonymity_trend_analysis: TrendAnalysisResult {
                        trend_direction: TrendDirection::Stable,
                        prediction: owned("Stable anonymity levels"),
                    },
                    mixing_trend_analysis: TrendAnalysisResult {
                        trend_direction: TrendDirection::Stable,
                        prediction: owned("Stable mixing efficiency"),
                    },
                    performance_trend_analysis: TrendAnalysisResult {
                        trend_direction: TrendDirection::Stable,
                        prediction: owned("Stable performance"),
                    },
                },
            },
            alerting_system: PrivacyAlertingSystem {
                alert_rules: create_alert_rules(),
                active_alerts: Vec::new(),
                alert_channels: create_alert_channels(),
            },
            dashboard_data: PrivacyDashboardData {
                dashboard_metrics: DashboardMetrics {
                    overall_privacy_score: 100,
                    privacy_level: 100,
                    active_violations: 0,
                    system_health: 100,
                    performance_score: 100,
                },
                dashboard_charts: Vec::new(),
                dashboard_alerts: Vec::new(),
                dashboard_status: DashboardStatus {
                    system_status: owned("Healthy"),
                    privacy_status: owned("Maximum"),
                    performance_status: owned("Optimal"),
                    alert_status: owned("Normal"),
                },
            },
        }
    }

    /// Monitors one transaction, given by its hash: the transaction is
    /// counted, the privacy level and health stay at 100, one privacy,
    /// anonymity and mixing trend point is recorded at the current time
    /// (a clock before the Unix epoch is reported before any point is
    /// recorded), and the dashboard shows the level and health. At privacy
    /// level 100 no violation and no alert arises.
    pub fn monitor_transaction(&mut self, transaction_hash: &str) -> (res: Result<(), PrivacyError>)
        requires
            old(self).well_formed(),
            old(self).spec_metrics().transactions_per_second < u64::MAX,
        ensures
            final(self).well_formed(),
            res is Ok || res == Err::<(), PrivacyError>(PrivacyError::ClockError),
            final(self).spec_metrics() == metrics_after_transaction(old(self).spec_metrics()),
            final(self).spec_violation_count() == old(self).spec_violation_count(),
            final(self).spec_alert_count() == old(self).spec_alert_count(),
            res is Ok ==> exists|t: u64| final(self).spec_privacy_trends() == old(self).spec_privacy_trends().push(
                #[trigger] stable_point(t),
            ),
            res is Ok ==> final(self).spec_dashboard() == (DashboardMetrics {
                overall_privacy_score: 100,
                privacy_level: 100,
                system_health: 100,
                ..old(self).spec_dashboard()
            }),
            res is Err ==> final(self).spec_privacy_trends() == old(self).spec_privacy_trends()
                && final(self).spec_dashboard() == old(self).spec_dashboard(),
    {
        self.update_real_time_metrics();
        match self.check_privacy_violations(transaction_hash) {
            Ok(()) => {},
            Err(e) => return Err(e),
        }
        match self.update_analytics() {
            Ok(()) => {},
            Err(e) => return Err(e),
        }
        match self.check_alert_conditions() {
            Ok(()) => {},
            Err(e) => return Err(e),
        }
        self.update_dashboard();
        Ok(())
    }

    /// The real-time metrics.
    pub fn get_real_time_metrics(&self) -> (res: Result<PrivacyRealTimeMetrics, PrivacyError>)
        ensures
            res == Ok::<PrivacyRealTimeMetrics, PrivacyError>(self.spec_metrics()),
    {
        Ok(self.metrics_collector.real_time_metrics)
    }

    /// The violations detected, in order.
    pub fn get_privacy_violations(&self) -> (res: Result<Vec<PrivacyViolation>, PrivacyError>)
        ensures
            res matches Ok(v) && same_violations(v@, self.spec_violations()),
            res matches Ok(v) && v@.len() == self.spec_violation_count(),
    {
        Ok(copy_violations(&self.violation_detector.detected_violations))
    }

    /// The analytics data.
    pub fn get_privacy_analytics(&self) -> (res: Result<PrivacyAnalyticsData, PrivacyError>)
        ensures
            res matches Ok(a) && same_analytics(a, self.spec_analytics()),
            res matches Ok(a) && a.privacy_trends@ == self.spec_privacy_trends(),
    {
        Ok(copy_analytics(&self.analytics_engine.analytics_data))
    }

    /// The dashboard data.
    pub fn get_dashboard_data(&self) -> (res: Result<PrivacyDashboardData, PrivacyError>)
        ensures
            res matches Ok(d) && same_dashboard(d, self.spec_dashboard_data()),
            res matches Ok(d) && d.dashboard_metrics == self.spec_dashboard(),
    {
        Ok(copy_dashboard(&self.dashboard_data))
    }

    /// The privacy report: a fresh identifier, the time, the metrics,
    /// violations, analytics and dashboard, and the summary of the metrics
    /// and the violation count. A clock before the Unix epoch is reported.
    pub fn generate_privacy_report(&self) -> (res: Result<PrivacyReport, PrivacyError>)
        ensures
            res is Ok || res == Err::<PrivacyReport, PrivacyError>(PrivacyError::ClockError),
            res matches Ok(r) ==> {
                &&& exists|t: u64, n: u64| r.report_id@ == #[trigger] report_id_spec(t, n)
                &&& r.real_time_metrics == self.spec_metrics()
                &&& same_violations(r.violations@, self.spec_violations())
                &&& same_analytics(r.analytics, self.spec_analytics())
                &&& same_dashboard(r.dashboard, self.spec_dashboard_data())
                &&& r.summary@ == report_summary(self.spec_metrics(), self.spec_violation_count())
            },
    {
        let real_time_metrics = self.metrics_collector.real_time_metrics;
        let violations = copy_violations(&self.violation_detector.detected_violations);
        let analytics = copy_analytics(&self.analytics_engine.analytics_data);
        let dashboard = copy_dashboard(&self.dashboard_data);
        let report_id = match time_random_id() {
            Some(id) => id,
            None => return Err(PrivacyError::ClockError),
        };
        let generated_at = match unix_time_secs() {
            Some(t) => t,
            None => return Err(PrivacyError::ClockError),
        };
        let summary = generate_report_summary(&real_time_metrics, violations.len());
        Ok(PrivacyReport { report_id, generated_at, real_time_metrics, violations, analytics, dashboard, summary })
    }

    /// Counts the transaction and keeps level, cross-chain level and health
    /// at 100.
    fn update_real_time_metrics(&mut self)
        requires
            old(self).metrics_collector.real_time_metrics.transactions_per_second < u64::MAX,
        ensures
            final(self).metrics_collector.real_time_metrics == metrics_after_transaction(
                old(self).metrics_collector.real_time_metrics,
            ),
            final(self).violation_detector == old(self).violation_detector,
            final(self).analytics_engine == old(self).analytics_engine,
            final(self).alerting_system == old(self).alerting_system,
            final(self).dashboard_data == old(self).dashboard_data,
    {
        let m = &mut self.metrics_collector.real_time_metrics;
        m.transactions_per_second = m.transactions_per_second + 1;
        m.current_privacy_level = 100;
        m.cross_chain_privacy_level = 100;
        m.system_health_score = 100;
    }

    /// Records a violation when the privacy-level threshold lies above
    /// 100, the level every transaction keeps: a high-severity privacy-level
    /// violation against the transaction, with a fresh identifier and the
    /// time. A clock before the Unix epoch is reported, changing nothing.
    /// Otherwise nothing changes.
    fn check_privacy_violations(&mut self, transaction_hash: &str) -> (res: Result<(), PrivacyError>)
        ensures
            old(self).violation_detector.violation_thresholds.privacy_level_threshold <= 100 ==> res is Ok
                && *final(self) == *old(self),
            res is Err ==> res == Err::<(), PrivacyError>(PrivacyError::ClockError) && *final(self) == *old(self),
            old(self).violation_detector.violation_thresholds.privacy_level_threshold > 100 && res is Ok ==> {
                let before = old(self).violation_detector.detected_violations@;
                let after = final(self).violation_detector.detected_violations@;
                &&& after.len() == before.len() + 1
                &&& after.take(before.len() as int) == before
                &&& after.last().violation_type@ == "privacy_level_violation"@
                &&& after.last().description@ == "Privacy level below threshold"@
                &&& after.last().severity == ViolationSeverity::High
                &&& after.last().affected_transaction matches Some(h) && h@ == transaction_hash@
                &&& after.last().details@.len() == 0
                &&& exists|t: u64, n: u64| after.last().violation_id@ == #[trigger] report_id_spec(t, n)
                &&& final(self).violation_detector.violation_patterns == old(self).violation_detector.violation_patterns
                &&& final(self).violation_detector.violation_thresholds
                    == old(self).violation_detector.violation_thresholds
                &&& final(self).metrics_collector == old(self).metrics_collector
                &&& final(self).analytics_engine == old(self).analytics_engine
                &&& final(self).alerting_system == old(self).alerting_system
                &&& final(self).dashboard_data == old(self).dashboard_data
            },
    {
        if self.violation_detector.violation_thresholds.privacy_level_threshold > 100 {
            let violation_id = match time_random_id() {
                Some(id) => id,
                None => return Err(PrivacyError::ClockError),
            };
            let detected_at = match unix_time_secs() {
                Some(t) => t,
                None => return Err(PrivacyError::ClockError),
            };
            let ghost before = self.violation_detector.detected_violations@;
            self.violation_detector.detected_violations.push(
                PrivacyViolation {
                    violation_id,
                    violation_type: owned("privacy_level_violation"),
                    description: owned("Privacy level below threshold"),
                    severity: ViolationSeverity::High,
                    detected_at,
                    affected_transaction: Some(owned(transaction_hash)),
                    details: Vec::new(),
                },
            );
            assert(self.violation_detector.detected_violations@.take(before.len() as int) =~= before);
        }
        Ok(())
    }

    /// Records one privacy, anonymity and mixing trend point at the
    /// current time.
    fn update_analytics(&mut self) -> (res: Result<(), PrivacyError>)
        requires
            old(self).well_formed(),
        ensures
            final(self).well_formed(),
            res is Ok || res == Err::<(), PrivacyError>(PrivacyError::ClockError),
            res is Err ==> *final(self) == *old(self),
            res is Ok ==> exists|t: u64| final(self).spec_privacy_trends() == old(self).spec_privacy_trends().push(
                #[trigger] stable_point(t),
            ),
            final(self).metrics_collector == old(self).metrics_collector,
            final(self).violation_detector == old(self).violation_detector,
            final(self).alerting_system == old(self).alerting_system,
            final(self).dashboard_data == old(self).dashboard_data,
    {
        let now = match unix_time_secs() {
            Some(t) => t,
            None => return Err(PrivacyError::ClockError),
        };
        let data = &mut self.analytics_engine.analytics_data;
        data.privacy_trends.push(
            PrivacyTrend { timestamp: now, privacy_level: 100, trend_direction: TrendDirection::Stable },
        );
        data.anonymity_trends.push(AnonymityTrend { timestamp: now, anonymity_level: 100 });
        data.mixing_trends.push(MixingTrend { timestamp: now, mixing_pool_size: 100 });
        assert(self.spec_privacy_trends() == old(self).spec_privacy_trends().push(stable_point(now)));
        Ok(())
    }

    /// Raises an alert when the privacy level is below 90: an active
    /// high-severity privacy-level alert with a fresh identifier and the
    /// time. A clock before the Unix epoch is reported, changing nothing.
    /// Otherwise nothing changes.
    fn check_alert_conditions(&mut self) -> (res: Result<(), PrivacyError>)
        ensures
            old(self).metrics_collector.real_time_metrics.current_privacy_level >= 90 ==> res is Ok && *final(self)
                == *old(self),
            res is Err ==> res == Err::<(), PrivacyError>(PrivacyError::ClockError) && *final(self) == *old(self),
            old(self).metrics_collector.real_time_metrics.current_privacy_level < 90 && res is Ok ==> {
                let before = old(self).alerting_system.active_alerts@;
                let after = final(self).alerting_system.active_alerts@;
                &&& after.len() == before.len() + 1
                &&& after.take(before.len() as int) == before
                &&& after.last().alert_type@ == "privacy_level_alert"@
                &&& after.last().message@ == "Privacy level below threshold"@
                &&& after.last().severity == ViolationSeverity::High
                &&& after.last().status == AlertStatus::Active
                &&& exists|t: u64, n: u64| after.last().alert_id@ == #[trigger] report_id_spec(t, n)
                &&& final(self).alerting_system.alert_rules == old(self).alerting_system.alert_rules
                &&& final(self).alerting_system.alert_channels == old(self).alerting_system.alert_channels
                &&& final(self).metrics_collector == old(self).metrics_collector
                &&& final(self).violation_detector == old(self).violation_detector
                &&& final(self).analytics_engine == old(self).analytics_engine
                &&& final(self).dashboard_data == old(self).dashboard_data
            },
    {
        if self.metrics_collector.real_time_metrics.current_privacy_level < 90 {
            let alert_id = match time_random_id() {
                Some(id) => id,
                None => return Err(PrivacyError::ClockError),
            };
            let timestamp = match unix_time_secs() {
                Some(t) => t,
                None => return Err(PrivacyError::ClockError),
            };
            let ghost before = self.alerting_system.active_alerts@;
            self.alerting_system.active_alerts.push(
                PrivacyAlert {
                    alert_id,
                    alert_type: owned("privacy_level_alert"),
                    message: owned("Privacy level below threshold"),
                    severity: ViolationSeverity::High,
                    timestamp,
                    status: AlertStatus::Active,
                },
            );
            assert(self.alerting_system.active_alerts@.take(before.len() as int) =~= before);
        }
        Ok(())
    }

    /// Shows the privacy level and health on the dashboard.
    fn update_dashboard(&mut self)
        ensures
            final(self).dashboard_data.dashboard_metrics == (DashboardMetrics {
                overall_privacy_score: old(self).metrics_collector.real_time_metrics.current_privacy_level as u64,
                privacy_level: old(self).metrics_collector.real_time_metrics.current_privacy_level,
                system_health: old(self).metrics_collector.real_time_metrics.system_health_score,
                ..old(self).dashboard_data.dashboard_metrics
            }),
            final(self).dashboard_data.dashboard_charts == old(self).dashboard_data.dashboard_charts,
            final(self).dashboard_data.dashboard_alerts == old(self).dashboard_data.dashboard_alerts,
            final(self).dashboard_data.dashboard_status == old(self).dashboard_data.dashboard_status,
            final(self).metrics_collector == old(self).metrics_collector,
            final(self).violation_detector == old(self).violation_detector,
            final(self).analytics_engine == old(self).analytics_engine,
            final(self).alerting_system == old(self).alerting_system,
    {
        let level = self.metrics_collector.real_time_metrics.current_privacy_level;
        let health = self.metrics_collector.real_time_metrics.system_health_score;
        self.dashboard_data.dashboard_metrics.overall_privacy_score = level as u64;
        self.dashboard_data.dashboard_metrics.privacy_level = level;
        self.dashboard_data.dashboard_metrics.system_health = health;
    }
}

/// A stable privacy trend point at level 100.
pub open spec fn stable_point(t: u64) -> PrivacyTrend {
    PrivacyTrend { timestamp: t, privacy_level: 100, trend_direction: TrendDirection::Stable }
}

/// The report summary of the metrics and the number of violations.
fn generate_report_summary(metrics: &PrivacyRealTimeMetrics, violations: usize) -> (res: String)
    ensures
        res@ == report_summary(*metrics, violations as nat),
{
    let mut summary = owned("Privacy Level: ");
    push_decimal_then(&mut summary, metrics.current_privacy_level as u64, "%\n");
    summary.append("System Health: ");
    push_decimal_then(&mut summary, metrics.system_health_score, ".0%\n");
    summary.append("Active Violations: ");
    push_decimal_then(&mut summary, violations as u64, "\n");
    summary.append("Transactions/sec: ");
    push_decimal_then(&mut summary, metrics.transactions_per_second, ".0\n");
    summary
}

/// A copy of a list of string pairs.
pub(crate) fn copy_pairs(v: &Vec<(String, String)>) -> (res: Vec<(String, String)>)
    ensures
        pair_views(res@) == pair_views(v@),
{
    let mut res: Vec<(String, String)> = Vec::new();
    let mut i: usize = 0;
    while i < v.len()
        invariant
            i <= v@.len(),
            pair_views(res@) == pair_views(v@).take(i as int),
        decreases v@.len() - i,
    {
        let a = v[i].0.clone();
        let b = v[i].1.clone();
        let ghost before = res@;
        res.push((a, b));
        assert(res@ == before.push((a, b)));
        assert(pair_views(res@) =~= pair_views(before).push((a@, b@)));
        i = i + 1;
        assert(pair_views(res@) =~= pair_views(v@).take(i as int));
    }
    assert(pair_views(v@).take(v@.len() as int) =~= pair_views(v@));
    res
}

/// A copy of a violation.
fn copy_violation(v: &PrivacyViolation) -> (res: PrivacyViolation)
    ensures
        same_violation(res, *v),
{
    let affected_transaction = match &v.affected_transaction {
        Some(h) => Some(h.clone()),
        None => None,
    };
    PrivacyViolation {
        violation_id: v.violation_id.clone(),
        violation_type: v.violation_type.clone(),
        description: v.description.clone(),
        severity: v.severity,
        detected_at: v.detected_at,
        affected_transaction,
        details: copy_pairs(&v.details),
    }
}

/// A copy of a list of violations.
fn copy_violations(v: &Vec<PrivacyViolation>) -> (res: Vec<PrivacyViolation>)
    ensures
        same_violations(res@, v@),
{
    let mut res: Vec<PrivacyViolation> = Vec::new();
    let mut i: usize = 0;
    while i < v.len()
        invariant
            i <= v@.len(),
            res@.len() == i,
            forall|j: int| 0 <= j < i ==> same_violation(#[trigger] res@[j], v@[j]),
        decreases v@.len() - i,
    {
        res.push(copy_violation(&v[i]));
        i = i + 1;
    }
    res
}

/// A copy of an alert.
fn copy_alert(a: &PrivacyAlert) -> (res: PrivacyAlert)
    ensures
        same_alert(res, *a),
{
    PrivacyAlert {
        alert_id: a.alert_id.clone(),
        alert_type: a.alert_type.clone(),
        message: a.message.clone(),
        severity: a.severity,
        timestamp: a.timestamp,
        status: a.status,
    }
}

/// A copy of a list of alerts.
fn copy_alerts(v: &Vec<PrivacyAlert>) -> (res: Vec<PrivacyAlert>)
    ensures
        same_alerts(res@, v@),
{
    let mut res: Vec<PrivacyAlert> = Vec::new();
    let mut i: usize = 0;
    while i < v.len()
        invariant
            i <= v@.len(),
            res@.len() == i,
            forall|j: int| 0 <= j < i ==> same_alert(#[trigger] res@[j], v@[j]),
        decreases v@.len() - i,
    {
        res.push(copy_alert(&v[i]));
        i = i + 1;
    }
    res
}

/// A copy of a list of values that are copied bit for bit.
pub(crate) fn copy_list<T: Copy>(v: &Vec<T>) -> (res: Vec<T>)
    ensures
        res@ == v@,
{
    let mut res: Vec<T> = Vec::new();
    let mut i: usize = 0;
    while i < v.len()
        invariant
            i <= v@.len(),
            res@ == v@.take(i as int),
        decreases v@.len() - i,
    {
        res.push(v[i]);
        i = i + 1;
        assert(res@ =~= v@.take(i as int));
    }
    assert(v@.take(v@.len() as int) =~= v@);
    res
}

/// A copy of the analytics data.
fn copy_analytics(a: &PrivacyAnalyticsData) -> (res: PrivacyAnalyticsData)
    ensures
        same_analytics(res, *a),
{
    PrivacyAnalyticsData {
        privacy_trends: copy_list(&a.privacy_trends),
        anonymity_trends: copy_list(&a.anonymity_trends),
        mixing_trends: copy_list(&a.mixing_trends),
        cross_chain_trends: copy_list(&a.cross_chain_trends),
        performance_trends: copy_list(&a.performance_trends),
    }
}

/// A copy of the dashboard data.
fn copy_dashboard(d: &PrivacyDashboardData) -> (res: PrivacyDashboardData)
    ensures
        same_dashboard(res, *d),
{
    let mut charts: Vec<DashboardChart> = Vec::new();
    let mut i: usize = 0;
    while i < d.dashboard_charts.len()
        invariant
            i <= d.dashboard_charts@.len(),
            charts@.len() == i,
            forall|j: int| 0 <= j < i ==> {
                &&& (#[trigger] charts@[j]).chart_id@ == d.dashboard_charts@[j].chart_id@
                &&& charts@[j].chart_name@ == d.dashboard_charts@[j].chart_name@
                &&& charts@[j].chart_type@ == d.dashboard_charts@[j].chart_type@
            },
        decreases d.dashboard_charts@.len() - i,
    {
        let c = &d.dashboard_charts[i];
        charts.push(
            DashboardChart {
                chart_id: c.chart_id.clone(),
                chart_name: c.chart_name.clone(),
                chart_type: c.chart_type.clone(),
            },
        );
        i = i + 1;
    }
    PrivacyDashboardData {
        dashboard_metrics: d.dashboard_metrics,
        dashboard_charts: charts,
        dashboard_alerts: copy_alerts(&d.dashboard_alerts),
        dashboard_status: DashboardStatus {
            system_status: d.dashboard_status.system_status.clone(),
            privacy_status: d.dashboard_status.privacy_status.clone(),
            performance_status: d.dashboard_status.performance_status.clone(),
            alert_status: d.dashboard_status.alert_status.clone(),
        },
    }
}

/// The privacy-level violation pattern, keyed by its identifier.
fn create_violation_patterns() -> (res: Vec<(String, ViolationPattern)>)
    ensures
        res@.len() == 1,
        res@[0].0@ == "privacy_level_violation"@,
{
    let rule = DetectionRule {
        rule_id: owned("privacy_level_rule"),
        rule_type: owned("threshold"),
        parameters: Vec::new(),
    };
    let mut patterns: Vec<(String, ViolationPattern)> = Vec::new();
    patterns.push(
        (
            owned("privacy_level_violation"),
            ViolationPattern {
                pattern_id: owned("privacy_level_violation"),
                pattern_name: owned("Privacy Level Violation"),
                description: owned("Transaction privacy level below threshold"),
                severity: ViolationSeverity::High,
                detection_rules: vec![rule],
            },
        ),
    );
    patterns
}

/// The privacy trend model, keyed by its identifier.
fn create_analytics_models() -> (res: Vec<(String, AnalyticsModel)>)
    ensures
        res@.len() == 1,
        res@[0].0@ == "privacy_trend_model"@,
{
    let mut models: Vec<(String, AnalyticsModel)> = Vec::new();
    models.push(
        (
            owned("privacy_trend_model"),
            AnalyticsModel {
                model_id: owned("privacy_trend_model"),
                model_name: owned("Privacy Trend Model"),
                model_type: owned("time_series"),
            },
        ),
    );
    models
}

/// The privacy-level alert rule, keyed by its identifier.
fn create_alert_rules() -> (res: Vec<(String, AlertRule)>)
    ensures
        res@.len() == 1,
        res@[0].0@ == "privacy_level_alert"@,
{
    let mut rules: Vec<(String, AlertRule)> = Vec::new();
    rules.push(
        (
            owned("privacy_level_alert"),
            AlertRule {
                rule_id: owned("privacy_level_alert"),
                rule_name: owned("Privacy Level Alert"),
                condition: owned("privacy_level < 90"),
                severity: ViolationSeverity::High,
                enabled: true,
            },
        ),
    );
    rules
}

/// The console alert channel, keyed by its identifier.
fn create_alert_channels() -> (res: Vec<(String, AlertChannel)>)
    ensures
        res@.len() == 1,
        res@[0].0@ == "console_alert"@,
{
    let mut channels: Vec<(String, AlertChannel)> = Vec::new();
    channels.push(
        (
            owned("console_alert"),
            AlertChannel {
                channel_id: owned("console_alert"),
                channel_name: owned("Console Alert"),
                channel_type: owned("console"),
                configuration: Vec::new(),
            },
        ),
    );
    channels
}

/// A fresh identifier: hex SHA-256 of the current time and a random
/// number; `None` where the clock stands before the epoch.
pub(crate) fn time_random_id() -> (res: Option<String>)
    ensures
        res matches Some(id) ==> exists|t: u64, r: u64| id@ == #[trigger] report_id_spec(t, r),
{
    let t = match unix_time_secs() {
        Some(t) => t,
        None => return None,
    };
    let r = random_u64();
    let mut buf = u64_le_bytes(t);
    let rb = u64_le_bytes(r);
    extend_bytes(&mut buf, rb.as_slice());
    let d = sha256(buf.as_slice());
    let id = hex_encode(&d);
    assert(id@ == report_id_spec(t, r));
    Some(id)
}

} // verus!
