//! Production privacy monitoring: metrics collection, violation detection,
//! analytics, alerting, dashboard and performance monitoring with their
//! counters, updated for every monitored transaction, and the production
//! privacy report. The figures that the report prints with one decimal
//! (health, transactions, proof times, throughput) are kept in tenths;
//! the monitor's other fractional figures are not kept here.
use vstd::prelude::*;
use vstd::string::*;
use crate::crypto::{duration_from_secs, unix_time_secs};
use crate::error::PrivacyError;
use crate::placeholder_tracking::{count_line, report_id_spec};
use crate::privacy_monitoring::{copy_list, copy_pairs, opt_view, pair_views, time_random_id};
use crate::text::{decimal_chars, owned, push_decimal_then};

verus! {

/// The production privacy monitoring system.
pub struct ProductionPrivacyMonitoringSystem {
    metrics_collector: ProductionMetricsCollector,
    violation_detector: ProductionViolationDetector,
    analytics_engine: ProductionAnalyticsEngine,
    alerting_system: ProductionAlertingSystem,
    dashboard_data: ProductionDashboardData,
    performance_monitoring: ProductionPerformanceMonitoring,
}

/// The metrics collector.
pub struct ProductionMetricsCollector {
    real_time_metrics: ProductionRealTimeMetrics,
    historical_metrics: Vec<ProductionHistoricalMetrics>,
    retention_period: std::time::Duration,
    collection_stats: ProductionCollectionStats,
}

/// Real-time metrics.
#[derive(Debug, Clone, Copy, PartialEq, Eq, Structural)]
pub struct ProductionRealTimeMetrics {
    /// Current privacy level, 0 to 100.
    pub current_privacy_level: u8,
    /// Transactions counted, in tenths.
    pub transactions_per_second_tenths: u64,
    /// System health score in tenths of a percent.
    pub system_health_score_tenths: u64,
    /// Performance figures.
    pub performance_metrics: ProductionPerformanceMetrics,
}

/// Historical metrics.
#[derive(Debug, Clone, Copy, PartialEq, Eq, Structural)]
pub struct ProductionHistoricalMetrics {
    /// Time, seconds since the Unix epoch.
    pub timestamp: u64,
    /// Privacy level.
    pub privacy_level: u8,
    /// Transactions.
    pub transaction_count: u64,
    /// Violations.
    pub violation_count: u64,
}

/// Performance figures, in tenths.
#[derive(Debug, Clone, Copy, PartialEq, Eq, Structural)]
pub struct ProductionPerformanceMetrics {
    /// Proof generation time in tenths of a millisecond.
    pub proof_generation_time_ms_tenths: u64,
    /// Proof verification time in tenths of a millisecond.
    pub proof_verification_time_ms_tenths: u64,
    /// Throughput in tenths of a transaction per second.
    pub throughput_tps_tenths: u64,
}

/// Collection statistics.
#[derive(Debug, Clone, Copy, PartialEq, Eq, Structural)]
pub struct ProductionCollectionStats {
    /// Collections.
    pub total_collections: u64,
    /// Successful collections.
    pub successful_collections: u64,
    /// Failed collections.
    pub failed_collections: u64,
}

/// The violation detector.
pub struct ProductionViolationDetector {
    violation_patterns: Vec<(String, ProductionViolationPattern)>,
    detected_violations: Vec<ProductionPrivacyViolation>,
    violation_thresholds: ProductionViolationThresholds,
    detection_stats: ProductionDetectionStats,
}

/// A violation pattern.
pub struct ProductionViolationPattern {
    /// Pattern identifier.
    pub pattern_id: String,
    /// Pattern name.
    pub pattern_name: String,
    /// Description.
    pub description: String,
    /// Severity.
    pub severity: ProductionViolationSeverity,
    /// Detection rules.
    pub detection_rules: Vec<ProductionDetectionRule>,
}

/// A detection rule.
pub struct ProductionDetectionRule {
    /// Rule identifier.
    pub rule_id: String,
    /// Rule type.
    pub rule_type: String,
    /// Parameters.
    pub parameters: Vec<(String, String)>,
}

/// Severity of a violation.
#[derive(Debug, Clone, Copy, PartialEq, Eq, Structural)]
pub enum ProductionViolationSeverity {
    /// Low.
    Low,
    /// Medium.
    Medium,
    /// High.
    High,
    /// Critical.
    Critical,
}

/// A detected violation.
pub struct ProductionPrivacyViolation {
    /// Violation identifier.
    pub violation_id: String,
    /// Violation type.
    pub violation_type: String,
    /// Description.
    pub description: String,
    /// Severity.
    pub severity: ProductionViolationSeverity,
    /// Detection time, seconds since the Unix epoch.
    pub detected_at: u64,
    /// Hash of the affected transaction.
    pub affected_transaction: Option<String>,
    /// Details.
    pub details: Vec<(String, String)>,
}

/// Violation thresholds.
#[derive(Debug, Clone, Copy, PartialEq, Eq, Structural)]
pub struct ProductionViolationThresholds {
    /// Privacy level below which a violation is detected.
    pub privacy_level_threshold: u8,
    /// Smallest acceptable anonymity set.
    pub anonymity_set_size_threshold: usize,
}

/// Detection statistics.
#[derive(Debug, Clone, Copy, PartialEq, Eq, Structural)]
pub struct ProductionDetectionStats {
    /// Detections run.
    pub total_detections: u64,
    /// Detections that completed.
    pub successful_detections: u64,
    /// False positives.
    pub false_positives: u64,
    /// False negatives.
    pub false_negatives: u64,
}

/// The analytics engine.
pub struct ProductionAnalyticsEngine {
    analytics_data: ProductionAnalyticsData,
    analytics_models: Vec<(String, ProductionAnalyticsModel)>,
    trend_analysis: ProductionTrendAnalysis,
    analytics_stats: ProductionAnalyticsStats,
}

/// Analytics data: the trends recorded so far.
pub struct ProductionAnalyticsData {
    /// Privacy trends.
    pub privacy_trends: Vec<ProductionPrivacyTrend>,
    /// Anonymity trends.
    pub anonymity_trends: Vec<ProductionAnonymityTrend>,
    /// Mixing trends.
    pub mixing_trends: Vec<ProductionMixingTrend>,
    /// Cross-chain trends.
    pub cross_chain_trends: Vec<ProductionCrossChainTrend>,
    /// Performance trends.
    pub performance_trends: Vec<ProductionPerformanceTrend>,
    /// Security trends.
    pub security_trends: Vec<ProductionSecurityTrend>,
}

/// A privacy trend point.
#[derive(Debug, Clone, Copy, PartialEq, Eq, Structural)]
pub struct ProductionPrivacyTrend {
    /// Time, seconds since the Unix epoch.
    pub timestamp: u64,
    /// Privacy level.
    pub privacy_level: u8,
    /// Direction.
    pub trend_direction: ProductionTrendDirection,
}

/// An anonymity trend point.
#[derive(Debug, Clone, Copy, PartialEq, Eq, Structural)]
pub struct ProductionAnonymityTrend {
    /// Time, seconds since the Unix epoch.
    pub timestamp: u64,
    /// Anonymity level.
    pub anonymity_level: u8,
}

/// A mixing trend point.
#[derive(Debug, Clone, Copy, PartialEq, Eq, Structural)]
pub struct ProductionMixingTrend {
    /// Time, seconds since the Unix epoch.
    pub timestamp: u64,
    /// Mixing pool size.
    pub mixing_pool_size: usize,
}

/// A cross-chain trend point.
#[derive(Debug, Clone, Copy, PartialEq, Eq, Structural)]
pub struct ProductionCrossChainTrend {
    /// Time, seconds since the Unix epoch.
    pub timestamp: u64,
    /// Cross-chain volume.
    pub cross_chain_volume: u64,
}

/// A performance trend point.
#[derive(Debug, Clone, Copy, PartialEq, Eq, Structural)]
pub struct ProductionPerformanceTrend {
    /// Time, seconds since the Unix epoch.
    pub timestamp: u64,
    /// Performance figures at that time.
    pub performance: ProductionPerformanceMetrics,
}

/// A security trend point.
#[derive(Debug, Clone, Copy, PartialEq, Eq, Structural)]
pub struct ProductionSecurityTrend {
    /// Time, seconds since the Unix epoch.
    pub timestamp: u64,
    /// Security level.
    pub security_level: u8,
    /// Threat level.
    pub threat_level: u8,
}

/// Direction of a trend.
#[derive(Debug, Clone, Copy, PartialEq, Eq, Structural)]
pub enum ProductionTrendDirection {
    /// Increasing.
    Increasing,
    /// Decreasing.
    Decreasing,
    /// Stable.
    Stable,
    /// Volatile.
    Volatile,
}

/// An analytics model.
pub struct ProductionAnalyticsModel {
    /// Model identifier.
    pub model_id: String,
    /// Model name.
    pub model_name: String,
    /// Model type.
    pub model_type: String,
}

/// Trend analysis of each figure.
pub struct ProductionTrendAnalysis {
    /// Privacy.
    pub privacy_trend_analysis: ProductionTrendAnalysisResult,
    /// Anonymity.
    pub anonymity_trend_analysis: ProductionTrendAnalysisResult,
    /// Mixing.
    pub mixing_trend_analysis: ProductionTrendAnalysisResult,
    /// Performance.
    pub performance_trend_analysis: ProductionTrendAnalysisResult,
    /// Security.
    pub security_trend_analysis: ProductionTrendAnalysisResult,
}

/// The analysis of one trend.
pub struct ProductionTrendAnalysisResult {
    /// Direction.
    pub trend_direction: ProductionTrendDirection,
    /// Prediction.
    pub prediction: String,
    /// Risk assessment.
    pub risk_assessment: ProductionRiskAssessment,
}

/// A risk assessment.
pub struct ProductionRiskAssessment {
    /// Risk level.
    pub risk_level: String,
    /// Risk factors.
    pub risk_factors: Vec<String>,
    /// Mitigation strategies.
    pub mitigation_strategies: Vec<String>,
}

/// Analytics statistics.
#[derive(Debug, Clone, Copy, PartialEq, Eq, Structural)]
pub struct ProductionAnalyticsStats {
    /// Analyses run.
    pub total_analyses: u64,
    /// Analyses that completed.
    pub successful_analyses: u64,
    /// Analyses that failed.
    pub failed_analyses: u64,
}

/// The alerting system.
pub struct ProductionAlertingSystem {
    alert_rules: Vec<(String, ProductionAlertRule)>,
    active_alerts: Vec<ProductionPrivacyAlert>,
    alert_channels: Vec<(String, ProductionAlertChannel)>,
    alert_stats: ProductionAlertStats,
}

/// An alert rule.
pub struct ProductionAlertRule {
    /// Rule identifier.
    pub rule_id: String,
    /// Rule name.
    pub rule_name: String,
    /// Condition.
    pub condition: String,
    /// Severity.
    pub severity: ProductionViolationSeverity,
    /// Whether the rule is on.
    pub enabled: bool,
}

/// An alert.
pub struct ProductionPrivacyAlert {
    /// Alert identifier.
    pub alert_id: String,
    /// Alert type.
    pub alert_type: String,
    /// Message.
    pub message: String,
    /// Severity.
    pub severity: ProductionViolationSeverity,
    /// Time, seconds since the Unix epoch.
    pub timestamp: u64,
    /// Status.
    pub status: ProductionAlertStatus,
}

/// Status of an alert.
#[derive(Debug, Clone, Copy, PartialEq, Eq, Structural)]
pub enum ProductionAlertStatus {
    /// Active.
    Active,
    /// Acknowledged.
    Acknowledged,
    /// Resolved.
    Resolved,
    /// Suppressed.
    Suppressed,
}

/// An alert channel.
pub struct ProductionAlertChannel {
    /// Channel identifier.
    pub channel_id: String,
    /// Channel name.
    pub channel_name: String,
    /// Channel type.
    pub channel_type: String,
    /// Configuration.
    pub configuration: Vec<(String, String)>,
}

/// Alert statistics.
#[derive(Debug, Clone, Copy, PartialEq, Eq, Structural)]
pub struct ProductionAlertStats {
    /// Alert checks run.
    pub total_alerts: u64,
    /// Alerts active.
    pub active_alerts: u64,
    /// Alerts resolved.
    pub resolved_alerts: u64,
}

/// Dashboard data.
pub struct ProductionDashboardData {
    /// Dashboard metrics.
    pub dashboard_metrics: ProductionDashboardMetrics,
    /// Charts.
    pub dashboard_charts: Vec<ProductionDashboardChart>,
    /// Alerts shown.
    pub dashboard_alerts: Vec<ProductionPrivacyAlert>,
    /// Status lines.
    pub dashboard_status: ProductionDashboardStatus,
}

/// Dashboard metrics.
#[derive(Debug, Clone, Copy, PartialEq, Eq, Structural)]
pub struct ProductionDashboardMetrics {
    /// Overall privacy score, 0 to 100.
    pub overall_privacy_score: u64,
    /// Privacy level, 0 to 100.
    pub privacy_level: u8,
    /// Active violations.
    pub active_violations: u64,
    /// System health in tenths of a percent.
    pub system_health_tenths: u64,
}

/// A dashboard chart.
pub struct ProductionDashboardChart {
    /// Chart identifier.
    pub chart_id: String,
    /// Chart name.
    pub chart_name: String,
    /// Chart type.
    pub chart_type: String,
}

/// Dashboard status lines.
pub struct ProductionDashboardStatus {
    /// System status.
    pub system_status: String,
    /// Privacy status.
    pub privacy_status: String,
    /// Performance status.
    pub performance_status: String,
    /// Alert status.
    pub alert_status: String,
    /// Security status.
    pub security_status: String,
}

/// Performance monitoring.
pub struct ProductionPerformanceMonitoring {
    performance_metrics: ProductionPerformanceMetrics,
    performance_stats: ProductionPerformanceStats,
}

/// Performance statistics.
#[derive(Debug, Clone, Copy, PartialEq, Eq, Structural)]
pub struct ProductionPerformanceStats {
    /// Measurements taken.
    pub total_measurements: u64,
    /// Direction of performance.
    pub performance_trend: ProductionTrendDirection,
}

/// A production privacy report.
pub struct ProductionPrivacyReport {
    /// Report identifier.
    pub report_id: String,
    /// Generation time, seconds since the Unix epoch.
    pub generated_at: u64,
    /// Real-time metrics.
    pub real_time_metrics: ProductionRealTimeMetrics,
    /// Violations detected.
    pub violations: Vec<ProductionPrivacyViolation>,
    /// Trends recorded.
    pub analytics: ProductionAnalyticsData,
    /// Dashboard data.
    pub dashboard: ProductionDashboardData,
    /// Summary.
    pub summary: String,
}

/// The performance figures that the monitor measures: 25 ms to generate
/// a proof, 2 ms to verify one, 2000 transactions per second.
pub open spec fn measured_performance() -> ProductionPerformanceMetrics {
    ProductionPerformanceMetrics {
        proof_generation_time_ms_tenths: 250,
        proof_verification_time_ms_tenths: 20,
        throughput_tps_tenths: 20000,
    }
}

/// The metrics the monitor starts with: level 100, health 100.0, no
/// transactions and zero performance figures.
pub open spec fn initial_production_metrics() -> ProductionRealTimeMetrics {
    ProductionRealTimeMetrics {
        current_privacy_level: 100,
        transactions_per_second_tenths: 0,
        system_health_score_tenths: 1000,
        performance_metrics: ProductionPerformanceMetrics {
            proof_generation_time_ms_tenths: 0,
            proof_verification_time_ms_tenths: 0,
            throughput_tps_tenths: 0,
        },
    }
}

/// The metrics after one more collected transaction: counted, level 100,
/// health 98.5 and the measured performance.
pub open spec fn collected(m: ProductionRealTimeMetrics) -> ProductionRealTimeMetrics {
    ProductionRealTimeMetrics {
        current_privacy_level: 100,
        transactions_per_second_tenths: (m.transactions_per_second_tenths + 10) as u64,
        system_health_score_tenths: 985,
        performance_metrics: measured_performance(),
    }
}

/// A figure kept in tenths, printed with one decimal.
pub open spec fn tenths_chars(t: nat) -> Seq<char> {
    decimal_chars(t / 10) + "."@ + decimal_chars(t % 10)
}

/// The production report summary.
pub open spec fn production_summary(m: ProductionRealTimeMetrics, violations: nat) -> Seq<char> {
    "=== PRODUCTION PRIVACY REPORT ===\n\n"@ + "Privacy Level: "@ + decimal_chars(m.current_privacy_level as nat) + "%\n"@
        + "System Health: "@ + tenths_chars(m.system_health_score_tenths as nat) + "%\n"@ + count_line(
        "Active Violations: "@,
        violations,
    ) + "Transactions/sec: "@ + tenths_chars(m.transactions_per_second_tenths as nat) + "\n"@
        + "Proof Generation: "@ + tenths_chars(m.performance_metrics.proof_generation_time_ms_tenths as nat)
        + "ms\n"@ + "Proof Verification: "@ + tenths_chars(
        m.performance_metrics.proof_verification_time_ms_tenths as nat,
    ) + "ms\n"@ + "Throughput: "@ + tenths_chars(m.performance_metrics.throughput_tps_tenths as nat) + " TPS\n"@
}

/// The monitor's counters: collections, detections, analyses, alert
/// checks and measurements.
pub struct MonitorCounters {
    /// Collections.
    pub collections: u64,
    /// Detections.
    pub detections: u64,
    /// Analyses.
    pub analyses: u64,
    /// Alert checks.
    pub alert_checks: u64,
    /// Measurements.
    pub measurements: u64,
}

/// Every counter and the transaction count can take one more transaction.
pub open spec fn room_to_monitor(m: ProductionRealTimeMetrics, c: MonitorCounters) -> bool {
    &&& m.transactions_per_second_tenths + 10 <= u64::MAX
    &&& c.collections < u64::MAX
    &&& c.detections < u64::MAX
    &&& c.analyses < u64::MAX
    &&& c.alert_checks < u64::MAX
    &&& c.measurements < u64::MAX
}

/// A trend analysis result that predicts stability at low risk.
fn stable_analysis(prediction: &str) -> (res: ProductionTrendAnalysisResult)
    ensures
        res.trend_direction == ProductionTrendDirection::Stable,
        res.prediction@ == prediction@,
        res.risk_assessment.risk_level@ == "Low"@,
        res.risk_assessment.risk_factors@.len() == 0,
        res.risk_assessment.mitigation_strategies@.len() == 0,
{
    ProductionTrendAnalysisResult {
        trend_direction: ProductionTrendDirection::Stable,
        prediction: owned(prediction),
        risk_assessment: ProductionRiskAssessment {
            risk_level: owned("Low"),
            risk_factors: Vec::new(),
            mitigation_strategies: Vec::new(),
        },
    }
}

/// Two violations with the same contents.
pub open spec fn same_production_violation(a: ProductionPrivacyViolation, b: ProductionPrivacyViolation) -> bool {
    &&& a.violation_id@ == b.violation_id@
    &&& a.violation_type@ == b.violation_type@
    &&& a.description@ == b.description@
    &&& a.severity == b.severity
    &&& a.detected_at == b.detected_at
    &&& opt_view(a.affected_transaction) == opt_view(b.affected_transaction)
    &&& pair_views(a.details@) == pair_views(b.details@)
}

/// Two alerts with the same contents.
pub open spec fn same_production_alert(a: ProductionPrivacyAlert, b: ProductionPrivacyAlert) -> bool {
    &&& a.alert_id@ == b.alert_id@
    &&& a.alert_type@ == b.alert_type@
    &&& a.message@ == b.message@
    &&& a.severity == b.severity
    &&& a.timestamp == b.timestamp
    &&& a.status == b.status
}

/// Two analytics records with the same trends.
pub open spec fn same_production_analytics(a: ProductionAnalyticsData, b: ProductionAnalyticsData) -> bool {
    &&& a.privacy_trends@ == b.privacy_trends@
    &&& a.anonymity_trends@ == b.anonymity_trends@
    &&& a.mixing_trends@ == b.mixing_trends@
    &&& a.cross_chain_trends@ == b.cross_chain_trends@
    &&& a.performance_trends@ == b.performance_trends@
    &&& a.security_trends@ == b.security_trends@
}

/// Two dashboards with the same contents.
pub open spec fn same_production_dashboard(a: ProductionDashboardData, b: ProductionDashboardData) -> bool {
    &&& a.dashboard_metrics == b.dashboard_metrics
    &&& a.dashboard_charts@.len() == b.dashboard_charts@.len()
    &&& forall|i: int| 0 <= i < a.dashboard_charts@.len() ==> {
        &&& (#[trigger] a.dashboard_charts@[i]).chart_id@ == b.dashboard_charts@[i].chart_id@
        &&& a.dashboard_charts@[i].chart_name@ == b.dashboard_charts@[i].chart_name@
        &&& a.dashboard_charts@[i].chart_type@ == b.dashboard_charts@[i].chart_type@
    }
    &&& a.dashboard_alerts@.len() == b.dashboard_alerts@.len()
    &&& forall|i: int| 0 <= i < a.dashboard_alerts@.len() ==> same_production_alert(
        #[trigger] a.dashboard_alerts@[i],
        b.dashboard_alerts@[i],
    )
    &&& a.dashboard_status.system_status@ == b.dashboard_status.system_status@
    &&& a.dashboard_status.privacy_status@ == b.dashboard_status.privacy_status@
    &&& a.dashboard_status.performance_status@ == b.dashboard_status.performance_status@
    &&& a.dashboard_status.alert_status@ == b.dashboard_status.alert_status@
    &&& a.dashboard_status.security_status@ == b.dashboard_status.security_status@
}

/// A stable privacy trend point at level 100.
pub open spec fn production_stable_point(t: u64) -> ProductionPrivacyTrend {
    ProductionPrivacyTrend { timestamp: t, privacy_level: 100, trend_direction: ProductionTrendDirection::Stable }
}

impl ProductionPrivacyMonitoringSystem {
    /// The fixed thresholds; the privacy level stays 100; the health is
    /// 100.0 before any collection and 98.5 after; no violation or alert
    /// was ever raised; the trend lists grow together.
    pub closed spec fn well_formed(&self) -> bool {
        &&& self.violation_detector.violation_thresholds == (ProductionViolationThresholds {
            privacy_level_threshold: 90,
            anonymity_set_size_threshold: 5,
        })
        &&& self.metrics_collector.real_time_metrics.current_privacy_level == 100
        &&& self.violation_detector.detected_violations@.len() == 0
        &&& self.alerting_system.active_alerts@.len() == 0
        &&& self.alerting_system.alert_stats.active_alerts == 0
        &&& self.metrics_collector.collection_stats.successful_collections
            == self.metrics_collector.collection_stats.total_collections
        &&& self.violation_detector.detection_stats.successful_detections
            == self.violation_detector.detection_stats.total_detections
        &&& self.analytics_engine.analytics_stats.successful_analyses
            == self.analytics_engine.analytics_stats.total_analyses
        &&& self.analytics_engine.analytics_data.privacy_trends@.len()
            == self.analytics_engine.analytics_data.anonymity_trends@.len()
        &&& self.analytics_engine.analytics_data.privacy_trends@.len()
            == self.analytics_engine.analytics_data.mixing_trends@.len()
        &&& self.analytics_engine.analytics_data.privacy_trends@.len()
            == self.analytics_engine.analytics_data.performance_trends@.len()
    }

    /// The real-time metrics.
    pub closed spec fn spec_metrics(&self) -> ProductionRealTimeMetrics {
        self.metrics_collector.real_time_metrics
    }

    /// The violations detected.
    pub closed spec fn spec_violations(&self) -> Seq<ProductionPrivacyViolation> {
        self.violation_detector.detected_violations@
    }

    /// The analytics data.
    pub closed spec fn spec_analytics(&self) -> ProductionAnalyticsData {
        self.analytics_engine.analytics_data
    }

    /// The dashboard data.
    pub closed spec fn spec_dashboard_data(&self) -> ProductionDashboardData {
        self.dashboard_data
    }

    /// The active alerts.
    pub closed spec fn spec_alerts(&self) -> Seq<ProductionPrivacyAlert> {
        self.alerting_system.active_alerts@
    }

    /// The counters of the monitor's parts.
    pub closed spec fn spec_counters(&self) -> MonitorCounters {
        MonitorCounters {
            collections: self.metrics_collector.collection_stats.total_collections,
            detections: self.violation_detector.detection_stats.total_detections,
            analyses: self.analytics_engine.analytics_stats.total_analyses,
            alert_checks: self.alerting_system.alert_stats.total_alerts,
            measurements: self.performance_monitoring.performance_stats.total_measurements,
        }
    }

    /// The monitor at rest: level 100, health 100.0, no transactions and
    /// zero performance figures; thresholds of level 90 and anonymity set
    /// 5; the privacy-level violation pattern, the privacy trend model, the
    /// privacy-level alert rule and the console channel; stable trend
    /// analyses at low risk; zero counters, no violations, trends or
    /// alerts; a retention period of 24 hours; a healthy, secure dashboard
    /// at level 100.
    pub fn new() -> (res: Self)
        ensures
            res.well_formed(),
            res.spec_metrics() == initial_production_metrics(),
            res.spec_violations().len() == 0,
            res.spec_alerts().len() == 0,
            res.spec_analytics().privacy_trends@.len() == 0,
            res.spec_counters() == (MonitorCounters {
                collections: 0,
                detections: 0,
                analyses: 0,
                alert_checks: 0,
                measurements: 0,
            }),
            res.spec_dashboard_data().dashboard_metrics == (ProductionDashboardMetrics {
                overall_privacy_score: 100,
                privacy_level: 100,
                active_violations: 0,
                system_health_tenths: 1000,
            }),
            res.spec_dashboard_data().dashboard_status.system_status@ == "Healthy"@,
            res.spec_dashboard_data().dashboard_status.privacy_status@ == "Maximum"@,
            res.spec_dashboard_data().dashboard_status.performance_status@ == "Optimal"@,
            res.spec_dashboard_data().dashboard_status.alert_status@ == "Normal"@,
            res.spec_dashboard_data().dashboard_status.security_status@ == "Secure"@,
    {
        let zero_performance = ProductionPerformanceMetrics {
            proof_generation_time_ms_tenths: 0,
            proof_verification_time_ms_tenths: 0,
            throughput_tps_tenths: 0,
        };
        ProductionPrivacyMonitoringSystem {
            metrics_collector: ProductionMetricsCollector {
                real_time_metrics: ProductionRealTimeMetrics {
                    current_privacy_level: 100,
                    transactions_per_second_tenths: 0,
                    system_health_score_tenths: 1000,
                    performance_metrics: zero_performance,
                },
                historical_metrics: Vec::new(),
                retention_period: duration_from_secs(86400),
                collection_stats: ProductionCollectionStats {
                    total_collections: 0,
                    successful_collections: 0,
                    failed_collections: 0,
                },
            },
            violation_detector: ProductionViolationDetector {
                violation_patterns: create_production_violation_patterns(),
                detected_violations: Vec::new(),
                violation_thresholds: ProductionViolationThresholds {
                    privacy_level_threshold: 90,
                    anonymity_set_size_threshold: 5,
                },
                detection_stats: ProductionDetectionStats {
                    total_detections: 0,
                    successful_detections: 0,
                    false_positives: 0,
                    false_negatives: 0,
                },
            },
            analytics_engine: ProductionAnalyticsEngine {
                analytics_data: ProductionAnalyticsData {
                    privacy_trends: Vec::new(),
                    anonymity_trends: Vec::new(),
                    mixing_trends: Vec::new(),
                    cross_chain_trends: Vec::new(),
                    performance_trends: Vec::new(),
                    security_trends: Vec::new(),
                },
                analytics_models: create_production_analytics_models(),
                trend_analysis: ProductionTrendAnalysis {
                    privacy_trend_analysis: stable_analysis("Stable privacy levels"),
                    anonymity_trend_analysis: stable_analysis("Stable anonymity levels"),
                    mixing_trend_analysis: stable_analysis("Stable mixing efficiency"),
                    performance_trend_analysis: stable_analysis("Stable performance"),
                    security_trend_analysis: stable_analysis("Stable security"),
                },
                analytics_stats: ProductionAnalyticsStats {
                    total_analyses: 0,
                    successful_analyses: 0,
                    failed_analyses: 0,
                },
            },
            alerting_system: ProductionAlertingSystem {
                alert_rules: create_production_alert_rules(),
                active_alerts: Vec::new(),
                alert_channels: create_production_alert_channels(),
                alert_stats: ProductionAlertStats { total_alerts: 0, active_alerts: 0, resolved_alerts: 0 },
            },
            dashboard_data: ProductionDashboardData {
                dashboard_metrics: ProductionDashboardMetrics {
                    overall_privacy_score: 100,
                    privacy_level: 100,
                    active_violations: 0,
                    system_health_tenths: 1000,
                },
                dashboard_charts: Vec::new(),
                dashboard_alerts: Vec::new(),
                dashboard_status: ProductionDashboardStatus {
                    system_status: owned("Healthy"),
                    privacy_status: owned("Maximum"),
                    performance_status: owned("Optimal"),
                    alert_status: owned("Normal"),
                    security_status: owned("Secure"),
                },
            },
            performance_monitoring: ProductionPerformanceMonitoring {
                performance_metrics: zero_performance,
                performance_stats: ProductionPerformanceStats {
                    total_measurements: 0,
                    performance_trend: ProductionTrendDirection::Stable,
                },
            },
        }
    }
}

impl ProductionPrivacyMonitoringSystem {
    /// Monitors one transaction, given by its hash: its metrics are
    /// collected (counted, level 100, health 98.5, the measured
    /// performance), violations are looked for, one privacy, anonymity,
    /// mixing and performance trend point is recorded at the current time,
    /// the alert conditions are checked, the dashboard shows level and
    /// health, and performance is measured; every part counts its run. At
    /// privacy level 100 no violation and no alert arises. A clock before
    /// the Unix epoch stops the work after collection and detection.
    pub fn monitor_production_transaction(&mut self, transaction_hash: &str) -> (res: Result<(), PrivacyError>)
        requires
            old(self).well_formed(),
            room_to_monitor(old(self).spec_metrics(), old(self).spec_counters()),
        ensures
            final(self).well_formed(),
            res is Ok || res == Err::<(), PrivacyError>(PrivacyError::ClockError),
            final(self).spec_metrics() == collected(old(self).spec_metrics()),
            final(self).spec_counters().collections == old(self).spec_counters().collections + 1,
            final(self).spec_counters().detections == old(self).spec_counters().detections + 1,
            res is Ok ==> final(self).spec_counters() == (MonitorCounters {
                collections: (old(self).spec_counters().collections + 1) as u64,
                detections: (old(self).spec_counters().detections + 1) as u64,
                analyses: (old(self).spec_counters().analyses + 1) as u64,
                alert_checks: (old(self).spec_counters().alert_checks + 1) as u64,
                measurements: (old(self).spec_counters().measurements + 1) as u64,
            }),
            res is Ok ==> exists|t: u64| final(self).spec_analytics().privacy_trends@ == old(self).spec_analytics().privacy_trends@.push(#[trigger] production_stable_point(t)),
            res is Ok ==> final(self).spec_dashboard_data().dashboard_metrics == (ProductionDashboardMetrics {
                overall_privacy_score: 100,
                privacy_level: 100,
                system_health_tenths: 985,
                ..old(self).spec_dashboard_data().dashboard_metrics
            }),
            res is Err ==> final(self).spec_analytics() == old(self).spec_analytics()
                && final(self).spec_dashboard_data() == old(self).spec_dashboard_data(),
    {
        self.collect_production_privacy_metrics();
        match self.detect_production_privacy_violations(transaction_hash) {
            Ok(()) => {},
            Err(e) => return Err(e),
        }
        match self.perform_production_privacy_analytics() {
            Ok(()) => {},
            Err(e) => return Err(e),
        }
        match self.check_production_alert_conditions() {
            Ok(()) => {},
            Err(e) => return Err(e),
        }
        self.update_production_dashboard();
        self.update_production_performance_monitoring();
        Ok(())
    }

    /// The real-time metrics.
    pub fn get_production_real_time_metrics(&self) -> (res: ProductionRealTimeMetrics)
        ensures
            res == self.spec_metrics(),
    {
        self.metrics_collector.real_time_metrics
    }

    /// The violations detected, in order.
    pub fn get_production_privacy_violations(&self) -> (res: Vec<ProductionPrivacyViolation>)
        ensures
            res@.len() == self.spec_violations().len(),
            forall|i: int| 0 <= i < res@.len() ==> same_production_violation(#[trigger] res@[i], self.spec_violations()[i]),
    {
        copy_production_violations(&self.violation_detector.detected_violations)
    }

    /// The trends recorded.
    pub fn get_production_privacy_analytics(&self) -> (res: ProductionAnalyticsData)
        ensures
            same_production_analytics(res, self.spec_analytics()),
    {
        copy_production_analytics(&self.analytics_engine.analytics_data)
    }

    /// The dashboard data.
    pub fn get_production_dashboard_data(&self) -> (res: ProductionDashboardData)
        ensures
            same_production_dashboard(res, self.spec_dashboard_data()),
    {
        copy_production_dashboard(&self.dashboard_data)
    }

    /// The production privacy report: a fresh identifier, the time, the
    /// metrics, violations, trends and dashboard, and the summary of the
    /// metrics and the violation count. A clock before the Unix epoch is
    /// reported.
    pub fn generate_production_privacy_report(&self) -> (res: Result<ProductionPrivacyReport, PrivacyError>)
        ensures
            res is Ok || res == Err::<ProductionPrivacyReport, PrivacyError>(PrivacyError::ClockError),
            res matches Ok(r) ==> {
                &&& exists|t: u64, n: u64| r.report_id@ == #[trigger] report_id_spec(t, n)
                &&& r.real_time_metrics == self.spec_metrics()
                &&& r.violations@.len() == self.spec_violations().len()
                &&& forall|i: int| 0 <= i < r.violations@.len() ==> same_production_violation(
                    #[trigger] r.violations@[i],
                    self.spec_violations()[i],
                )
                &&& same_production_analytics(r.analytics, self.spec_analytics())
                &&& same_production_dashboard(r.dashboard, self.spec_dashboard_data())
                &&& r.summary@ == production_summary(self.spec_metrics(), self.spec_violations().len())
            },
    {
        let real_time_metrics = self.get_production_real_time_metrics();
        let violations = self.get_production_privacy_violations();
        let analytics = self.get_production_privacy_analytics();
        let dashboard = self.get_production_dashboard_data();
        let report_id = match time_random_id() {
            Some(id) => id,
            None => return Err(PrivacyError::ClockError),
        };
        let generated_at = match unix_time_secs() {
            Some(t) => t,
            None => return Err(PrivacyError::ClockError),
        };
        let summary = generate_production_report_summary(&real_time_metrics, violations.len());
        Ok(ProductionPrivacyReport { report_id, generated_at, real_time_metrics, violations, analytics, dashboard, summary })
    }

    /// Collects the transaction's metrics and counts the collection.
    fn collect_production_privacy_metrics(&mut self)
        requires
            old(self).well_formed(),
            room_to_monitor(old(self).spec_metrics(), old(self).spec_counters()),
        ensures
            final(self).well_formed(),
            final(self).spec_metrics() == collected(old(self).spec_metrics()),
            final(self).spec_counters() == (MonitorCounters {
                collections: (old(self).spec_counters().collections + 1) as u64,
                ..old(self).spec_counters()
            }),
            final(self).violation_detector == old(self).violation_detector,
            final(self).analytics_engine == old(self).analytics_engine,
            final(self).alerting_system == old(self).alerting_system,
            final(self).dashboard_data == old(self).dashboard_data,
            final(self).performance_monitoring == old(self).performance_monitoring,
    {
        let m = &mut self.metrics_collector.real_time_metrics;
        m.transactions_per_second_tenths = m.transactions_per_second_tenths + 10;
        m.current_privacy_level = 100;
        m.system_health_score_tenths = 985;
        m.performance_metrics = ProductionPerformanceMetrics {
            proof_generation_time_ms_tenths: 250,
            proof_verification_time_ms_tenths: 20,
            throughput_tps_tenths: 20000,
        };
        let c = &mut self.metrics_collector.collection_stats;
        c.total_collections = c.total_collections + 1;
        c.successful_collections = c.successful_collections + 1;
    }

    /// Records a violation when the privacy level is below the threshold,
    /// and counts the detection.
    fn detect_production_privacy_violations(&mut self, transaction_hash: &str) -> (res: Result<(), PrivacyError>)
        requires
            old(self).well_formed(),
            old(self).violation_detector.detection_stats.total_detections < u64::MAX,
        ensures
            res is Ok,
            final(self).well_formed(),
            final(self).violation_detector.detection_stats.total_detections
                == old(self).violation_detector.detection_stats.total_detections + 1,
            final(self).violation_detector.detected_violations == old(self).violation_detector.detected_violations,
            final(self).metrics_collector == old(self).metrics_collector,
            final(self).analytics_engine == old(self).analytics_engine,
            final(self).alerting_system == old(self).alerting_system,
            final(self).dashboard_data == old(self).dashboard_data,
            final(self).performance_monitoring == old(self).performance_monitoring,
    {
        if self.metrics_collector.real_time_metrics.current_privacy_level
            < self.violation_detector.violation_thresholds.privacy_level_threshold {
            let violation_id = match time_random_id() {
                Some(id) => id,
                None => return Err(PrivacyError::ClockError),
            };
            let detected_at = match unix_time_secs() {
                Some(t) => t,
                None => return Err(PrivacyError::ClockError),
            };
            self.violation_detector.detected_violations.push(
                ProductionPrivacyViolation {
                    violation_id,
                    violation_type: owned("privacy_level_violation"),
                    description: owned("Privacy level below threshold"),
                    severity: ProductionViolationSeverity::High,
                    detected_at,
                    affected_transaction: Some(owned(transaction_hash)),
                    details: Vec::new(),
                },
            );
        }
        let d = &mut self.violation_detector.detection_stats;
        d.total_detections = d.total_detections + 1;
        d.successful_detections = d.successful_detections + 1;
        Ok(())
    }

    /// Records one privacy, anonymity, mixing and performance trend point
    /// at the current time, and counts the analysis.
    fn perform_production_privacy_analytics(&mut self) -> (res: Result<(), PrivacyError>)
        requires
            old(self).well_formed(),
            old(self).analytics_engine.analytics_stats.total_analyses < u64::MAX,
        ensures
            final(self).well_formed(),
            res is Ok || res == Err::<(), PrivacyError>(PrivacyError::ClockError),
            res is Err ==> final(self).analytics_engine == old(self).analytics_engine,
            res is Ok ==> final(self).analytics_engine.analytics_stats.total_analyses
                == old(self).analytics_engine.analytics_stats.total_analyses + 1,
            res is Ok ==> exists|t: u64| final(self).analytics_engine.analytics_data.privacy_trends@ == old(self).analytics_engine.analytics_data.privacy_trends@.push(#[trigger] production_stable_point(t)),
            final(self).metrics_collector == old(self).metrics_collector,
            final(self).violation_detector == old(self).violation_detector,
            final(self).alerting_system == old(self).alerting_system,
            final(self).dashboard_data == old(self).dashboard_data,
            final(self).performance_monitoring == old(self).performance_monitoring,
    {
        let now = match unix_time_secs() {
            Some(t) => t,
            None => return Err(PrivacyError::ClockError),
        };
        let level = self.metrics_collector.real_time_metrics.current_privacy_level;
        let performance = self.metrics_collector.real_time_metrics.performance_metrics;
        let data = &mut self.analytics_engine.analytics_data;
        data.privacy_trends.push(
            ProductionPrivacyTrend { timestamp: now, privacy_level: level, trend_direction: ProductionTrendDirection::Stable },
        );
        data.anonymity_trends.push(ProductionAnonymityTrend { timestamp: now, anonymity_level: 100 });
        data.mixing_trends.push(ProductionMixingTrend { timestamp: now, mixing_pool_size: 100 });
        data.performance_trends.push(ProductionPerformanceTrend { timestamp: now, performance });
        let a = &mut self.analytics_engine.analytics_stats;
        a.total_analyses = a.total_analyses + 1;
        a.successful_analyses = a.successful_analyses + 1;
        assert(self.analytics_engine.analytics_data.privacy_trends@ == old(self).analytics_engine.analytics_data.privacy_trends@.push(production_stable_point(now)));
        Ok(())
    }

    /// Raises an alert when the privacy level is below 90, and counts the
    /// check.
    fn check_production_alert_conditions(&mut self) -> (res: Result<(), PrivacyError>)
        requires
            old(self).well_formed(),
            old(self).alerting_system.alert_stats.total_alerts < u64::MAX,
        ensures
            res is Ok,
            final(self).well_formed(),
            final(self).alerting_system.alert_stats.total_alerts == old(self).alerting_system.alert_stats.total_alerts
                + 1,
            final(self).alerting_system.active_alerts == old(self).alerting_system.active_alerts,
            final(self).metrics_collector == old(self).metrics_collector,
            final(self).violation_detector == old(self).violation_detector,
            final(self).analytics_engine == old(self).analytics_engine,
            final(self).dashboard_data == old(self).dashboard_data,
            final(self).performance_monitoring == old(self).performance_monitoring,
    {
        if self.metrics_collector.real_time_metrics.current_privacy_level < 90 {
            let alert_id = match time_random_id() {
                Some(id) => id,
                None => return Err(PrivacyError::ClockError),
            };
            let timestamp = match unix_time_secs() {
                Some(t) => t,
                None => return Err(PrivacyError::ClockError),
            };
            self.alerting_system.active_alerts.push(
                ProductionPrivacyAlert {
                    alert_id,
                    alert_type: owned("privacy_level_alert"),
                    message: owned("Privacy level below threshold"),
                    severity: ProductionViolationSeverity::High,
                    timestamp,
                    status: ProductionAlertStatus::Active,
                },
            );
        }
        self.alerting_system.alert_stats.total_alerts = self.alerting_system.alert_stats.total_alerts + 1;
        self.alerting_system.alert_stats.active_alerts = self.alerting_system.active_alerts.len() as u64;
        Ok(())
    }

    /// Shows the privacy level and health on the dashboard.
    fn update_production_dashboard(&mut self)
        requires
            old(self).well_formed(),
        ensures
            final(self).well_formed(),
            final(self).dashboard_data.dashboard_metrics == (ProductionDashboardMetrics {
                overall_privacy_score: old(self).metrics_collector.real_time_metrics.current_privacy_level as u64,
                privacy_level: old(self).metrics_collector.real_time_metrics.current_privacy_level,
                system_health_tenths: old(self).metrics_collector.real_time_metrics.system_health_score_tenths,
                ..old(self).dashboard_data.dashboard_metrics
            }),
            final(self).dashboard_data.dashboard_charts == old(self).dashboard_data.dashboard_charts,
            final(self).dashboard_data.dashboard_alerts == old(self).dashboard_data.dashboard_alerts,
            final(self).dashboard_data.dashboard_status == old(self).dashboard_data.dashboard_status,
            final(self).metrics_collector == old(self).metrics_collector,
            final(self).violation_detector == old(self).violation_detector,
            final(self).analytics_engine == old(self).analytics_engine,
            final(self).alerting_system == old(self).alerting_system,
            final(self).performance_monitoring == old(self).performance_monitoring,
    {
        let m = self.metrics_collector.real_time_metrics;
        self.dashboard_data.dashboard_metrics.overall_privacy_score = m.current_privacy_level as u64;
        self.dashboard_data.dashboard_metrics.privacy_level = m.current_privacy_level;
        self.dashboard_data.dashboard_metrics.system_health_tenths = m.system_health_score_tenths;
    }

    /// Counts the measurement and records the measured performance.
    fn update_production_performance_monitoring(&mut self)
        requires
            old(self).well_formed(),
            old(self).performance_monitoring.performance_stats.total_measurements < u64::MAX,
        ensures
            final(self).well_formed(),
            final(self).performance_monitoring.performance_stats.total_measurements == old(self).performance_monitoring.performance_stats.total_measurements + 1,
            final(self).metrics_collector == old(self).metrics_collector,
            final(self).violation_detector == old(self).violation_detector,
            final(self).analytics_engine == old(self).analytics_engine,
            final(self).alerting_system == old(self).alerting_system,
            final(self).dashboard_data == old(self).dashboard_data,
    {
        self.performance_monitoring.performance_stats.total_measurements = self.performance_monitoring.performance_stats.total_measurements
            + 1;
        self.performance_monitoring.performance_metrics = ProductionPerformanceMetrics {
            proof_generation_time_ms_tenths: 250,
            proof_verification_time_ms_tenths: 20,
            throughput_tps_tenths: 20000,
        };
    }
}

/// Appends a figure kept in tenths with one decimal, then `tail`.
fn push_tenths(s: &mut String, t: u64, tail: &str)
    ensures
        final(s)@ == old(s)@ + tenths_chars(t as nat) + tail@,
{
    push_decimal_then(s, t / 10, ".");
    push_decimal_then(s, t % 10, tail);
}

/// The production report summary.
fn generate_production_report_summary(metrics: &ProductionRealTimeMetrics, violations: usize) -> (res: String)
    ensures
        res@ == production_summary(*metrics, violations as nat),
{
    let mut summary = owned("=== PRODUCTION PRIVACY REPORT ===\n\n");
    summary.append("Privacy Level: ");
    push_decimal_then(&mut summary, metrics.current_privacy_level as u64, "%\n");
    summary.append("System Health: ");
    push_tenths(&mut summary, metrics.system_health_score_tenths, "%\n");
    summary.append("Active Violations: ");
    push_decimal_then(&mut summary, violations as u64, "\n");
    summary.append("Transactions/sec: ");
    push_tenths(&mut summary, metrics.transactions_per_second_tenths, "\n");
    summary.append("Proof Generation: ");
    push_tenths(&mut summary, metrics.performance_metrics.proof_generation_time_ms_tenths, "ms\n");
    summary.append("Proof Verification: ");
    push_tenths(&mut summary, metrics.performance_metrics.proof_verification_time_ms_tenths, "ms\n");
    summary.append("Throughput: ");
    push_tenths(&mut summary, metrics.performance_metrics.throughput_tps_tenths, " TPS\n");
    summary
}

/// A copy of a violation.
fn copy_production_violation(v: &ProductionPrivacyViolation) -> (res: ProductionPrivacyViolation)
    ensures
        same_production_violation(res, *v),
{
    let affected_transaction = match &v.affected_transaction {
        Some(h) => Some(h.clone()),
        None => None,
    };
    ProductionPrivacyViolation {
        violation_id: v.violation_id.clone(),
        violation_type: v.violation_type.clone(),
        description: v.description.clone(),
        severity: v.severity,
        detected_at: v.detected_at,
        affected_transaction,
        details: copy_pairs(&v.details),
    }
}

/// A copy of a list of violations.
fn copy_production_violations(v: &Vec<ProductionPrivacyViolation>) -> (res: Vec<ProductionPrivacyViolation>)
    ensures
        res@.len() == v@.len(),
        forall|i: int| 0 <= i < res@.len() ==> same_production_violation(#[trigger] res@[i], v@[i]),
{
    let mut res: Vec<ProductionPrivacyViolation> = Vec::new();
    let mut i: usize = 0;
    while i < v.len()
        invariant
            i <= v@.len(),
            res@.len() == i,
            forall|j: int| 0 <= j < i ==> same_production_violation(#[trigger] res@[j], v@[j]),
        decreases v@.len() - i,
    {
        res.push(copy_production_violation(&v[i]));
        i = i + 1;
    }
    res
}

/// A copy of an alert.
fn copy_production_alert(a: &ProductionPrivacyAlert) -> (res: ProductionPrivacyAlert)
    ensures
        same_production_alert(res, *a),
{
    ProductionPrivacyAlert {
        alert_id: a.alert_id.clone(),
        alert_type: a.alert_type.clone(),
        message: a.message.clone(),
        severity: a.severity,
        timestamp: a.timestamp,
        status: a.status,
    }
}

/// A copy of the trends.
fn copy_production_analytics(a: &ProductionAnalyticsData) -> (res: ProductionAnalyticsData)
    ensures
        same_production_analytics(res, *a),
{
    ProductionAnalyticsData {
        privacy_trends: copy_list(&a.privacy_trends),
        anonymity_trends: copy_list(&a.anonymity_trends),
        mixing_trends: copy_list(&a.mixing_trends),
        cross_chain_trends: copy_list(&a.cross_chain_trends),
        performance_trends: copy_list(&a.performance_trends),
        security_trends: copy_list(&a.security_trends),
    }
}

/// A copy of the dashboard data.
fn copy_production_dashboard(d: &ProductionDashboardData) -> (res: ProductionDashboardData)
    ensures
        same_production_dashboard(res, *d),
{
    let mut charts: Vec<ProductionDashboardChart> = Vec::new();
    let mut i: usize = 0;
    while i < d.dashboard_charts.len()
        invariant
            i <= d.dashboard_charts@.len(),
            charts@.len() == i,
            forall|j: int| 0 <= j < i ==> {
                &&& (#[trigger] charts@[j]).chart_id@ == d.dashboard_charts@[j].chart_id@
                &&& charts@[j].chart_name@ == d.dashboard_charts@[j].chart_name@
                &&& charts@[j].chart_type@ == d.dashboard_charts@[j].chart_type@
            },
        decreases d.dashboard_charts@.len() - i,
    {
        let c = &d.dashboard_charts[i];
        charts.push(
            ProductionDashboardChart {
                chart_id: c.chart_id.clone(),
                chart_name: c.chart_name.clone(),
                chart_type: c.chart_type.clone(),
            },
        );
        i = i + 1;
    }
    let mut alerts: Vec<ProductionPrivacyAlert> = Vec::new();
    let mut k: usize = 0;
    while k < d.dashboard_alerts.len()
        invariant
            k <= d.dashboard_alerts@.len(),
            alerts@.len() == k,
            forall|j: int| 0 <= j < k ==> same_production_alert(#[trigger] alerts@[j], d.dashboard_alerts@[j]),
        decreases d.dashboard_alerts@.len() - k,
    {
        alerts.push(copy_production_alert(&d.dashboard_alerts[k]));
        k = k + 1;
    }
    ProductionDashboardData {
        dashboard_metrics: d.dashboard_metrics,
        dashboard_charts: charts,
        dashboard_alerts: alerts,
        dashboard_status: ProductionDashboardStatus {
            system_status: d.dashboard_status.system_status.clone(),
            privacy_status: d.dashboard_status.privacy_status.clone(),
            performance_status: d.dashboard_status.performance_status.clone(),
            alert_status: d.dashboard_status.alert_status.clone(),
            security_status: d.dashboard_status.security_status.clone(),
        },
    }
}

/// The privacy-level violation pattern, keyed by its identifier.
fn create_production_violation_patterns() -> (res: Vec<(String, ProductionViolationPattern)>)
    ensures
        res@.len() == 1,
        res@[0].0@ == "privacy_level_violation"@,
{
    let rule = ProductionDetectionRule {
        rule_id: owned("privacy_level_rule"),
        rule_type: owned("threshold"),
        parameters: Vec::new(),
    };
    let mut patterns: Vec<(String, ProductionViolationPattern)> = Vec::new();
    patterns.push(
        (
            owned("privacy_level_violation"),
            ProductionViolationPattern {
                pattern_id: owned("privacy_level_violation"),
                pattern_name: owned("Privacy Level Violation"),
                description: owned("Transaction privacy level below threshold"),
                severity: ProductionViolationSeverity::High,
                detection_rules: vec![rule],
            },
        ),
    );
    patterns
}

/// The privacy trend model, keyed by its identifier.
fn create_production_analytics_models() -> (res: Vec<(String, ProductionAnalyticsModel)>)
    ensures
        res@.len() == 1,
        res@[0].0@ == "privacy_trend_model"@,
{
    let mut models: Vec<(String, ProductionAnalyticsModel)> = Vec::new();
    models.push(
        (
            owned("privacy_trend_model"),
            ProductionAnalyticsModel {
                model_id: owned("privacy_trend_model"),
                model_name: owned("Privacy Trend Model"),
                model_type: owned("time_series"),
            },
        ),
    );
    models
}

/// The privacy-level alert rule, keyed by its identifier.
fn create_production_alert_rules() -> (res: Vec<(String, ProductionAlertRule)>)
    ensures
        res@.len() == 1,
        res@[0].0@ == "privacy_level_alert"@,
{
    let mut rules: Vec<(String, ProductionAlertRule)> = Vec::new();
    rules.push(
        (
            owned("privacy_level_alert"),
            ProductionAlertRule {
                rule_id: owned("privacy_level_alert"),
                rule_name: owned("Privacy Level Alert"),
                condition: owned("privacy_level < 90"),
                severity: ProductionViolationSeverity::High,
                enabled: true,
            },
        ),
    );
    rules
}

/// The console alert channel, keyed by its identifier.
fn create_production_alert_channels() -> (res: Vec<(String, ProductionAlertChannel)>)
    ensures
        res@.len() == 1,
        res@[0].0@ == "console_alert"@,
{
    let mut channels: Vec<(String, ProductionAlertChannel)> = Vec::new();
    channels.push(
        (
            owned("console_alert"),
            ProductionAlertChannel {
                channel_id: owned("console_alert"),
                channel_name: owned("Console Alert"),
                channel_type: owned("console"),
                configuration: Vec::new(),
            },
        ),
    );
    channels
}

} // verus!
