//! Tracking of placeholder and simplified implementations: three registries
//! keyed by identifier (placeholders, simplified implementations, production
//! requirements), the open integration issues, and a summary report.
use vstd::prelude::*;
use vstd::string::*;
use crate::crypto::{hex_encode, hex_lower, lemma_hex_lower_shape, random_u64, sha256, sha256_spec, unix_time_secs};
use crate::error::PrivacyError;
use crate::registry::{keyed, keys_distinct, lemma_keyed_entries, lemma_keyed_push, lemma_keyed_update};
use crate::text::{decimal_chars, extend_bytes, le_bytes_u64, owned, push_decimal_then, str_equal, u64_le_bytes};

verus! {

/// A tracked placeholder.
#[derive(Debug, Clone)]
pub struct PlaceholderEntry {
    /// Entry identifier.
    pub entry_id: String,
    /// Component name.
    pub component_name: String,
    /// File path.
    pub file_path: String,
    /// Line number.
    pub line_number: u32,
    /// Placeholder type.
    pub placeholder_type: PlaceholderType,
    /// Description.
    pub description: String,
    /// Security impact.
    pub security_impact: SecurityImpact,
    /// Priority level.
    pub priority_level: PriorityLevel,
    /// Status.
    pub status: PlaceholderStatus,
    /// Creation time, seconds since the Unix epoch.
    pub created_at: u64,
    /// Last update time, seconds since the Unix epoch.
    pub updated_at: u64,
}

/// The kind of a placeholder.
#[derive(Debug, Clone)]
pub enum PlaceholderType {
    /// Cryptographic operation.
    CryptographicOperation,
    /// STARK proof.
    StarkProof,
    /// Performance optimization.
    PerformanceOptimization,
    /// Cross-chain integration.
    CrossChainIntegration,
    /// Monitoring.
    MonitoringPlaceholder,
    /// Analytics.
    AnalyticsPlaceholder,
    /// Something else.
    Other(String),
}

/// Security impact of a placeholder.
#[derive(Debug, Clone, Copy, PartialEq, Eq, Structural)]
pub enum SecurityImpact {
    /// No security impact.
    NoImpact,
    /// Low.
    Low,
    /// Medium.
    Medium,
    /// High.
    High,
    /// Critical.
    Critical,
}

/// Priority of a placeholder.
#[derive(Debug, Clone, Copy, PartialEq, Eq, Structural)]
pub enum PriorityLevel {
    /// Low.
    Low,
    /// Medium.
    Medium,
    /// High.
    High,
    /// Critical.
    Critical,
}

/// Status of a placeholder.
#[derive(Debug, Clone, Copy, PartialEq, Eq, Structural)]
pub enum PlaceholderStatus {
    /// Identified.
    Identified,
    /// Documented.
    Documented,
    /// Production implementation in progress.
    InProgress,
    /// Production implementation completed.
    Completed,
    /// Removed.
    Removed,
}

/// A simplified implementation awaiting a production one.
#[derive(Debug, Clone)]
pub struct SimplifiedImplementation {
    /// Implementation identifier.
    pub impl_id: String,
    /// Component name.
    pub component_name: String,
    /// File path.
    pub file_path: String,
    /// Kind of implementation.
    pub impl_type: SimplifiedImplementationType,
    /// Description.
    pub description: String,
    /// What is there now.
    pub current_implementation: String,
    /// What production needs.
    pub production_implementation_needed: String,
    /// Security implications.
    pub security_implications: String,
    /// Performance implications.
    pub performance_implications: String,
    /// Status.
    pub status: SimplifiedImplementationStatus,
    /// Creation time, seconds since the Unix epoch.
    pub created_at: u64,
    /// Last update time, seconds since the Unix epoch.
    pub updated_at: u64,
}

/// The kind of a simplified implementation.
#[derive(Debug, Clone)]
pub enum SimplifiedImplementationType {
    /// STARK proofs.
    StarkProofImplementation,
    /// Cryptography.
    CryptographicImplementation,
    /// Performance optimization.
    PerformanceOptimizationImplementation,
    /// Cross-chain.
    CrossChainImplementation,
    /// Monitoring.
    MonitoringImplementation,
    /// Analytics.
    AnalyticsImplementation,
    /// Something else.
    Other(String),
}

/// Status of a simplified implementation.
#[derive(Debug, Clone, Copy, PartialEq, Eq, Structural)]
pub enum SimplifiedImplementationStatus {
    /// Identified.
    Identified,
    /// Documented.
    Documented,
    /// Production implementation planned.
    Planned,
    /// Production implementation in progress.
    InProgress,
    /// Production implementation completed.
    Completed,
    /// Removed.
    Removed,
}

/// A requirement for production.
#[derive(Debug, Clone)]
pub struct ProductionRequirement {
    /// Requirement identifier.
    pub req_id: String,
    /// Component name.
    pub component_name: String,
    /// Kind of requirement.
    pub req_type: ProductionRequirementType,
    /// Description.
    pub description: String,
    /// What must be done.
    pub requirements: Vec<String>,
    /// What it depends on.
    pub dependencies: Vec<String>,
    /// Effort estimate.
    pub implementation_effort: ImplementationEffort,
    /// Security requirements.
    pub security_requirements: Vec<String>,
    /// Performance requirements.
    pub performance_requirements: Vec<String>,
    /// Status.
    pub status: ProductionRequirementStatus,
    /// Creation time, seconds since the Unix epoch.
    pub created_at: u64,
    /// Last update time, seconds since the Unix epoch.
    pub updated_at: u64,
}

/// The kind of a production requirement.
#[derive(Debug, Clone)]
pub enum ProductionRequirementType {
    /// Boojum integration.
    BoojumIntegration,
    /// Cryptographic library.
    CryptographicLibrary,
    /// Performance optimization.
    PerformanceOptimization,
    /// Cross-chain integration.
    CrossChainIntegration,
    /// Monitoring.
    MonitoringRequirement,
    /// Analytics.
    AnalyticsRequirement,
    /// Something else.
    Other(String),
}

/// Effort estimate.
#[derive(Debug, Clone, Copy, PartialEq, Eq, Structural)]
pub enum ImplementationEffort {
    /// One or two days.
    Low,
    /// Three to five days.
    Medium,
    /// One or two weeks.
    High,
    /// More than two weeks.
    VeryHigh,
}

/// Status of a production requirement.
#[derive(Debug, Clone, Copy, PartialEq, Eq, Structural)]
pub enum ProductionRequirementStatus {
    /// Identified.
    Identified,
    /// Documented.
    Documented,
    /// Implementation planned.
    Planned,
    /// Implementation in progress.
    InProgress,
    /// Implementation completed.
    Completed,
    /// Removed.
    Removed,
}

/// The integration timeline.
#[derive(Debug, Clone)]
pub struct IntegrationTimeline {
    /// First phase.
    pub phase_1_timeline: String,
    /// Second phase.
    pub phase_2_timeline: String,
    /// Third phase.
    pub phase_3_timeline: String,
    /// All phases.
    pub overall_timeline: String,
}

/// The open integration issues, by priority, and the timeline.
#[derive(Debug, Clone)]
pub struct IntegrationStatus {
    /// Critical issues.
    pub critical_issues: Vec<String>,
    /// High priority issues.
    pub high_priority_issues: Vec<String>,
    /// Medium priority issues.
    pub medium_priority_issues: Vec<String>,
    /// Low priority issues.
    pub low_priority_issues: Vec<String>,
    /// Integration timeline.
    pub integration_timeline: IntegrationTimeline,
}

/// A placeholder report.
#[derive(Debug, Clone)]
pub struct PlaceholderReport {
    /// Report identifier.
    pub report_id: String,
    /// Generation time, seconds since the Unix epoch.
    pub generated_at: u64,
    /// Tracked placeholders.
    pub placeholders: Vec<PlaceholderEntry>,
    /// Simplified implementations.
    pub simplified_implementations: Vec<SimplifiedImplementation>,
    /// Production requirements.
    pub production_requirements: Vec<ProductionRequirement>,
    /// Integration status.
    pub integration_status: IntegrationStatus,
    /// Summary text.
    pub summary: String,
}

/// The placeholder tracking system.
pub struct PlaceholderTrackingSystem {
    tracked_placeholders: Vec<PlaceholderEntry>,
    simplified_implementations: Vec<SimplifiedImplementation>,
    production_requirements: Vec<ProductionRequirement>,
    integration_status: IntegrationStatus,
}

/// The identifier of a placeholder entry.
pub open spec fn entry_key() -> spec_fn(PlaceholderEntry) -> Seq<char> {
    |e: PlaceholderEntry| e.entry_id@
}

/// The identifier of a simplified implementation.
pub open spec fn impl_key() -> spec_fn(SimplifiedImplementation) -> Seq<char> {
    |e: SimplifiedImplementation| e.impl_id@
}

/// The identifier of a production requirement.
pub open spec fn req_key() -> spec_fn(ProductionRequirement) -> Seq<char> {
    |e: ProductionRequirement| e.req_id@
}

/// The views of a list of strings.
pub open spec fn views(items: Seq<String>) -> Seq<Seq<char>> {
    items.map_values(|s: String| s@)
}

/// Two placeholder kinds are the same.
pub open spec fn same_placeholder_type(a: PlaceholderType, b: PlaceholderType) -> bool {
    match a {
        PlaceholderType::Other(x) => b matches PlaceholderType::Other(y) && x@ == y@,
        _ => a == b,
    }
}

/// Two placeholder entries hold the same values.
pub open spec fn same_entry(a: PlaceholderEntry, b: PlaceholderEntry) -> bool {
    &&& a.entry_id@ == b.entry_id@
    &&& a.component_name@ == b.component_name@
    &&& a.file_path@ == b.file_path@
    &&& a.line_number == b.line_number
    &&& same_placeholder_type(a.placeholder_type, b.placeholder_type)
    &&& a.description@ == b.description@
    &&& a.security_impact == b.security_impact
    &&& a.priority_level == b.priority_level
    &&& a.status == b.status
    &&& a.created_at == b.created_at
    &&& a.updated_at == b.updated_at
}

/// Two simplified-implementation kinds are the same.
pub open spec fn same_impl_type(a: SimplifiedImplementationType, b: SimplifiedImplementationType) -> bool {
    match a {
        SimplifiedImplementationType::Other(x) => b matches SimplifiedImplementationType::Other(y) && x@ == y@,
        _ => a == b,
    }
}

/// Two simplified implementations hold the same values.
pub open spec fn same_impl(a: SimplifiedImplementation, b: SimplifiedImplementation) -> bool {
    &&& a.impl_id@ == b.impl_id@
    &&& a.component_name@ == b.component_name@
    &&& a.file_path@ == b.file_path@
    &&& same_impl_type(a.impl_type, b.impl_type)
    &&& a.description@ == b.description@
    &&& a.current_implementation@ == b.current_implementation@
    &&& a.production_implementation_needed@ == b.production_implementation_needed@
    &&& a.security_implications@ == b.security_implications@
    &&& a.performance_implications@ == b.performance_implications@
    &&& a.status == b.status
    &&& a.created_at == b.created_at
    &&& a.updated_at == b.updated_at
}

/// Two requirement kinds are the same.
pub open spec fn same_req_type(a: ProductionRequirementType, b: ProductionRequirementType) -> bool {
    match a {
        ProductionRequirementType::Other(x) => b matches ProductionRequirementType::Other(y) && x@ == y@,
        _ => a == b,
    }
}

/// Two production requirements hold the same values.
pub open spec fn same_req(a: ProductionRequirement, b: ProductionRequirement) -> bool {
    &&& a.req_id@ == b.req_id@
    &&& a.component_name@ == b.component_name@
    &&& same_req_type(a.req_type, b.req_type)
    &&& a.description@ == b.description@
    &&& views(a.requirements@) == views(b.requirements@)
    &&& views(a.dependencies@) == views(b.dependencies@)
    &&& a.implementation_effort == b.implementation_effort
    &&& views(a.security_requirements@) == views(b.security_requirements@)
    &&& views(a.performance_requirements@) == views(b.performance_requirements@)
    &&& a.status == b.status
    &&& a.created_at == b.created_at
    &&& a.updated_at == b.updated_at
}

/// Two timelines hold the same values.
pub open spec fn same_timeline(a: IntegrationTimeline, b: IntegrationTimeline) -> bool {
    &&& a.phase_1_timeline@ == b.phase_1_timeline@
    &&& a.phase_2_timeline@ == b.phase_2_timeline@
    &&& a.phase_3_timeline@ == b.phase_3_timeline@
    &&& a.overall_timeline@ == b.overall_timeline@
}

/// Two integration statuses hold the same values.
pub open spec fn same_status(a: IntegrationStatus, b: IntegrationStatus) -> bool {
    &&& views(a.critical_issues@) == views(b.critical_issues@)
    &&& views(a.high_priority_issues@) == views(b.high_priority_issues@)
    &&& views(a.medium_priority_issues@) == views(b.medium_priority_issues@)
    &&& views(a.low_priority_issues@) == views(b.low_priority_issues@)
    &&& same_timeline(a.integration_timeline, b.integration_timeline)
}

/// `list` lists the records of `map` once each, with the same values.
pub open spec fn lists_entries(list: Seq<PlaceholderEntry>, map: Map<Seq<char>, PlaceholderEntry>) -> bool {
    &&& keys_distinct(list, entry_key())
    &&& forall|k: Seq<char>| map.dom().contains(k) <==> exists|i: int| 0 <= i < list.len() && list[i].entry_id@ == k
    &&& forall|i: int| 0 <= i < list.len() ==> same_entry(#[trigger] list[i], map[list[i].entry_id@])
}

/// `list` lists the records of `map` once each, with the same values.
pub open spec fn lists_impls(list: Seq<SimplifiedImplementation>, map: Map<Seq<char>, SimplifiedImplementation>) -> bool {
    &&& keys_distinct(list, impl_key())
    &&& forall|k: Seq<char>| map.dom().contains(k) <==> exists|i: int| 0 <= i < list.len() && list[i].impl_id@ == k
    &&& forall|i: int| 0 <= i < list.len() ==> same_impl(#[trigger] list[i], map[list[i].impl_id@])
}

/// `list` lists the records of `map` once each, with the same values.
pub open spec fn lists_reqs(list: Seq<ProductionRequirement>, map: Map<Seq<char>, ProductionRequirement>) -> bool {
    &&& keys_distinct(list, req_key())
    &&& forall|k: Seq<char>| map.dom().contains(k) <==> exists|i: int| 0 <= i < list.len() && list[i].req_id@ == k
    &&& forall|i: int| 0 <= i < list.len() ==> same_req(#[trigger] list[i], map[list[i].req_id@])
}

/// The number of placeholders with a given priority.
pub open spec fn count_priority(ps: Seq<PlaceholderEntry>, p: PriorityLevel) -> nat
    decreases ps.len(),
{
    if ps.len() == 0 {
        0
    } else {
        count_priority(ps.drop_last(), p) + if ps.last().priority_level == p {
            1nat
        } else {
            0nat
        }
    }
}

/// The number of placeholders with a given security impact.
pub open spec fn count_impact(ps: Seq<PlaceholderEntry>, s: SecurityImpact) -> nat
    decreases ps.len(),
{
    if ps.len() == 0 {
        0
    } else {
        count_impact(ps.drop_last(), s) + if ps.last().security_impact == s {
            1nat
        } else {
            0nat
        }
    }
}

/// A summary line: a label, a count and a line break.
pub open spec fn count_line(label: Seq<char>, n: nat) -> Seq<char> {
    label + decimal_chars(n) + "\n"@
}

/// The report summary: totals, then placeholders by priority and by
/// security impact.
pub open spec fn summary_spec(ps: Seq<PlaceholderEntry>, n_impls: nat, n_reqs: nat) -> Seq<char> {
    "=== PLACEHOLDER TRACKING REPORT ===\n\n"@ + count_line("Total Placeholders: "@, ps.len()) + count_line(
        "Total Simplified Implementations: "@,
        n_impls,
    ) + count_line("Total Production Requirements: "@, n_reqs) + "\nPriority Distribution:\n"@ + count_line(
        "  Critical: "@,
        count_priority(ps, PriorityLevel::Critical),
    ) + count_line("  High: "@, count_priority(ps, PriorityLevel::High)) + count_line(
        "  Medium: "@,
        count_priority(ps, PriorityLevel::Medium),
    ) + count_line("  Low: "@, count_priority(ps, PriorityLevel::Low)) + "\nSecurity Impact Distribution:\n"@
        + count_line("  Critical: "@, count_impact(ps, SecurityImpact::Critical)) + count_line(
        "  High: "@,
        count_impact(ps, SecurityImpact::High),
    ) + count_line("  Medium: "@, count_impact(ps, SecurityImpact::Medium))
}

/// A placeholder entry with a new status, updated at `t`.
pub open spec fn entry_with_status(e: PlaceholderEntry, status: PlaceholderStatus, t: u64) -> PlaceholderEntry {
    PlaceholderEntry { status: status, updated_at: t, ..e }
}

/// A simplified implementation with a new status, updated at `t`.
pub open spec fn impl_with_status(
    e: SimplifiedImplementation,
    status: SimplifiedImplementationStatus,
    t: u64,
) -> SimplifiedImplementation {
    SimplifiedImplementation { status: status, updated_at: t, ..e }
}

/// A production requirement with a new status, updated at `t`.
pub open spec fn req_with_status(e: ProductionRequirement, status: ProductionRequirementStatus, t: u64) -> ProductionRequirement {
    ProductionRequirement { status: status, updated_at: t, ..e }
}

/// A report identifier: hex SHA-256 of a time and a random number.
pub open spec fn report_id_spec(t: u64, r: u64) -> Seq<char> {
    hex_lower(sha256_spec(le_bytes_u64(t) + le_bytes_u64(r)))
}

/// A copy of a list of strings.
fn clone_strings(v: &Vec<String>) -> (res: Vec<String>)
    ensures
        views(res@) == views(v@),
{
    let res = v.clone();
    assert(res@ =~= v@);
    res
}

/// A copy of a placeholder kind.
fn clone_placeholder_type(t: &PlaceholderType) -> (res: PlaceholderType)
    ensures
        same_placeholder_type(res, *t),
{
    match t {
        PlaceholderType::CryptographicOperation => PlaceholderType::CryptographicOperation,
        PlaceholderType::StarkProof => PlaceholderType::StarkProof,
        PlaceholderType::PerformanceOptimization => PlaceholderType::PerformanceOptimization,
        PlaceholderType::CrossChainIntegration => PlaceholderType::CrossChainIntegration,
        PlaceholderType::MonitoringPlaceholder => PlaceholderType::MonitoringPlaceholder,
        PlaceholderType::AnalyticsPlaceholder => PlaceholderType::AnalyticsPlaceholder,
        PlaceholderType::Other(x) => PlaceholderType::Other(x.clone()),
    }
}

/// A copy of a placeholder entry.
fn clone_entry(e: &PlaceholderEntry) -> (res: PlaceholderEntry)
    ensures
        same_entry(res, *e),
{
    PlaceholderEntry {
        entry_id: e.entry_id.clone(),
        component_name: e.component_name.clone(),
        file_path: e.file_path.clone(),
        line_number: e.line_number,
        placeholder_type: clone_placeholder_type(&e.placeholder_type),
        description: e.description.clone(),
        security_impact: e.security_impact,
        priority_level: e.priority_level,
        status: e.status,
        created_at: e.created_at,
        updated_at: e.updated_at,
    }
}

/// A copy of a simplified-implementation kind.
fn clone_impl_type(t: &SimplifiedImplementationType) -> (res: SimplifiedImplementationType)
    ensures
        same_impl_type(res, *t),
{
    match t {
        SimplifiedImplementationType::StarkProofImplementation => SimplifiedImplementationType::StarkProofImplementation,
        SimplifiedImplementationType::CryptographicImplementation => SimplifiedImplementationType::CryptographicImplementation,
        SimplifiedImplementationType::PerformanceOptimizationImplementation => SimplifiedImplementationType::PerformanceOptimizationImplementation,
        SimplifiedImplementationType::CrossChainImplementation => SimplifiedImplementationType::CrossChainImplementation,
        SimplifiedImplementationType::MonitoringImplementation => SimplifiedImplementationType::MonitoringImplementation,
        SimplifiedImplementationType::AnalyticsImplementation => SimplifiedImplementationType::AnalyticsImplementation,
        SimplifiedImplementationType::Other(x) => SimplifiedImplementationType::Other(x.clone()),
    }
}

/// A copy of a simplified implementation.
fn clone_impl(e: &SimplifiedImplementation) -> (res: SimplifiedImplementation)
    ensures
        same_impl(res, *e),
{
    SimplifiedImplementation {
        impl_id: e.impl_id.clone(),
        component_name: e.component_name.clone(),
        file_path: e.file_path.clone(),
        impl_type: clone_impl_type(&e.impl_type),
        description: e.description.clone(),
        current_implementation: e.current_implementation.clone(),
        production_implementation_needed: e.production_implementation_needed.clone(),
        security_implications: e.security_implications.clone(),
        performance_implications: e.performance_implications.clone(),
        status: e.status,
        created_at: e.created_at,
        updated_at: e.updated_at,
    }
}

/// A copy of a requirement kind.
fn clone_req_type(t: &ProductionRequirementType) -> (res: ProductionRequirementType)
    ensures
        same_req_type(res, *t),
{
    match t {
        ProductionRequirementType::BoojumIntegration => ProductionRequirementType::BoojumIntegration,
        ProductionRequirementType::CryptographicLibrary => ProductionRequirementType::CryptographicLibrary,
        ProductionRequirementType::PerformanceOptimization => ProductionRequirementType::PerformanceOptimization,
        ProductionRequirementType::CrossChainIntegration => ProductionRequirementType::CrossChainIntegration,
        ProductionRequirementType::MonitoringRequirement => ProductionRequirementType::MonitoringRequirement,
        ProductionRequirementType::AnalyticsRequirement => ProductionRequirementType::AnalyticsRequirement,
        ProductionRequirementType::Other(x) => ProductionRequirementType::Other(x.clone()),
    }
}

/// A copy of a production requirement.
fn clone_req(e: &ProductionRequirement) -> (res: ProductionRequirement)
    ensures
        same_req(res, *e),
{
    ProductionRequirement {
        req_id: e.req_id.clone(),
        component_name: e.component_name.clone(),
        req_type: clone_req_type(&e.req_type),
        description: e.description.clone(),
        requirements: clone_strings(&e.requirements),
        dependencies: clone_strings(&e.dependencies),
        implementation_effort: e.implementation_effort,
        security_requirements: clone_strings(&e.security_requirements),
        performance_requirements: clone_strings(&e.performance_requirements),
        status: e.status,
        created_at: e.created_at,
        updated_at: e.updated_at,
    }
}

/// A copy of an integration status.
fn clone_status(s: &IntegrationStatus) -> (res: IntegrationStatus)
    ensures
        same_status(res, *s),
{
    IntegrationStatus {
        critical_issues: clone_strings(&s.critical_issues),
        high_priority_issues: clone_strings(&s.high_priority_issues),
        medium_priority_issues: clone_strings(&s.medium_priority_issues),
        low_priority_issues: clone_strings(&s.low_priority_issues),
        integration_timeline: IntegrationTimeline {
            phase_1_timeline: s.integration_timeline.phase_1_timeline.clone(),
            phase_2_timeline: s.integration_timeline.phase_2_timeline.clone(),
            phase_3_timeline: s.integration_timeline.phase_3_timeline.clone(),
            overall_timeline: s.integration_timeline.overall_timeline.clone(),
        },
    }
}

/// The position of the record with identifier `id`, if any.
fn find_entry(items: &Vec<PlaceholderEntry>, id: &str) -> (res: Option<usize>)
    ensures
        match res {
            Some(i) => i < items@.len() && items@[i as int].entry_id@ == id@,
            None => forall|j: int| 0 <= j < items@.len() ==> #[trigger] items@[j].entry_id@ != id@,
        },
{
    let mut i: usize = 0;
    while i < items.len()
        invariant
            i <= items@.len(),
            forall|j: int| 0 <= j < i ==> #[trigger] items@[j].entry_id@ != id@,
        decreases items@.len() - i,
    {
        if str_equal(items[i].entry_id.as_str(), id) {
            return Some(i);
        }
        i = i + 1;
    }
    None
}

/// The position of the record with identifier `id`, if any.
fn find_impl(items: &Vec<SimplifiedImplementation>, id: &str) -> (res: Option<usize>)
    ensures
        match res {
            Some(i) => i < items@.len() && items@[i as int].impl_id@ == id@,
            None => forall|j: int| 0 <= j < items@.len() ==> #[trigger] items@[j].impl_id@ != id@,
        },
{
    let mut i: usize = 0;
    while i < items.len()
        invariant
            i <= items@.len(),
            forall|j: int| 0 <= j < i ==> #[trigger] items@[j].impl_id@ != id@,
        decreases items@.len() - i,
    {
        if str_equal(items[i].impl_id.as_str(), id) {
            return Some(i);
        }
        i = i + 1;
    }
    None
}

/// The position of the record with identifier `id`, if any.
fn find_req(items: &Vec<ProductionRequirement>, id: &str) -> (res: Option<usize>)
    ensures
        match res {
            Some(i) => i < items@.len() && items@[i as int].req_id@ == id@,
            None => forall|j: int| 0 <= j < items@.len() ==> #[trigger] items@[j].req_id@ != id@,
        },
{
    let mut i: usize = 0;
    while i < items.len()
        invariant
            i <= items@.len(),
            forall|j: int| 0 <= j < i ==> #[trigger] items@[j].req_id@ != id@,
        decreases items@.len() - i,
    {
        if str_equal(items[i].req_id.as_str(), id) {
            return Some(i);
        }
        i = i + 1;
    }
    None
}

/// Stores a record under its identifier, replacing one with the same
/// identifier.
fn put_entry(items: &mut Vec<PlaceholderEntry>, e: PlaceholderEntry)
    requires
        keys_distinct(old(items)@, entry_key()),
    ensures
        keys_distinct(final(items)@, entry_key()),
        keyed(final(items)@, entry_key()) == keyed(old(items)@, entry_key()).insert(e.entry_id@, e),
{
    let ghost k = e.entry_id@;
    match find_entry(items, e.entry_id.as_str()) {
        Some(i) => {
            proof {
                lemma_keyed_update(items@, entry_key(), i as int, e);
            }
            items.set(i, e);
        },
        None => {
            proof {
                lemma_keyed_push(items@, entry_key(), e);
            }
            items.push(e);
        },
    }
}

/// Stores a record under its identifier, replacing one with the same
/// identifier.
fn put_impl(items: &mut Vec<SimplifiedImplementation>, e: SimplifiedImplementation)
    requires
        keys_distinct(old(items)@, impl_key()),
    ensures
        keys_distinct(final(items)@, impl_key()),
        keyed(final(items)@, impl_key()) == keyed(old(items)@, impl_key()).insert(e.impl_id@, e),
{
    match find_impl(items, e.impl_id.as_str()) {
        Some(i) => {
            proof {
                lemma_keyed_update(items@, impl_key(), i as int, e);
            }
            items.set(i, e);
        },
        None => {
            proof {
                lemma_keyed_push(items@, impl_key(), e);
            }
            items.push(e);
        },
    }
}

/// Stores a record under its identifier, replacing one with the same
/// identifier.
fn put_req(items: &mut Vec<ProductionRequirement>, e: ProductionRequirement)
    requires
        keys_distinct(old(items)@, req_key()),
    ensures
        keys_distinct(final(items)@, req_key()),
        keyed(final(items)@, req_key()) == keyed(old(items)@, req_key()).insert(e.req_id@, e),
{
    match find_req(items, e.req_id.as_str()) {
        Some(i) => {
            proof {
                lemma_keyed_update(items@, req_key(), i as int, e);
            }
            items.set(i, e);
        },
        None => {
            proof {
                lemma_keyed_push(items@, req_key(), e);
            }
            items.push(e);
        },
    }
}

/// A copy of the records, in order.
fn list_entries(items: &Vec<PlaceholderEntry>) -> (res: Vec<PlaceholderEntry>)
    requires
        keys_distinct(items@, entry_key()),
    ensures
        lists_entries(res@, keyed(items@, entry_key())),
        res@.len() == items@.len(),
{
    let mut res: Vec<PlaceholderEntry> = Vec::new();
    let mut i: usize = 0;
    while i < items.len()
        invariant
            i <= items@.len(),
            res@.len() == i,
            forall|j: int| 0 <= j < i ==> same_entry(#[trigger] res@[j], items@[j]),
        decreases items@.len() - i,
    {
        res.push(clone_entry(&items[i]));
        i = i + 1;
    }
    proof {
        lemma_keyed_entries(items@, entry_key());
        let m = keyed(items@, entry_key());
        assert forall|k: Seq<char>| m.dom().contains(k) <==> exists|j: int|
            0 <= j < res@.len() && res@[j].entry_id@ == k by {
            if m.dom().contains(k) {
                let j = choose|j: int| 0 <= j < items@.len() && entry_key()(items@[j]) == k;
                assert(same_entry(res@[j], items@[j]));
            }
            if exists|j: int| 0 <= j < res@.len() && res@[j].entry_id@ == k {
                let j = choose|j: int| 0 <= j < res@.len() && res@[j].entry_id@ == k;
                assert(same_entry(res@[j], items@[j]));
                assert(entry_key()(items@[j]) == k);
            }
        }
        assert forall|j: int| 0 <= j < res@.len() implies same_entry(#[trigger] res@[j], m[res@[j].entry_id@]) by {
            assert(same_entry(res@[j], items@[j]));
            assert(m[entry_key()(items@[j])] == items@[j]);
        }
        assert forall|a: int, b: int| 0 <= a < res@.len() && 0 <= b < res@.len() && a != b implies entry_key()(
            res@[a],
        ) != entry_key()(res@[b]) by {
            assert(same_entry(res@[a], items@[a]));
            assert(same_entry(res@[b], items@[b]));
        }
    }
    res
}

/// A copy of the records, in order.
fn list_impls(items: &Vec<SimplifiedImplementation>) -> (res: Vec<SimplifiedImplementation>)
    requires
        keys_distinct(items@, impl_key()),
    ensures
        lists_impls(res@, keyed(items@, impl_key())),
        res@.len() == items@.len(),
{
    let mut res: Vec<SimplifiedImplementation> = Vec::new();
    let mut i: usize = 0;
    while i < items.len()
        invariant
            i <= items@.len(),
            res@.len() == i,
            forall|j: int| 0 <= j < i ==> same_impl(#[trigger] res@[j], items@[j]),
        decreases items@.len() - i,
    {
        res.push(clone_impl(&items[i]));
        i = i + 1;
    }
    proof {
        lemma_keyed_entries(items@, impl_key());
        let m = keyed(items@, impl_key());
        assert forall|k: Seq<char>| m.dom().contains(k) <==> exists|j: int|
            0 <= j < res@.len() && res@[j].impl_id@ == k by {
            if m.dom().contains(k) {
                let j = choose|j: int| 0 <= j < items@.len() && impl_key()(items@[j]) == k;
                assert(same_impl(res@[j], items@[j]));
            }
            if exists|j: int| 0 <= j < res@.len() && res@[j].impl_id@ == k {
                let j = choose|j: int| 0 <= j < res@.len() && res@[j].impl_id@ == k;
                assert(same_impl(res@[j], items@[j]));
                assert(impl_key()(items@[j]) == k);
            }
        }
        assert forall|j: int| 0 <= j < res@.len() implies same_impl(#[trigger] res@[j], m[res@[j].impl_id@]) by {
            assert(same_impl(res@[j], items@[j]));
            assert(m[impl_key()(items@[j])] == items@[j]);
        }
        assert forall|a: int, b: int| 0 <= a < res@.len() && 0 <= b < res@.len() && a != b implies impl_key()(
            res@[a],
        ) != impl_key()(res@[b]) by {
            assert(same_impl(res@[a], items@[a]));
            assert(same_impl(res@[b], items@[b]));
        }
    }
    res
}

/// A copy of the records, in order.
fn list_reqs(items: &Vec<ProductionRequirement>) -> (res: Vec<ProductionRequirement>)
    requires
        keys_distinct(items@, req_key()),
    ensures
        lists_reqs(res@, keyed(items@, req_key())),
        res@.len() == items@.len(),
{
    let mut res: Vec<ProductionRequirement> = Vec::new();
    let mut i: usize = 0;
    while i < items.len()
        invariant
            i <= items@.len(),
            res@.len() == i,
            forall|j: int| 0 <= j < i ==> same_req(#[trigger] res@[j], items@[j]),
        decreases items@.len() - i,
    {
        res.push(clone_req(&items[i]));
        i = i + 1;
    }
    proof {
        lemma_keyed_entries(items@, req_key());
        let m = keyed(items@, req_key());
        assert forall|k: Seq<char>| m.dom().contains(k) <==> exists|j: int|
            0 <= j < res@.len() && res@[j].req_id@ == k by {
            if m.dom().contains(k) {
                let j = choose|j: int| 0 <= j < items@.len() && req_key()(items@[j]) == k;
                assert(same_req(res@[j], items@[j]));
            }
            if exists|j: int| 0 <= j < res@.len() && res@[j].req_id@ == k {
                let j = choose|j: int| 0 <= j < res@.len() && res@[j].req_id@ == k;
                assert(same_req(res@[j], items@[j]));
                assert(req_key()(items@[j]) == k);
            }
        }
        assert forall|j: int| 0 <= j < res@.len() implies same_req(#[trigger] res@[j], m[res@[j].req_id@]) by {
            assert(same_req(res@[j], items@[j]));
            assert(m[req_key()(items@[j])] == items@[j]);
        }
        assert forall|a: int, b: int| 0 <= a < res@.len() && 0 <= b < res@.len() && a != b implies req_key()(
            res@[a],
        ) != req_key()(res@[b]) by {
            assert(same_req(res@[a], items@[a]));
            assert(same_req(res@[b], items@[b]));
        }
    }
    res
}

/// The current time, or 0 where the clock stands before the epoch.
fn now_or_zero() -> u64 {
    match unix_time_secs() {
        Some(t) => t,
        None => 0,
    }
}

/// A placeholder entry in status `Identified`, created and updated at `t`.
fn placeholder(
    id: &str,
    component: &str,
    path: &str,
    line: u32,
    placeholder_type: PlaceholderType,
    description: &str,
    impact: SecurityImpact,
    priority: PriorityLevel,
    t: u64,
) -> (res: PlaceholderEntry)
    ensures
        res.entry_id@ == id@,
        res.component_name@ == component@,
        res.file_path@ == path@,
        res.line_number == line,
        res.placeholder_type == placeholder_type,
        res.description@ == description@,
        res.security_impact == impact,
        res.priority_level == priority,
        res.status == PlaceholderStatus::Identified,
        res.created_at == t,
        res.updated_at == t,
{
    PlaceholderEntry {
        entry_id: owned(id),
        component_name: owned(component),
        file_path: owned(path),
        line_number: line,
        placeholder_type,
        description: owned(description),
        security_impact: impact,
        priority_level: priority,
        status: PlaceholderStatus::Identified,
        created_at: t,
        updated_at: t,
    }
}

/// A simplified implementation in status `Identified`, created and updated
/// at `t`.
fn simplified(
    id: &str,
    component: &str,
    path: &str,
    impl_type: SimplifiedImplementationType,
    texts: [&str; 5],
    t: u64,
) -> (res: SimplifiedImplementation)
    ensures
        res.impl_id@ == id@,
        res.component_name@ == component@,
        res.file_path@ == path@,
        res.impl_type == impl_type,
        res.description@ == texts[0]@,
        res.current_implementation@ == texts[1]@,
        res.production_implementation_needed@ == texts[2]@,
        res.security_implications@ == texts[3]@,
        res.performance_implications@ == texts[4]@,
        res.status == SimplifiedImplementationStatus::Identified,
        res.created_at == t,
        res.updated_at == t,
{
    SimplifiedImplementation {
        impl_id: owned(id),
        component_name: owned(component),
        file_path: owned(path),
        impl_type,
        description: owned(texts[0]),
        current_implementation: owned(texts[1]),
        production_implementation_needed: owned(texts[2]),
        security_implications: owned(texts[3]),
        performance_implications: owned(texts[4]),
        status: SimplifiedImplementationStatus::Identified,
        created_at: t,
        updated_at: t,
    }
}

/// Strings from literals.
fn strings(items: &[&str]) -> (res: Vec<String>)
    ensures
        res@.len() == items@.len(),
        forall|i: int| 0 <= i < items@.len() ==> (#[trigger] res@[i])@ == items@[i]@,
{
    let mut res: Vec<String> = Vec::new();
    let mut i: usize = 0;
    while i < items.len()
        invariant
            i <= items@.len(),
            res@.len() == i,
            forall|j: int| 0 <= j < i ==> (#[trigger] res@[j])@ == items@[j]@,
        decreases items@.len() - i,
    {
        res.push(owned(items[i]));
        i = i + 1;
    }
    res
}

/// Tracks the known placeholders: a Boojum proof, a cryptographic
/// operation and a performance optimisation, identified at `t`.
fn initialize_known_placeholders(tracked_placeholders: &mut Vec<PlaceholderEntry>, t: u64)
    requires
        old(tracked_placeholders)@.len() == 0,
    ensures
        keys_distinct(final(tracked_placeholders)@, entry_key()),
        keyed(final(tracked_placeholders)@, entry_key()).dom() == set![
            "boojum_stark_proof_1"@,
            "crypto_op_1"@,
            "perf_opt_1"@,
        ],
        keyed(final(tracked_placeholders)@, entry_key())["boojum_stark_proof_1"@].component_name@
            == "BoojumStarkProofSystem"@,
        keyed(final(tracked_placeholders)@, entry_key())["boojum_stark_proof_1"@].priority_level
            == PriorityLevel::Critical,
        keyed(final(tracked_placeholders)@, entry_key())["crypto_op_1"@].component_name@ == "AddressEncryption"@,
        keyed(final(tracked_placeholders)@, entry_key())["crypto_op_1"@].priority_level == PriorityLevel::High,
        keyed(final(tracked_placeholders)@, entry_key())["perf_opt_1"@].component_name@ == "OptimizedPrivacySystem"@,
        keyed(final(tracked_placeholders)@, entry_key())["perf_opt_1"@].priority_level == PriorityLevel::Medium,
        forall|k: Seq<char>|
            #[trigger] keyed(final(tracked_placeholders)@, entry_key()).dom().contains(k) ==> keyed(
                final(tracked_placeholders)@,
                entry_key(),
            )[k].status == PlaceholderStatus::Identified,
{
    proof {
        reveal_strlit("boojum_stark_proof_1");
        reveal_strlit("crypto_op_1");
        reveal_strlit("perf_opt_1");
        assert("boojum_stark_proof_1"@.len() != "crypto_op_1"@.len());
        assert("boojum_stark_proof_1"@.len() != "perf_opt_1"@.len());
    }
        put_entry(tracked_placeholders, placeholder(
            "boojum_stark_proof_1",
            "BoojumStarkProofSystem",
            "src/privacy/boojum_stark_proofs.rs",
            150,
            PlaceholderType::StarkProof,
            "Boojum proof generation placeholder - replace with actual Boojum prover",
            SecurityImpact::Medium,
            PriorityLevel::Critical,
            t,
        ));
        put_entry(tracked_placeholders, placeholder(
            "crypto_op_1",
            "AddressEncryption",
            "src/privacy/address_encryption.rs",
            120,
            PlaceholderType::CryptographicOperation,
            "Simplified ChaCha20Poly1305 encryption - replace with production implementation",
            SecurityImpact::Medium,
            PriorityLevel::High,
            t,
        ));
        put_entry(tracked_placeholders, placeholder(
            "perf_opt_1",
            "OptimizedPrivacySystem",
            "src/privacy/performance_optimization.rs",
            200,
            PlaceholderType::PerformanceOptimization,
            "Simulated proof generation - replace with actual optimized operations",
            SecurityImpact::Low,
            PriorityLevel::Medium,
            t,
        ));
}

/// Tracks the known simplified implementations: STARK proofs and
/// cryptography, identified at `t`.
fn initialize_known_simplified_implementations(simplified_implementations: &mut Vec<SimplifiedImplementation>, t: u64)
    requires
        old(simplified_implementations)@.len() == 0,
    ensures
        keys_distinct(final(simplified_implementations)@, impl_key()),
        keyed(final(simplified_implementations)@, impl_key()).dom() == set![
            "stark_proof_simplified"@,
            "crypto_simplified"@,
        ],
        keyed(final(simplified_implementations)@, impl_key())["stark_proof_simplified"@].component_name@
            == "ProductionStarkProofSystem"@,
        keyed(final(simplified_implementations)@, impl_key())["crypto_simplified"@].component_name@
            == "AddressEncryption"@,
{
    proof {
        reveal_strlit("stark_proof_simplified");
        reveal_strlit("crypto_simplified");
        assert("stark_proof_simplified"@.len() != "crypto_simplified"@.len());
    }
        put_impl(simplified_implementations, simplified(
            "stark_proof_simplified",
            "ProductionStarkProofSystem",
            "src/privacy/production_stark_proofs.rs",
            SimplifiedImplementationType::StarkProofImplementation,
            [
                "Simplified STARK proof implementation using winter-crypto",
                "Uses winter-crypto library with simplified proof generation",
                "Integrate Boojum STARK prover for production-grade proofs",
                "Medium - simplified implementation may not provide production-grade security",
                "Medium - simplified implementation may not be optimized for production",
            ],
            t,
        ));
        put_impl(simplified_implementations, simplified(
            "crypto_simplified",
            "AddressEncryption",
            "src/privacy/address_encryption.rs",
            SimplifiedImplementationType::CryptographicImplementation,
            [
                "Simplified ChaCha20Poly1305 implementation",
                "Uses simplified XOR-based encryption for demonstration",
                "Integrate production ChaCha20Poly1305 library",
                "Medium - simplified encryption may not provide production-grade security",
                "Low - simplified implementation is fast but not secure",
            ],
            t,
        ));
}

/// The Boojum integration requirement as tracked from the start.
pub open spec fn boojum_requirement_ok(r: ProductionRequirement) -> bool {
    &&& r.component_name@ == "BoojumStarkProofSystem"@
    &&& r.req_type == ProductionRequirementType::BoojumIntegration
    &&& r.description@ == "Integrate Boojum STARK prover for production-grade proofs"@
    &&& views(r.requirements@) == seq![
        "Integrate Boojum library"@,
        "Implement production STARK proof generation"@,
        "Implement production STARK proof verification"@,
        "Optimize proof generation performance"@,
    ]
    &&& views(r.dependencies@) == seq![
        "Boojum library"@,
        "Production constraint systems"@,
        "Optimized field operations"@,
    ]
    &&& r.implementation_effort == ImplementationEffort::High
    &&& views(r.security_requirements@) == seq![
        "128-bit security level"@,
        "Production-grade randomness"@,
        "Secure proof generation"@,
    ]
    &&& views(r.performance_requirements@) == seq![
        "Sub-100ms proof generation"@,
        "Sub-10ms proof verification"@,
        "Memory optimization"@,
    ]
    &&& r.status == ProductionRequirementStatus::Identified
    &&& r.created_at == r.updated_at
}

/// The cryptographic library requirement as tracked from the start.
pub open spec fn crypto_requirement_ok(r: ProductionRequirement) -> bool {
    &&& r.component_name@ == "AddressEncryption"@
    &&& r.req_type == ProductionRequirementType::CryptographicLibrary
    &&& r.description@ == "Integrate production ChaCha20Poly1305 library"@
    &&& views(r.requirements@) == seq![
        "Integrate production ChaCha20Poly1305"@,
        "Implement proper nonce generation"@,
        "Implement proper key management"@,
    ]
    &&& views(r.dependencies@) == seq!["ChaCha20Poly1305 library"@, "Secure random number generation"@]
    &&& r.implementation_effort == ImplementationEffort::Medium
    &&& views(r.security_requirements@) == seq![
        "256-bit encryption keys"@,
        "96-bit nonces"@,
        "128-bit authentication tags"@,
    ]
    &&& views(r.performance_requirements@) == seq!["Fast encryption/decryption"@, "Low memory usage"@]
    &&& r.status == ProductionRequirementStatus::Identified
    &&& r.created_at == r.updated_at
}

/// Tracks the known production requirements: Boojum integration and a
/// cryptographic library, identified at `t`.
fn initialize_known_production_requirements(production_requirements: &mut Vec<ProductionRequirement>, t: u64)
    requires
        old(production_requirements)@.len() == 0,
    ensures
        keys_distinct(final(production_requirements)@, req_key()),
        keyed(final(production_requirements)@, req_key()).dom() == set!["boojum_integration"@, "crypto_library"@],
        boojum_requirement_ok(keyed(final(production_requirements)@, req_key())["boojum_integration"@]),
        crypto_requirement_ok(keyed(final(production_requirements)@, req_key())["crypto_library"@]),
        keyed(final(production_requirements)@, req_key())["boojum_integration"@].created_at == t,
        keyed(final(production_requirements)@, req_key())["crypto_library"@].created_at == t,
{
    proof {
        reveal_strlit("boojum_integration");
        reveal_strlit("crypto_library");
        assert("boojum_integration"@.len() != "crypto_library"@.len());
    }
    let boojum = ProductionRequirement {
        req_id: owned("boojum_integration"),
        component_name: owned("BoojumStarkProofSystem"),
        req_type: ProductionRequirementType::BoojumIntegration,
        description: owned("Integrate Boojum STARK prover for production-grade proofs"),
        requirements: strings(&[
            "Integrate Boojum library",
            "Implement production STARK proof generation",
            "Implement production STARK proof verification",
            "Optimize proof generation performance",
        ]),
        dependencies: strings(&[
            "Boojum library",
            "Production constraint systems",
            "Optimized field operations",
        ]),
        implementation_effort: ImplementationEffort::High,
        security_requirements: strings(&[
            "128-bit security level",
            "Production-grade randomness",
            "Secure proof generation",
        ]),
        performance_requirements: strings(&[
            "Sub-100ms proof generation",
            "Sub-10ms proof verification",
            "Memory optimization",
        ]),
        status: ProductionRequirementStatus::Identified,
        created_at: t,
        updated_at: t,
    };
    proof {
        assert(views(boojum.requirements@) =~= seq![
            "Integrate Boojum library"@,
            "Implement production STARK proof generation"@,
            "Implement production STARK proof verification"@,
            "Optimize proof generation performance"@,
        ]);
        assert(views(boojum.dependencies@) =~= seq![
            "Boojum library"@,
            "Production constraint systems"@,
            "Optimized field operations"@,
        ]);
        assert(views(boojum.security_requirements@) =~= seq![
            "128-bit security level"@,
            "Production-grade randomness"@,
            "Secure proof generation"@,
        ]);
        assert(views(boojum.performance_requirements@) =~= seq![
            "Sub-100ms proof generation"@,
            "Sub-10ms proof verification"@,
            "Memory optimization"@,
        ]);
    }
    assert(boojum_requirement_ok(boojum));
    let ghost g_boojum = boojum;
    put_req(production_requirements, boojum);
    let crypto = ProductionRequirement {
        req_id: owned("crypto_library"),
        component_name: owned("AddressEncryption"),
        req_type: ProductionRequirementType::CryptographicLibrary,
        description: owned("Integrate production ChaCha20Poly1305 library"),
        requirements: strings(&[
            "Integrate production ChaCha20Poly1305",
            "Implement proper nonce generation",
            "Implement proper key management",
        ]),
        dependencies: strings(&["ChaCha20Poly1305 library", "Secure random number generation"]),
        implementation_effort: ImplementationEffort::Medium,
        security_requirements: strings(&[
            "256-bit encryption keys",
            "96-bit nonces",
            "128-bit authentication tags",
        ]),
        performance_requirements: strings(&["Fast encryption/decryption", "Low memory usage"]),
        status: ProductionRequirementStatus::Identified,
        created_at: t,
        updated_at: t,
    };
    proof {
        assert(views(crypto.requirements@) =~= seq![
            "Integrate production ChaCha20Poly1305"@,
            "Implement proper nonce generation"@,
            "Implement proper key management"@,
        ]);
        assert(views(crypto.dependencies@) =~= seq!["ChaCha20Poly1305 library"@, "Secure random number generation"@]);
        assert(views(crypto.security_requirements@) =~= seq![
            "256-bit encryption keys"@,
            "96-bit nonces"@,
            "128-bit authentication tags"@,
        ]);
        assert(views(crypto.performance_requirements@) =~= seq!["Fast encryption/decryption"@, "Low memory usage"@]);
    }
    assert(crypto_requirement_ok(crypto));
    let ghost g_crypto = crypto;
    put_req(production_requirements, crypto);
    assert(keyed(production_requirements@, req_key())["boojum_integration"@] == g_boojum);
    assert(keyed(production_requirements@, req_key())["crypto_library"@] == g_crypto);
}

impl PlaceholderTrackingSystem {
    /// The tracked placeholders, by identifier.
    pub closed spec fn placeholders(&self) -> Map<Seq<char>, PlaceholderEntry> {
        keyed(self.tracked_placeholders@, entry_key())
    }

    /// The simplified implementations, by identifier.
    pub closed spec fn simplified(&self) -> Map<Seq<char>, SimplifiedImplementation> {
        keyed(self.simplified_implementations@, impl_key())
    }

    /// The production requirements, by identifier.
    pub closed spec fn requirements(&self) -> Map<Seq<char>, ProductionRequirement> {
        keyed(self.production_requirements@, req_key())
    }

    /// The integration status.
    pub closed spec fn status(&self) -> IntegrationStatus {
        self.integration_status
    }

    /// Every identifier occurs once in each registry.
    pub closed spec fn well_formed(&self) -> bool {
        &&& keys_distinct(self.tracked_placeholders@, entry_key())
        &&& keys_distinct(self.simplified_implementations@, impl_key())
        &&& keys_distinct(self.production_requirements@, req_key())
    }

    /// The system with the known placeholders (a Boojum proof, a
    /// cryptographic operation, a performance optimization), simplified
    /// implementations (STARK proofs, cryptography), production requirements
    /// (Boojum integration, cryptographic library) and open issues.
    pub fn new() -> (res: Self)
        ensures
            res.well_formed(),
            res.placeholders().dom() == set!["boojum_stark_proof_1"@, "crypto_op_1"@, "perf_opt_1"@],
            res.placeholders()["boojum_stark_proof_1"@].component_name@ == "BoojumStarkProofSystem"@,
            res.placeholders()["boojum_stark_proof_1"@].priority_level == PriorityLevel::Critical,
            res.placeholders()["crypto_op_1"@].component_name@ == "AddressEncryption"@,
            res.placeholders()["crypto_op_1"@].priority_level == PriorityLevel::High,
            res.placeholders()["perf_opt_1"@].component_name@ == "OptimizedPrivacySystem"@,
            res.placeholders()["perf_opt_1"@].priority_level == PriorityLevel::Medium,
            forall|k: Seq<char>|
                #[trigger] res.placeholders().dom().contains(k) ==> res.placeholders()[k].status
                    == PlaceholderStatus::Identified,
            res.simplified().dom() == set!["stark_proof_simplified"@, "crypto_simplified"@],
            res.simplified()["stark_proof_simplified"@].component_name@ == "ProductionStarkProofSystem"@,
            res.simplified()["crypto_simplified"@].component_name@ == "AddressEncryption"@,
            res.requirements().dom() == set!["boojum_integration"@, "crypto_library"@],
            boojum_requirement_ok(res.requirements()["boojum_integration"@]),
            crypto_requirement_ok(res.requirements()["crypto_library"@]),
            views(res.status().critical_issues@) == seq![
                "Boojum STARK proof integration needed"@,
                "Production cryptographic operations needed"@,
            ],
            views(res.status().high_priority_issues@) == seq![
                "Performance optimization needed"@,
                "Cross-chain integration needed"@,
            ],
            views(res.status().medium_priority_issues@) == seq![
                "Monitoring system optimization needed"@,
                "Analytics system optimization needed"@,
            ],
            views(res.status().low_priority_issues@) == seq![
                "Documentation updates needed"@,
                "Test coverage improvements needed"@,
            ],
    {
        let t = now_or_zero();
        let mut tracked_placeholders: Vec<PlaceholderEntry> = Vec::new();
        initialize_known_placeholders(&mut tracked_placeholders, t);
        let mut simplified_implementations: Vec<SimplifiedImplementation> = Vec::new();
        initialize_known_simplified_implementations(&mut simplified_implementations, t);
        let mut production_requirements: Vec<ProductionRequirement> = Vec::new();
        initialize_known_production_requirements(&mut production_requirements, t);
        let integration_status = IntegrationStatus {
            critical_issues: strings(
                &["Boojum STARK proof integration needed", "Production cryptographic operations needed"],
            ),
            high_priority_issues: strings(&["Performance optimization needed", "Cross-chain integration needed"]),
            medium_priority_issues: strings(
                &["Monitoring system optimization needed", "Analytics system optimization needed"],
            ),
            low_priority_issues: strings(&["Documentation updates needed", "Test coverage improvements needed"]),
            integration_timeline: IntegrationTimeline {
                phase_1_timeline: owned("Boojum integration: 1-2 weeks"),
                phase_2_timeline: owned("Performance optimization: 1 week"),
                phase_3_timeline: owned("Cross-chain integration: 2-3 weeks"),
                overall_timeline: owned("Total: 4-6 weeks"),
            },
        };
        let res = PlaceholderTrackingSystem {
            tracked_placeholders,
            simplified_implementations,
            production_requirements,
            integration_status,
        };
        proof {
            assert(res.status().critical_issues@.len() == 2);
            assert(views(res.status().critical_issues@) =~= seq![
                "Boojum STARK proof integration needed"@,
                "Production cryptographic operations needed"@,
            ]);
            assert(views(res.status().high_priority_issues@) =~= seq![
                "Performance optimization needed"@,
                "Cross-chain integration needed"@,
            ]);
            assert(views(res.status().medium_priority_issues@) =~= seq![
                "Monitoring system optimization needed"@,
                "Analytics system optimization needed"@,
            ]);
            assert(views(res.status().low_priority_issues@) =~= seq![
                "Documentation updates needed"@,
                "Test coverage improvements needed"@,
            ]);
        }
        res
    }
}

impl PlaceholderTrackingSystem {
    /// Tracks a placeholder, replacing one with the same identifier.
    pub fn add_placeholder_entry(&mut self, entry: PlaceholderEntry) -> (res: Result<(), PrivacyError>)
        requires
            old(self).well_formed(),
        ensures
            final(self).well_formed(),
            res is Ok,
            final(self).placeholders() == old(self).placeholders().insert(entry.entry_id@, entry),
            final(self).simplified() == old(self).simplified(),
            final(self).requirements() == old(self).requirements(),
            final(self).status() == old(self).status(),
    {
        put_entry(&mut self.tracked_placeholders, entry);
        Ok(())
    }

    /// Tracks a simplified implementation, replacing one with the same
    /// identifier.
    pub fn add_simplified_implementation(&mut self, impl_entry: SimplifiedImplementation) -> (res: Result<
        (),
        PrivacyError,
    >)
        requires
            old(self).well_formed(),
        ensures
            final(self).well_formed(),
            res is Ok,
            final(self).simplified() == old(self).simplified().insert(impl_entry.impl_id@, impl_entry),
            final(self).placeholders() == old(self).placeholders(),
            final(self).requirements() == old(self).requirements(),
            final(self).status() == old(self).status(),
    {
        put_impl(&mut self.simplified_implementations, impl_entry);
        Ok(())
    }

    /// Tracks a production requirement, replacing one with the same
    /// identifier.
    pub fn add_production_requirement(&mut self, requirement: ProductionRequirement) -> (res: Result<
        (),
        PrivacyError,
    >)
        requires
            old(self).well_formed(),
        ensures
            final(self).well_formed(),
            res is Ok,
            final(self).requirements() == old(self).requirements().insert(requirement.req_id@, requirement),
            final(self).placeholders() == old(self).placeholders(),
            final(self).simplified() == old(self).simplified(),
            final(self).status() == old(self).status(),
    {
        put_req(&mut self.production_requirements, requirement);
        Ok(())
    }

    /// All tracked placeholders, each once.
    pub fn get_placeholder_entries(&self) -> (res: Result<Vec<PlaceholderEntry>, PrivacyError>)
        requires
            self.well_formed(),
        ensures
            res matches Ok(v) && lists_entries(v@, self.placeholders()),
    {
        Ok(list_entries(&self.tracked_placeholders))
    }

    /// All simplified implementations, each once.
    pub fn get_simplified_implementations(&self) -> (res: Result<Vec<SimplifiedImplementation>, PrivacyError>)
        requires
            self.well_formed(),
        ensures
            res matches Ok(v) && lists_impls(v@, self.simplified()),
    {
        Ok(list_impls(&self.simplified_implementations))
    }

    /// All production requirements, each once.
    pub fn get_production_requirements(&self) -> (res: Result<Vec<ProductionRequirement>, PrivacyError>)
        requires
            self.well_formed(),
        ensures
            res matches Ok(v) && lists_reqs(v@, self.requirements()),
    {
        Ok(list_reqs(&self.production_requirements))
    }

    /// The integration status.
    pub fn get_integration_status(&self) -> (res: Result<IntegrationStatus, PrivacyError>)
        ensures
            res matches Ok(s) && same_status(s, self.status()),
    {
        Ok(clone_status(&self.integration_status))
    }

    /// Sets the status of a tracked placeholder and stamps it with the
    /// current time; an unknown identifier changes nothing.
    pub fn update_placeholder_status(&mut self, entry_id: &str, status: PlaceholderStatus) -> (res: Result<
        (),
        PrivacyError,
    >)
        requires
            old(self).well_formed(),
        ensures
            final(self).well_formed(),
            final(self).simplified() == old(self).simplified(),
            final(self).requirements() == old(self).requirements(),
            final(self).status() == old(self).status(),
            !old(self).placeholders().dom().contains(entry_id@) ==> res is Ok && final(self).placeholders() == old(
                self,
            ).placeholders(),
            res matches Err(e) ==> e == PrivacyError::ClockError && final(self).placeholders() == old(
                self,
            ).placeholders(),
            old(self).placeholders().dom().contains(entry_id@) && res is Ok ==> exists|t: u64|
                final(self).placeholders() == old(self).placeholders().insert(
                    entry_id@,
                    #[trigger] entry_with_status(old(self).placeholders()[entry_id@], status, t),
                ),
    {
        proof {
            lemma_keyed_entries(self.tracked_placeholders@, entry_key());
        }
        match find_entry(&self.tracked_placeholders, entry_id) {
            None => Ok(()),
            Some(i) => {
                let t = match unix_time_secs() {
                    Some(t) => t,
                    None => return Err(PrivacyError::ClockError),
                };
                let ghost before = self.tracked_placeholders@;
                let mut e = self.tracked_placeholders.remove(i);
                e.status = status;
                e.updated_at = t;
                let ghost updated = e;
                self.tracked_placeholders.insert(i, e);
                proof {
                    assert(self.tracked_placeholders@ =~= before.update(i as int, updated));
                    lemma_keyed_update(before, entry_key(), i as int, updated);
                    assert(keyed(before, entry_key())[entry_id@] == before[i as int]);
                    assert(updated == entry_with_status(before[i as int], status, t));
                }
                Ok(())
            },
        }
    }

    /// Sets the status of a simplified implementation and stamps it with the
    /// current time; an unknown identifier changes nothing.
    pub fn update_simplified_implementation_status(
        &mut self,
        impl_id: &str,
        status: SimplifiedImplementationStatus,
    ) -> (res: Result<(), PrivacyError>)
        requires
            old(self).well_formed(),
        ensures
            final(self).well_formed(),
            final(self).placeholders() == old(self).placeholders(),
            final(self).requirements() == old(self).requirements(),
            final(self).status() == old(self).status(),
            !old(self).simplified().dom().contains(impl_id@) ==> res is Ok && final(self).simplified() == old(
                self,
            ).simplified(),
            res matches Err(e) ==> e == PrivacyError::ClockError && final(self).simplified() == old(self).simplified(),
            old(self).simplified().dom().contains(impl_id@) && res is Ok ==> exists|t: u64|
                final(self).simplified() == old(self).simplified().insert(
                    impl_id@,
                    #[trigger] impl_with_status(old(self).simplified()[impl_id@], status, t),
                ),
    {
        proof {
            lemma_keyed_entries(self.simplified_implementations@, impl_key());
        }
        match find_impl(&self.simplified_implementations, impl_id) {
            None => Ok(()),
            Some(i) => {
                let t = match unix_time_secs() {
                    Some(t) => t,
                    None => return Err(PrivacyError::ClockError),
                };
                let ghost before = self.simplified_implementations@;
                let mut e = self.simplified_implementations.remove(i);
                e.status = status;
                e.updated_at = t;
                let ghost updated = e;
                self.simplified_implementations.insert(i, e);
                proof {
                    assert(self.simplified_implementations@ =~= before.update(i as int, updated));
                    lemma_keyed_update(before, impl_key(), i as int, updated);
                    assert(keyed(before, impl_key())[impl_id@] == before[i as int]);
                    assert(updated == impl_with_status(before[i as int], status, t));
                }
                Ok(())
            },
        }
    }

    /// Sets the status of a production requirement and stamps it with the
    /// current time; an unknown identifier changes nothing.
    pub fn update_production_requirement_status(
        &mut self,
        req_id: &str,
        status: ProductionRequirementStatus,
    ) -> (res: Result<(), PrivacyError>)
        requires
            old(self).well_formed(),
        ensures
            final(self).well_formed(),
            final(self).placeholders() == old(self).placeholders(),
            final(self).simplified() == old(self).simplified(),
            final(self).status() == old(self).status(),
            !old(self).requirements().dom().contains(req_id@) ==> res is Ok && final(self).requirements() == old(
                self,
            ).requirements(),
            res matches Err(e) ==> e == PrivacyError::ClockError && final(self).requirements() == old(
                self,
            ).requirements(),
            old(self).requirements().dom().contains(req_id@) && res is Ok ==> exists|t: u64|
                final(self).requirements() == old(self).requirements().insert(
                    req_id@,
                    #[trigger] req_with_status(old(self).requirements()[req_id@], status, t),
                ),
    {
        proof {
            lemma_keyed_entries(self.production_requirements@, req_key());
        }
        match find_req(&self.production_requirements, req_id) {
            None => Ok(()),
            Some(i) => {
                let t = match unix_time_secs() {
                    Some(t) => t,
                    None => return Err(PrivacyError::ClockError),
                };
                let ghost before = self.production_requirements@;
                let mut e = self.production_requirements.remove(i);
                e.status = status;
                e.updated_at = t;
                let ghost updated = e;
                self.production_requirements.insert(i, e);
                proof {
                    assert(self.production_requirements@ =~= before.update(i as int, updated));
                    lemma_keyed_update(before, req_key(), i as int, updated);
                    assert(keyed(before, req_key())[req_id@] == before[i as int]);
                    assert(updated == req_with_status(before[i as int], status, t));
                }
                Ok(())
            },
        }
    }
}

/// The number of placeholders with a given priority.
fn count_with_priority(ps: &[PlaceholderEntry], p: PriorityLevel) -> (n: u64)
    ensures
        n == count_priority(ps@, p),
{
    let mut n: u64 = 0;
    let mut i: usize = 0;
    while i < ps.len()
        invariant
            i <= ps@.len(),
            n <= i,
            n == count_priority(ps@.take(i as int), p),
        decreases ps@.len() - i,
    {
        assert(ps@.take(i + 1).drop_last() =~= ps@.take(i as int));
        if ps[i].priority_level == p {
            n = n + 1;
        }
        i = i + 1;
    }
    assert(ps@.take(ps@.len() as int) =~= ps@);
    n
}

/// The number of placeholders with a given security impact.
fn count_with_impact(ps: &[PlaceholderEntry], s: SecurityImpact) -> (n: u64)
    ensures
        n == count_impact(ps@, s),
{
    let mut n: u64 = 0;
    let mut i: usize = 0;
    while i < ps.len()
        invariant
            i <= ps@.len(),
            n <= i,
            n == count_impact(ps@.take(i as int), s),
        decreases ps@.len() - i,
    {
        assert(ps@.take(i + 1).drop_last() =~= ps@.take(i as int));
        if ps[i].security_impact == s {
            n = n + 1;
        }
        i = i + 1;
    }
    assert(ps@.take(ps@.len() as int) =~= ps@);
    n
}

/// Appends a summary line.
fn push_count_line(s: &mut String, label: &str, n: u64)
    ensures
        final(s)@ == old(s)@ + count_line(label@, n as nat),
{
    s.append(label);
    push_decimal_then(s, n, "\n");
}

impl PlaceholderTrackingSystem {
    /// The report summary of the given records.
    pub fn generate_report_summary(
        &self,
        placeholders: &[PlaceholderEntry],
        simplified_impls: &[SimplifiedImplementation],
        requirements: &[ProductionRequirement],
    ) -> (res: Result<String, PrivacyError>)
        ensures
            res matches Ok(s) && s@ == summary_spec(
                placeholders@,
                simplified_impls@.len(),
                requirements@.len(),
            ),
    {
        let mut summary = owned("=== PLACEHOLDER TRACKING REPORT ===\n\n");
        push_count_line(&mut summary, "Total Placeholders: ", placeholders.len() as u64);
        push_count_line(&mut summary, "Total Simplified Implementations: ", simplified_impls.len() as u64);
        push_count_line(&mut summary, "Total Production Requirements: ", requirements.len() as u64);
        summary.append("\nPriority Distribution:\n");
        push_count_line(&mut summary, "  Critical: ", count_with_priority(placeholders, PriorityLevel::Critical));
        push_count_line(&mut summary, "  High: ", count_with_priority(placeholders, PriorityLevel::High));
        push_count_line(&mut summary, "  Medium: ", count_with_priority(placeholders, PriorityLevel::Medium));
        push_count_line(&mut summary, "  Low: ", count_with_priority(placeholders, PriorityLevel::Low));
        summary.append("\nSecurity Impact Distribution:\n");
        push_count_line(&mut summary, "  Critical: ", count_with_impact(placeholders, SecurityImpact::Critical));
        push_count_line(&mut summary, "  High: ", count_with_impact(placeholders, SecurityImpact::High));
        push_count_line(&mut summary, "  Medium: ", count_with_impact(placeholders, SecurityImpact::Medium));
        Ok(summary)
    }

    /// A fresh report identifier: hex SHA-256 of the current time and a
    /// random number; `None` where the clock stands before the epoch.
    fn generate_report_id(&self) -> (res: Option<String>)
        ensures
            res matches Some(id) ==> exists|t: u64, r: u64| id@ == #[trigger] report_id_spec(t, r),
    {
        let t = match unix_time_secs() {
            Some(t) => t,
            None => return None,
        };
        let r = random_u64();
        let mut buf = u64_le_bytes(t);
        let rb = u64_le_bytes(r);
        extend_bytes(&mut buf, rb.as_slice());
        let d = sha256(buf.as_slice());
        let id = hex_encode(&d);
        assert(id@ == report_id_spec(t, r));
        Some(id)
    }

    /// The placeholder report: a fresh identifier, the time, every record,
    /// the integration status and the summary of the records.
    pub fn generate_placeholder_report(&self) -> (res: Result<PlaceholderReport, PrivacyError>)
        requires
            self.well_formed(),
        ensures
            res matches Err(e) ==> e == PrivacyError::ClockError,
            res matches Ok(r) ==> {
                &&& exists|t: u64, n: u64| r.report_id@ == #[trigger] report_id_spec(t, n)
                &&& lists_entries(r.placeholders@, self.placeholders())
                &&& lists_impls(r.simplified_implementations@, self.simplified())
                &&& lists_reqs(r.production_requirements@, self.requirements())
                &&& same_status(r.integration_status, self.status())
                &&& r.summary@ == summary_spec(
                    r.placeholders@,
                    r.simplified_implementations@.len(),
                    r.production_requirements@.len(),
                )
            },
    {
        let placeholders = list_entries(&self.tracked_placeholders);
        let simplified_implementations = list_impls(&self.simplified_implementations);
        let production_requirements = list_reqs(&self.production_requirements);
        let integration_status = clone_status(&self.integration_status);
        let report_id = match self.generate_report_id() {
            Some(id) => id,
            None => return Err(PrivacyError::ClockError),
        };
        let generated_at = match unix_time_secs() {
            Some(t) => t,
            None => return Err(PrivacyError::ClockError),
        };
        let summary = match self.generate_report_summary(
            placeholders.as_slice(),
            simplified_implementations.as_slice(),
            production_requirements.as_slice(),
        ) {
            Ok(s) => s,
            Err(e) => return Err(e),
        };
        Ok(PlaceholderReport {
            report_id,
            generated_at,
            placeholders,
            simplified_implementations,
            production_requirements,
            integration_status,
            summary,
        })
    }
}

} // verus!
