//! Security audit preparation: the security documentation, threat model,
//! security controls and audit checklist of the privacy layer, the audit
//! report built from them, and the validation of the implementation.
use vstd::prelude::*;
use vstd::string::*;
use crate::crypto::unix_time_secs;
use crate::text::{debug_list, debug_string_list, decimal_chars, join_all, lemma_join_all_push, owned, push_decimal, push_decimal_then, str_equal, string_views};

verus! {

/// The security audit preparation system.
pub struct SecurityAuditPrep {
    security_docs: SecurityDocumentation,
    threat_model: ThreatModel,
    security_controls: SecurityControls,
    audit_checklist: AuditChecklist,
}

/// Security documentation.
#[derive(Debug, Clone)]
pub struct SecurityDocumentation {
    /// Architecture overview.
    pub architecture_overview: String,
    /// Cryptographic primitives used.
    pub cryptographic_primitives: Vec<CryptographicPrimitive>,
    /// Security assumptions.
    pub security_assumptions: Vec<SecurityAssumption>,
    /// Attack vectors considered.
    pub attack_vectors: Vec<AttackVector>,
    /// Mitigation strategies.
    pub mitigation_strategies: Vec<MitigationStrategy>,
}

/// Documentation of a cryptographic primitive.
#[derive(Debug, Clone)]
pub struct CryptographicPrimitive {
    /// Primitive name.
    pub name: String,
    /// Primitive type.
    pub primitive_type: String,
    /// Security level in bits.
    pub security_level: u32,
    /// Implementation details.
    pub implementation_details: String,
    /// Known vulnerabilities.
    pub known_vulnerabilities: Vec<String>,
    /// Mitigation measures.
    pub mitigation_measures: Vec<String>,
}

/// A security assumption.
#[derive(Debug, Clone)]
pub struct SecurityAssumption {
    /// Assumption identifier.
    pub assumption_id: String,
    /// Description.
    pub description: String,
    /// Assumption type.
    pub assumption_type: String,
    /// Risk level.
    pub risk_level: String,
    /// Validation method.
    pub validation_method: String,
}

/// An attack vector.
#[derive(Debug, Clone)]
pub struct AttackVector {
    /// Attack identifier.
    pub attack_id: String,
    /// Attack name.
    pub attack_name: String,
    /// Description.
    pub description: String,
    /// Attack category.
    pub category: String,
    /// Likelihood.
    pub likelihood: String,
    /// Impact.
    pub impact: String,
    /// Mitigation status.
    pub mitigation_status: String,
}

/// A mitigation strategy.
#[derive(Debug, Clone)]
pub struct MitigationStrategy {
    /// Strategy identifier.
    pub strategy_id: String,
    /// Strategy name.
    pub strategy_name: String,
    /// Description.
    pub description: String,
    /// Implementation status.
    pub implementation_status: String,
    /// Effectiveness rating.
    pub effectiveness_rating: u8,
}

/// The threat model.
#[derive(Debug, Clone)]
pub struct ThreatModel {
    /// Threat actors.
    pub threat_actors: Vec<ThreatActor>,
    /// Assets to protect.
    pub assets: Vec<Asset>,
    /// Threat scenarios.
    pub threat_scenarios: Vec<ThreatScenario>,
    /// Risk assessment.
    pub risk_assessment: RiskAssessment,
}

/// A threat actor.
#[derive(Debug, Clone)]
pub struct ThreatActor {
    /// Actor identifier.
    pub actor_id: String,
    /// Actor name.
    pub actor_name: String,
    /// Actor type.
    pub actor_type: String,
    /// Capabilities.
    pub capabilities: Vec<String>,
    /// Motivation.
    pub motivation: String,
    /// Threat level.
    pub threat_level: u8,
}

/// An asset to protect.
#[derive(Debug, Clone)]
pub struct Asset {
    /// Asset identifier.
    pub asset_id: String,
    /// Asset name.
    pub asset_name: String,
    /// Asset type.
    pub asset_type: String,
    /// Criticality level.
    pub criticality_level: u8,
    /// Protection requirements.
    pub protection_requirements: Vec<String>,
}

/// A threat scenario.
#[derive(Debug, Clone)]
pub struct ThreatScenario {
    /// Scenario identifier.
    pub scenario_id: String,
    /// Scenario name.
    pub scenario_name: String,
    /// Description.
    pub description: String,
    /// Attack steps.
    pub attack_steps: Vec<String>,
    /// Likelihood.
    pub likelihood: String,
    /// Impact.
    pub impact: String,
    /// Risk level.
    pub risk_level: String,
}

/// The risk assessment.
#[derive(Debug, Clone)]
pub struct RiskAssessment {
    /// Overall risk level.
    pub overall_risk_level: String,
    /// High risks.
    pub high_risks: Vec<String>,
    /// Medium risks.
    pub medium_risks: Vec<String>,
    /// Low risks.
    pub low_risks: Vec<String>,
    /// Risk mitigation status.
    pub risk_mitigation_status: String,
}

/// Security controls.
#[derive(Debug, Clone)]
pub struct SecurityControls {
    /// Preventive controls.
    pub preventive_controls: Vec<SecurityControl>,
    /// Detective controls.
    pub detective_controls: Vec<SecurityControl>,
    /// Corrective controls.
    pub corrective_controls: Vec<SecurityControl>,
    /// Effectiveness per control identifier.
    pub control_effectiveness: Vec<(String, u8)>,
}

/// A security control.
#[derive(Debug, Clone)]
pub struct SecurityControl {
    /// Control identifier.
    pub control_id: String,
    /// Control name.
    pub control_name: String,
    /// Control type.
    pub control_type: String,
    /// Description.
    pub description: String,
    /// Implementation status.
    pub implementation_status: String,
    /// Effectiveness rating.
    pub effectiveness_rating: u8,
}

/// The audit checklist.
#[derive(Debug, Clone)]
pub struct AuditChecklist {
    /// Audit items.
    pub audit_items: Vec<AuditItem>,
    /// Completion per item identifier.
    pub completion_status: Vec<(String, bool)>,
    /// Audit findings.
    pub audit_findings: Vec<AuditFinding>,
}

/// An audit item.
#[derive(Debug, Clone)]
pub struct AuditItem {
    /// Item identifier.
    pub item_id: String,
    /// Item category.
    pub category: String,
    /// Description.
    pub description: String,
    /// Criticality level.
    pub criticality_level: String,
    /// Verification method.
    pub verification_method: String,
    /// Status.
    pub status: String,
}

/// An audit finding.
#[derive(Debug, Clone)]
pub struct AuditFinding {
    /// Finding identifier.
    pub finding_id: String,
    /// Finding type.
    pub finding_type: String,
    /// Description.
    pub description: String,
    /// Severity level.
    pub severity_level: String,
    /// Recommendation.
    pub recommendation: String,
    /// Status.
    pub status: String,
}

/// The result of validating the security implementation.
#[derive(Debug, Clone)]
pub struct SecurityValidationResult {
    /// `PASS` or `FAIL`.
    pub overall_status: String,
    /// Validation items.
    pub validation_items: Vec<String>,
    /// Critical issues.
    pub critical_issues: Vec<String>,
    /// Warnings.
    pub warnings: Vec<String>,
    /// Recommendations.
    pub recommendations: Vec<String>,
}

/// The report entry of a primitive.
pub open spec fn primitive_entry(p: CryptographicPrimitive) -> Seq<char> {
    "### "@ + p.name@ + "\n"@ + "Type: "@ + p.primitive_type@ + "\n"@ + "Security Level: "@ + decimal_chars(
        p.security_level as nat,
    ) + " bits\n"@ + "Implementation: "@ + p.implementation_details@ + "\n"@ + "\n"@
}

/// The report entry of a threat actor.
pub open spec fn actor_entry(a: ThreatActor) -> Seq<char> {
    "- "@ + a.actor_name@ + " ("@ + a.actor_type@ + "): "@ + a.motivation@ + "\n"@
}

/// The report entry of an asset.
pub open spec fn asset_entry(a: Asset) -> Seq<char> {
    "- "@ + a.asset_name@ + " ("@ + a.asset_type@ + "): Criticality "@ + decimal_chars(a.criticality_level as nat)
        + "\n"@
}

/// The report entry of a control.
pub open spec fn control_entry(c: SecurityControl) -> Seq<char> {
    "- "@ + c.control_name@ + ": "@ + c.description@ + "\n"@
}

/// The completion of an item: the value of the first pair with its
/// identifier, `false` where there is none.
pub open spec fn status_of(pairs: Seq<(String, bool)>, key: Seq<char>) -> bool
    decreases pairs.len(),
{
    if pairs.len() == 0 {
        false
    } else if pairs[0].0@ == key {
        pairs[0].1
    } else {
        status_of(pairs.drop_first(), key)
    }
}

/// The report entry of an audit item.
pub open spec fn item_entry(item: AuditItem, statuses: Seq<(String, bool)>) -> Seq<char> {
    "- ["@ + (if status_of(statuses, item.item_id@) {
        "x"@
    } else {
        " "@
    }) + "] "@ + item.description@ + ": "@ + item.category@ + "\n"@
}

/// The report entry of a risk.
pub open spec fn risk_entry(r: Seq<char>) -> Seq<char> {
    "- "@ + r + "\n"@
}

/// The entries of all audit items.
pub open spec fn item_entries(items: Seq<AuditItem>, statuses: Seq<(String, bool)>) -> Seq<Seq<char>> {
    items.map_values(|i: AuditItem| item_entry(i, statuses))
}

/// The audit report of the given documentation, threat model, controls and
/// checklist, generated at time `t`.
pub open spec fn audit_report_spec(
    docs: SecurityDocumentation,
    model: ThreatModel,
    controls: SecurityControls,
    checklist: AuditChecklist,
    t: u64,
) -> Seq<char> {
    "=== SECURITY AUDIT REPORT ===\n\n"@ + "Generated: "@ + decimal_chars(t as nat) + "\n\n"@
        + "## ARCHITECTURE OVERVIEW\n"@ + docs.architecture_overview@ + "\n\n"@
        + "## CRYPTOGRAPHIC PRIMITIVES\n"@ + join_all(
        docs.cryptographic_primitives@.map_values(|p: CryptographicPrimitive| primitive_entry(p)),
    ) + "## THREAT MODEL\n"@ + "### Threat Actors\n"@ + join_all(
        model.threat_actors@.map_values(|a: ThreatActor| actor_entry(a)),
    ) + "\n"@ + "### Assets\n"@ + join_all(model.assets@.map_values(|a: Asset| asset_entry(a))) + "\n"@
        + "## SECURITY CONTROLS\n"@ + "### Preventive Controls\n"@ + join_all(
        controls.preventive_controls@.map_values(|c: SecurityControl| control_entry(c)),
    ) + "\n"@ + "## AUDIT CHECKLIST\n"@ + join_all(
        item_entries(checklist.audit_items@, checklist.completion_status@),
    ) + "\n"@ + "## RISK ASSESSMENT\n"@ + "Overall Risk Level: "@ + model.risk_assessment.overall_risk_level@
        + "\n"@ + "\nHigh Risks:\n"@ + join_all(
        string_views(model.risk_assessment.high_risks@).map_values(|r: Seq<char>| risk_entry(r)),
    ) + "\n"@
}

/// The critical issue of a primitive below 128 bits.
pub open spec fn weak_primitive_issue(p: CryptographicPrimitive) -> Seq<char> {
    "Insufficient security level for "@ + p.name@ + ": "@ + decimal_chars(p.security_level as nat) + " bits"@
}

/// The warning of a primitive with known vulnerabilities.
pub open spec fn vulnerability_warning(p: CryptographicPrimitive) -> Seq<char> {
    "Known vulnerabilities in "@ + p.name@ + ": "@ + debug_list(string_views(p.known_vulnerabilities@))
}

/// The warning of a control that is not implemented.
pub open spec fn control_warning(c: SecurityControl) -> Seq<char> {
    "Control "@ + c.control_name@ + " not fully implemented: "@ + c.implementation_status@
}

/// The recommendation for a control rated below 7.
pub open spec fn control_recommendation(c: SecurityControl) -> Seq<char> {
    "Improve effectiveness of control "@ + c.control_name@ + ": current rating "@ + decimal_chars(
        c.effectiveness_rating as nat,
    )
}

/// Critical issues: one per primitive below 128 bits, in order.
pub open spec fn critical_issues_spec(prims: Seq<CryptographicPrimitive>) -> Seq<Seq<char>>
    decreases prims.len(),
{
    if prims.len() == 0 {
        Seq::empty()
    } else if prims.last().security_level < 128 {
        critical_issues_spec(prims.drop_last()).push(weak_primitive_issue(prims.last()))
    } else {
        critical_issues_spec(prims.drop_last())
    }
}

/// Warnings from primitives: one per primitive with known vulnerabilities.
pub open spec fn primitive_warnings_spec(prims: Seq<CryptographicPrimitive>) -> Seq<Seq<char>>
    decreases prims.len(),
{
    if prims.len() == 0 {
        Seq::empty()
    } else if prims.last().known_vulnerabilities@.len() > 0 {
        primitive_warnings_spec(prims.drop_last()).push(vulnerability_warning(prims.last()))
    } else {
        primitive_warnings_spec(prims.drop_last())
    }
}

/// Warnings from preventive controls: one per control not `IMPLEMENTED`.
pub open spec fn control_warnings_spec(controls: Seq<SecurityControl>) -> Seq<Seq<char>>
    decreases controls.len(),
{
    if controls.len() == 0 {
        Seq::empty()
    } else if controls.last().implementation_status@ != "IMPLEMENTED"@ {
        control_warnings_spec(controls.drop_last()).push(control_warning(controls.last()))
    } else {
        control_warnings_spec(controls.drop_last())
    }
}

/// Recommendations: one per preventive control rated below 7.
pub open spec fn recommendations_spec(controls: Seq<SecurityControl>) -> Seq<Seq<char>>
    decreases controls.len(),
{
    if controls.len() == 0 {
        Seq::empty()
    } else if controls.last().effectiveness_rating < 7 {
        recommendations_spec(controls.drop_last()).push(control_recommendation(controls.last()))
    } else {
        recommendations_spec(controls.drop_last())
    }
}

/// The number of completed entries in the completion list.
pub open spec fn completed_count(pairs: Seq<(String, bool)>) -> nat
    decreases pairs.len(),
{
    if pairs.len() == 0 {
        0
    } else {
        completed_count(pairs.drop_last()) + if pairs.last().1 {
            1nat
        } else {
            0nat
        }
    }
}

/// The warning of an incomplete checklist.
pub open spec fn checklist_warning(completed: nat, total: nat) -> Seq<char> {
    "Audit checklist incomplete: "@ + decimal_chars(completed) + "/"@ + decimal_chars(total)
        + " items completed"@
}

/// All warnings: primitives, then controls, then the checklist.
pub open spec fn warnings_spec(docs: SecurityDocumentation, controls: SecurityControls, checklist: AuditChecklist) -> Seq<
    Seq<char>,
> {
    let base = primitive_warnings_spec(docs.cryptographic_primitives@) + control_warnings_spec(
        controls.preventive_controls@,
    );
    let done = completed_count(checklist.completion_status@);
    let total = checklist.audit_items@.len();
    if done < total {
        base.push(checklist_warning(done, total))
    } else {
        base
    }
}

/// The overall status: `FAIL` where a primitive is below 128 bits.
pub open spec fn overall_status_spec(prims: Seq<CryptographicPrimitive>) -> Seq<char> {
    if critical_issues_spec(prims).len() > 0 {
        "FAIL"@
    } else {
        "PASS"@
    }
}

/// The built-in security documentation, field by field.
pub open spec fn builtin_documentation_ok(res: SecurityDocumentation) -> bool {
    &&& res.cryptographic_primitives@.len() == 3
    &&& res.cryptographic_primitives@[0].security_level == 256
    &&& res.cryptographic_primitives@[1].security_level == 128
    &&& res.cryptographic_primitives@[2].security_level == 128
    &&& forall|i: int|
        0 <= i < 3 ==> (#[trigger] res.cryptographic_primitives@[i]).known_vulnerabilities@.len() == 0
    &&& res.cryptographic_primitives@[0].name@ == "ChaCha20Poly1305"@
    &&& res.cryptographic_primitives@[1].name@ == "Pedersen Commitments"@
    &&& res.cryptographic_primitives@[2].name@ == "STARK Proofs"@
    &&& res.cryptographic_primitives@[0].primitive_type@ == "AEAD Encryption"@
    &&& res.cryptographic_primitives@[1].primitive_type@ == "Commitment Scheme"@
    &&& res.cryptographic_primitives@[2].primitive_type@ == "Zero-Knowledge Proof"@
    &&& res.cryptographic_primitives@[0].implementation_details@
        == "Used for address and timestamp encryption with 256-bit keys, 96-bit nonces, and 128-bit authentication tags"@
    &&& res.cryptographic_primitives@[1].implementation_details@
        == "Used for amount commitments with cryptographically secure blinding factors"@
    &&& res.cryptographic_primitives@[2].implementation_details@
        == "Used for transaction validity, amount range, and balance consistency proofs"@
    &&& forall|i: int|
        0 <= i < 3 ==> (#[trigger] res.cryptographic_primitives@[i]).mitigation_measures@.len() == 2
    &&& res.architecture_overview@ == architecture_overview_spec()
    &&& res.security_assumptions@.len() == 2
    &&& res.security_assumptions@[0].assumption_id@ == "crypto_assumption_1"@
    &&& res.security_assumptions@[1].assumption_id@ == "stark_assumption_1"@
    &&& res.attack_vectors@.len() == 2
    &&& res.attack_vectors@[0].attack_name@ == "Timing Attack"@
    &&& res.attack_vectors@[1].attack_name@ == "Cryptographic Attack"@
    &&& res.mitigation_strategies@.len() == 2
    &&& res.mitigation_strategies@[0].strategy_name@ == "Constant-Time Operations"@
    &&& res.mitigation_strategies@[0].effectiveness_rating == 9
    &&& res.mitigation_strategies@[1].strategy_name@ == "Secure Random Generation"@
    &&& res.mitigation_strategies@[1].effectiveness_rating == 10
}

/// The architecture overview of the built-in documentation.
pub open spec fn architecture_overview_spec() -> Seq<char> {
    "zkC0DL3 implements elite-level privacy features with maximum privacy-by-default. The system uses production-grade STARK proofs, ChaCha20Poly1305 encryption, and Pedersen commitments to provide comprehensive user-level privacy protection."@
}

impl SecurityAuditPrep {
    /// The documentation, threat model, controls and checklist.
    pub closed spec fn parts(&self) -> (SecurityDocumentation, ThreatModel, SecurityControls, AuditChecklist) {
        (self.security_docs, self.threat_model, self.security_controls, self.audit_checklist)
    }

    /// The system with the built-in documentation, threat model, controls
    /// and checklist.
    pub fn new() -> (res: Self)
        ensures
            builtin_documentation_ok(res.parts().0),
            res.parts().1.threat_actors@.len() == 2,
            res.parts().1.assets@.len() == 2,
            res.parts().0.architecture_overview@ == architecture_overview_spec(),
            res.parts().0.security_assumptions@.len() == 2,
            res.parts().0.attack_vectors@.len() == 2,
            res.parts().0.mitigation_strategies@.len() == 2,
            res.parts().1.threat_scenarios@.len() == 1,
            res.parts().1.risk_assessment.high_risks@.len() == 0,
            res.parts().1.risk_assessment.medium_risks@.len() == 1,
            res.parts().1.risk_assessment.low_risks@.len() == 1,
            res.parts().2.preventive_controls@.len() == 2,
            res.parts().2.detective_controls@.len() == 1,
            res.parts().2.corrective_controls@.len() == 1,
            res.parts().3.audit_items@.len() == 3,
            res.parts().3.completion_status@.len() == 3,
            forall|i: int|
                0 <= i < 3 ==> (#[trigger] res.parts().0.cryptographic_primitives@[i]).security_level >= 128
                    && res.parts().0.cryptographic_primitives@[i].known_vulnerabilities@.len() == 0,
            forall|i: int|
                0 <= i < 2 ==> (#[trigger] res.parts().2.preventive_controls@[i]).implementation_status@
                    == "IMPLEMENTED"@ && res.parts().2.preventive_controls@[i].effectiveness_rating >= 7,
            forall|i: int| 0 <= i < 3 ==> (#[trigger] res.parts().3.completion_status@[i]).1,
            critical_issues_spec(res.parts().0.cryptographic_primitives@).len() == 0,
            warnings_spec(res.parts().0, res.parts().2, res.parts().3).len() == 0,
            recommendations_spec(res.parts().2.preventive_controls@).len() == 0,
    {
        let security_docs = Self::create_security_documentation();
        let threat_model = Self::create_threat_model();
        let security_controls = Self::create_security_controls();
        let audit_checklist = Self::create_audit_checklist();
        proof {
            let ps = security_docs.cryptographic_primitives@;
            let cs = security_controls.preventive_controls@;
            let st = audit_checklist.completion_status@;
            reveal_with_fuel(critical_issues_spec, 4);
            reveal_with_fuel(primitive_warnings_spec, 4);
            reveal_with_fuel(control_warnings_spec, 3);
            reveal_with_fuel(recommendations_spec, 3);
            reveal_with_fuel(completed_count, 4);
            assert(ps.drop_last().drop_last().drop_last().len() == 0);
            assert(cs.drop_last().drop_last().len() == 0);
            assert(st.drop_last().drop_last().drop_last().len() == 0);
            assert(st[0].1 && st[1].1 && st[2].1);
            assert(completed_count(st) == 3);
        }
        SecurityAuditPrep { security_docs, threat_model, security_controls, audit_checklist }
    }

    /// The audit report, stamped with the current time (0 where the clock
    /// stands before the epoch).
    pub fn generate_audit_report(&self) -> (res: String)
        ensures
            exists|t: u64|
                res@ == #[trigger] audit_report_spec(
                    self.parts().0,
                    self.parts().1,
                    self.parts().2,
                    self.parts().3,
                    t,
                ),
    {
        let t = match unix_time_secs() {
            Some(t) => t,
            None => 0,
        };
        let r = self.audit_report_at(t);
        assert(r@ == audit_report_spec(self.parts().0, self.parts().1, self.parts().2, self.parts().3, t));
        r
    }

    /// The audit report generated at time `generated`.
    pub fn audit_report_at(&self, generated: u64) -> (res: String)
        ensures
            res@ == audit_report_spec(self.parts().0, self.parts().1, self.parts().2, self.parts().3, generated),
    {
        let mut report = owned("=== SECURITY AUDIT REPORT ===\n\n");
        report.append("Generated: ");
        push_decimal_then(&mut report, generated, "\n\n");
        report.append("## ARCHITECTURE OVERVIEW\n");
        report.append(self.security_docs.architecture_overview.as_str());
        report.append("\n\n");
        report.append("## CRYPTOGRAPHIC PRIMITIVES\n");
        push_primitives(&mut report, &self.security_docs.cryptographic_primitives);
        report.append("## THREAT MODEL\n");
        report.append("### Threat Actors\n");
        push_actors(&mut report, &self.threat_model.threat_actors);
        report.append("\n");
        report.append("### Assets\n");
        push_assets(&mut report, &self.threat_model.assets);
        report.append("\n");
        report.append("## SECURITY CONTROLS\n");
        report.append("### Preventive Controls\n");
        push_controls(&mut report, &self.security_controls.preventive_controls);
        report.append("\n");
        report.append("## AUDIT CHECKLIST\n");
        push_items(&mut report, &self.audit_checklist.audit_items, &self.audit_checklist.completion_status);
        report.append("\n");
        report.append("## RISK ASSESSMENT\n");
        report.append("Overall Risk Level: ");
        report.append(self.threat_model.risk_assessment.overall_risk_level.as_str());
        report.append("\n");
        report.append("\nHigh Risks:\n");
        push_risks(&mut report, &self.threat_model.risk_assessment.high_risks);
        report.append("\n");
        report
    }

    /// Validates the implementation: primitives below 128 bits are critical
    /// and fail the validation; known vulnerabilities, controls not
    /// implemented and an incomplete checklist are warnings; controls rated
    /// below 7 get a recommendation.
    pub fn validate_security_implementation(&self) -> (res: Result<SecurityValidationResult, crate::error::PrivacyError>)
        ensures
            res matches Ok(v) && {
                &&& v.overall_status@ == overall_status_spec(self.parts().0.cryptographic_primitives@)
                &&& string_views(v.critical_issues@) == critical_issues_spec(
                    self.parts().0.cryptographic_primitives@,
                )
                &&& string_views(v.warnings@) == warnings_spec(self.parts().0, self.parts().2, self.parts().3)
                &&& string_views(v.recommendations@) == recommendations_spec(self.parts().2.preventive_controls@)
                &&& v.validation_items@.len() == 0
            },
    {
        let prims = &self.security_docs.cryptographic_primitives;
        let ghost ps = prims@;
        let mut critical_issues: Vec<String> = Vec::new();
        let mut warnings: Vec<String> = Vec::new();
        let mut i: usize = 0;
        while i < prims.len()
            invariant
                ps == prims@,
                i <= ps.len(),
                string_views(critical_issues@) == critical_issues_spec(ps.take(i as int)),
                string_views(warnings@) == primitive_warnings_spec(ps.take(i as int)),
            decreases ps.len() - i,
        {
            let p = &prims[i];
            proof {
                assert(ps.take(i + 1).drop_last() =~= ps.take(i as int));
                assert(ps.take(i + 1).last() == ps[i as int]);
            }
            if p.security_level < 128 {
                let mut msg = owned("Insufficient security level for ");
                msg.append(p.name.as_str());
                msg.append(": ");
                push_decimal_then(&mut msg, p.security_level as u64, " bits");
                critical_issues.push(msg);
                proof {
                    assert(string_views(critical_issues@) =~= critical_issues_spec(ps.take(i as int)).push(
                        weak_primitive_issue(ps[i as int]),
                    ));
                }
            }
            if p.known_vulnerabilities.len() != 0 {
                let mut msg = owned("Known vulnerabilities in ");
                msg.append(p.name.as_str());
                msg.append(": ");
                let list = debug_string_list(&p.known_vulnerabilities);
                msg.append(list.as_str());
                warnings.push(msg);
                proof {
                    assert(string_views(warnings@) =~= primitive_warnings_spec(ps.take(i as int)).push(
                        vulnerability_warning(ps[i as int]),
                    ));
                }
            }
            i = i + 1;
        }
        assert(ps.take(ps.len() as int) =~= ps);
        let controls = &self.security_controls.preventive_controls;
        let ghost cs = controls@;
        let ghost prim_warnings = string_views(warnings@);
        let mut recommendations: Vec<String> = Vec::new();
        let mut j: usize = 0;
        while j < controls.len()
            invariant
                cs == controls@,
                j <= cs.len(),
                string_views(warnings@) == prim_warnings + control_warnings_spec(cs.take(j as int)),
                string_views(recommendations@) == recommendations_spec(cs.take(j as int)),
            decreases cs.len() - j,
        {
            let c = &controls[j];
            proof {
                assert(cs.take(j + 1).drop_last() =~= cs.take(j as int));
                assert(cs.take(j + 1).last() == cs[j as int]);
            }
            if !str_equal(c.implementation_status.as_str(), "IMPLEMENTED") {
                let mut msg = owned("Control ");
                msg.append(c.control_name.as_str());
                msg.append(" not fully implemented: ");
                msg.append(c.implementation_status.as_str());
                let ghost old_w = string_views(warnings@);
                let ghost m = msg@;
                warnings.push(msg);
                proof {
                    assert(m == control_warning(cs[j as int]));
                    assert(string_views(warnings@) =~= old_w.push(m));
                    assert(old_w.push(m) =~= prim_warnings + control_warnings_spec(cs.take(j as int)).push(m));
                }
            }
            if c.effectiveness_rating < 7 {
                let mut msg = owned("Improve effectiveness of control ");
                msg.append(c.control_name.as_str());
                msg.append(": current rating ");
                push_decimal(&mut msg, c.effectiveness_rating as u64);
                recommendations.push(msg);
                proof {
                    assert(string_views(recommendations@) =~= recommendations_spec(cs.take(j as int)).push(
                        control_recommendation(cs[j as int]),
                    ));
                }
            }
            j = j + 1;
        }
        assert(cs.take(cs.len() as int) =~= cs);
        let total_items = self.audit_checklist.audit_items.len();
        let completed_items = count_completed(&self.audit_checklist.completion_status);
        if completed_items < total_items {
            let mut msg = owned("Audit checklist incomplete: ");
            push_decimal_then(&mut msg, completed_items as u64, "/");
            push_decimal_then(&mut msg, total_items as u64, " items completed");
            warnings.push(msg);
        }
        let overall_status = if critical_issues.len() == 0 {
            owned("PASS")
        } else {
            owned("FAIL")
        };
        Ok(SecurityValidationResult {
            overall_status,
            validation_items: Vec::new(),
            critical_issues,
            warnings,
            recommendations,
        })
    }

    /// The built-in security documentation: three primitives
    /// (ChaCha20Poly1305 at 256 bits, Pedersen commitments and STARK proofs
    /// at 128), two assumptions, two attack vectors, two mitigations.
    fn create_security_documentation() -> (res: SecurityDocumentation)
        ensures
            builtin_documentation_ok(res),
    {
        let mut cryptographic_primitives: Vec<CryptographicPrimitive> = Vec::new();
        cryptographic_primitives.push(CryptographicPrimitive {
            name: owned("ChaCha20Poly1305"),
            primitive_type: owned("AEAD Encryption"),
            security_level: 256,
            implementation_details: owned("Used for address and timestamp encryption with 256-bit keys, 96-bit nonces, and 128-bit authentication tags"),
            known_vulnerabilities: Vec::new(),
            mitigation_measures: strings2("Proper nonce generation", "Key management"),
        });
        cryptographic_primitives.push(CryptographicPrimitive {
            name: owned("Pedersen Commitments"),
            primitive_type: owned("Commitment Scheme"),
            security_level: 128,
            implementation_details: owned("Used for amount commitments with cryptographically secure blinding factors"),
            known_vulnerabilities: Vec::new(),
            mitigation_measures: strings2("Secure random generation", "Proper commitment verification"),
        });
        cryptographic_primitives.push(CryptographicPrimitive {
            name: owned("STARK Proofs"),
            primitive_type: owned("Zero-Knowledge Proof"),
            security_level: 128,
            implementation_details: owned("Used for transaction validity, amount range, and balance consistency proofs"),
            known_vulnerabilities: Vec::new(),
            mitigation_measures: strings2("Proper constraint systems", "Secure proof generation"),
        });
        let mut security_assumptions: Vec<SecurityAssumption> = Vec::new();
        security_assumptions.push(SecurityAssumption {
            assumption_id: owned("crypto_assumption_1"),
            description: owned("ChaCha20Poly1305 provides authenticated encryption"),
            assumption_type: owned("Cryptographic"),
            risk_level: owned("Low"),
            validation_method: owned("Cryptographic analysis"),
        });
        security_assumptions.push(SecurityAssumption {
            assumption_id: owned("stark_assumption_1"),
            description: owned("STARK proofs provide soundness and completeness"),
            assumption_type: owned("Zero-Knowledge"),
            risk_level: owned("Low"),
            validation_method: owned("Formal verification"),
        });
        let mut attack_vectors: Vec<AttackVector> = Vec::new();
        attack_vectors.push(AttackVector {
            attack_id: owned("attack_1"),
            attack_name: owned("Timing Attack"),
            description: owned("Attacker attempts to infer private information from timing patterns"),
            category: owned("Side-Channel"),
            likelihood: owned("Medium"),
            impact: owned("Medium"),
            mitigation_status: owned("MITIGATED"),
        });
        attack_vectors.push(AttackVector {
            attack_id: owned("attack_2"),
            attack_name: owned("Cryptographic Attack"),
            description: owned("Attacker attempts to break cryptographic primitives"),
            category: owned("Cryptographic"),
            likelihood: owned("Low"),
            impact: owned("High"),
            mitigation_status: owned("MITIGATED"),
        });
        let mut mitigation_strategies: Vec<MitigationStrategy> = Vec::new();
        mitigation_strategies.push(MitigationStrategy {
            strategy_id: owned("mitigation_1"),
            strategy_name: owned("Constant-Time Operations"),
            description: owned("Use constant-time cryptographic operations to prevent timing attacks"),
            implementation_status: owned("IMPLEMENTED"),
            effectiveness_rating: 9,
        });
        mitigation_strategies.push(MitigationStrategy {
            strategy_id: owned("mitigation_2"),
            strategy_name: owned("Secure Random Generation"),
            description: owned("Use cryptographically secure random number generation"),
            implementation_status: owned("IMPLEMENTED"),
            effectiveness_rating: 10,
        });
        SecurityDocumentation {
            architecture_overview: owned("zkC0DL3 implements elite-level privacy features with maximum privacy-by-default. The system uses production-grade STARK proofs, ChaCha20Poly1305 encryption, and Pedersen commitments to provide comprehensive user-level privacy protection."),
            cryptographic_primitives,
            security_assumptions,
            attack_vectors,
            mitigation_strategies,
        }
    }

    /// The built-in threat model: two actors, two assets, one scenario, and
    /// an overall low risk with no high risks.
    fn create_threat_model() -> (res: ThreatModel)
        ensures
            res.threat_actors@.len() == 2,
            res.threat_actors@[0].threat_level == 6,
            res.threat_actors@[1].threat_level == 8,
            res.assets@.len() == 2,
            res.assets@[0].criticality_level == 10,
            res.assets@[1].criticality_level == 9,
            res.threat_scenarios@.len() == 1,
            res.risk_assessment.overall_risk_level@ == "Low"@,
            res.risk_assessment.high_risks@.len() == 0,
            res.risk_assessment.medium_risks@.len() == 1,
            res.risk_assessment.low_risks@.len() == 1,
    {
        let mut threat_actors: Vec<ThreatActor> = Vec::new();
        threat_actors.push(ThreatActor {
            actor_id: owned("actor_1"),
            actor_name: owned("Malicious User"),
            actor_type: owned("Internal"),
            capabilities: strings2("Transaction submission", "Network access"),
            motivation: owned("Financial gain through privacy violation"),
            threat_level: 6,
        });
        threat_actors.push(ThreatActor {
            actor_id: owned("actor_2"),
            actor_name: owned("External Attacker"),
            actor_type: owned("External"),
            capabilities: strings2("Network monitoring", "Cryptographic attacks"),
            motivation: owned("Privacy violation and data theft"),
            threat_level: 8,
        });
        let mut assets: Vec<Asset> = Vec::new();
        assets.push(Asset {
            asset_id: owned("asset_1"),
            asset_name: owned("Transaction Amounts"),
            asset_type: owned("Data"),
            criticality_level: 10,
            protection_requirements: strings2("Confidentiality", "Integrity"),
        });
        assets.push(Asset {
            asset_id: owned("asset_2"),
            asset_name: owned("User Addresses"),
            asset_type: owned("Data"),
            criticality_level: 9,
            protection_requirements: strings2("Confidentiality", "Anonymity"),
        });
        let mut attack_steps = strings2("Monitor network traffic", "Analyze transaction patterns");
        attack_steps.push(owned("Attempt to break encryption"));
        let mut threat_scenarios: Vec<ThreatScenario> = Vec::new();
        threat_scenarios.push(ThreatScenario {
            scenario_id: owned("scenario_1"),
            scenario_name: owned("Privacy Violation"),
            description: owned("Attacker attempts to de-anonymize users or reveal transaction amounts"),
            attack_steps,
            likelihood: owned("Low"),
            impact: owned("High"),
            risk_level: owned("Medium"),
        });
        let mut medium_risks: Vec<String> = Vec::new();
        medium_risks.push(owned("Privacy violation through timing attacks"));
        let mut low_risks: Vec<String> = Vec::new();
        low_risks.push(owned("Cryptographic attacks on primitives"));
        let risk_assessment = RiskAssessment {
            overall_risk_level: owned("Low"),
            high_risks: Vec::new(),
            medium_risks,
            low_risks,
            risk_mitigation_status: owned("MITIGATED"),
        };
        ThreatModel { threat_actors, assets, threat_scenarios, risk_assessment }
    }

    /// The built-in controls: two preventive (rated 9 and 10), one detective
    /// (8) and one corrective (7), all implemented.
    fn create_security_controls() -> (res: SecurityControls)
        ensures
            res.preventive_controls@.len() == 2,
            res.detective_controls@.len() == 1,
            res.corrective_controls@.len() == 1,
            res.preventive_controls@[0].effectiveness_rating == 9,
            res.preventive_controls@[1].effectiveness_rating == 10,
            res.detective_controls@[0].effectiveness_rating == 8,
            res.corrective_controls@[0].effectiveness_rating == 7,
            forall|i: int|
                0 <= i < 2 ==> (#[trigger] res.preventive_controls@[i]).implementation_status@ == "IMPLEMENTED"@,
            res.control_effectiveness@.len() == 0,
    {
        let mut preventive_controls: Vec<SecurityControl> = Vec::new();
        preventive_controls.push(control(
            "control_1",
            "Encryption",
            "Preventive",
            "Encrypt all sensitive data using ChaCha20Poly1305",
            9,
        ));
        preventive_controls.push(control(
            "control_2",
            "Zero-Knowledge Proofs",
            "Preventive",
            "Use STARK proofs to verify transactions without revealing private information",
            10,
        ));
        let mut detective_controls: Vec<SecurityControl> = Vec::new();
        detective_controls.push(control(
            "control_3",
            "Audit Logging",
            "Detective",
            "Log all privacy-related operations for audit purposes",
            8,
        ));
        let mut corrective_controls: Vec<SecurityControl> = Vec::new();
        corrective_controls.push(control(
            "control_4",
            "Incident Response",
            "Corrective",
            "Respond to privacy violations and security incidents",
            7,
        ));
        SecurityControls {
            preventive_controls,
            detective_controls,
            corrective_controls,
            control_effectiveness: Vec::new(),
        }
    }

    /// The built-in checklist: three completed items, each marked complete
    /// in the completion list.
    fn create_audit_checklist() -> (res: AuditChecklist)
        ensures
            res.audit_items@.len() == 3,
            res.completion_status@.len() == 3,
            forall|i: int|
                0 <= i < 3 ==> (#[trigger] res.completion_status@[i]).0@ == res.audit_items@[i].item_id@
                    && res.completion_status@[i].1 == (res.audit_items@[i].status@ == "COMPLETED"@),
            forall|i: int| 0 <= i < 3 ==> (#[trigger] res.audit_items@[i]).status@ == "COMPLETED"@,
            res.audit_findings@.len() == 0,
    {
        let mut audit_items: Vec<AuditItem> = Vec::new();
        audit_items.push(audit_item(
            "audit_1",
            "Cryptography",
            "Verify ChaCha20Poly1305 implementation",
            "Code review and testing",
        ));
        audit_items.push(audit_item(
            "audit_2",
            "Zero-Knowledge Proofs",
            "Verify STARK proof implementation",
            "Formal verification",
        ));
        audit_items.push(audit_item("audit_3", "Privacy", "Verify privacy guarantees", "Privacy analysis"));
        let mut completion_status: Vec<(String, bool)> = Vec::new();
        let mut i: usize = 0;
        while i < audit_items.len()
            invariant
                i <= audit_items@.len(),
                audit_items@.len() == 3,
                forall|k: int| 0 <= k < 3 ==> (#[trigger] audit_items@[k]).status@ == "COMPLETED"@,
                completion_status@.len() == i,
                forall|k: int|
                    0 <= k < i ==> (#[trigger] completion_status@[k]).0@ == audit_items@[k].item_id@
                        && completion_status@[k].1 == (audit_items@[k].status@ == "COMPLETED"@),
            decreases audit_items@.len() - i,
        {
            let item = &audit_items[i];
            let done = str_equal(item.status.as_str(), "COMPLETED");
            completion_status.push((item.item_id.clone(), done));
            i = i + 1;
        }
        AuditChecklist { audit_items, completion_status, audit_findings: Vec::new() }
    }
}

/// Two strings from literals.
fn strings2(a: &str, b: &str) -> (res: Vec<String>)
    ensures
        res@.len() == 2,
        res@[0]@ == a@,
        res@[1]@ == b@,
{
    let mut v: Vec<String> = Vec::new();
    v.push(owned(a));
    v.push(owned(b));
    v
}

/// An implemented control.
fn control(id: &str, name: &str, control_type: &str, description: &str, rating: u8) -> (res: SecurityControl)
    ensures
        res.control_id@ == id@,
        res.control_name@ == name@,
        res.control_type@ == control_type@,
        res.description@ == description@,
        res.implementation_status@ == "IMPLEMENTED"@,
        res.effectiveness_rating == rating,
{
    SecurityControl {
        control_id: owned(id),
        control_name: owned(name),
        control_type: owned(control_type),
        description: owned(description),
        implementation_status: owned("IMPLEMENTED"),
        effectiveness_rating: rating,
    }
}

/// A completed, high-criticality audit item.
fn audit_item(id: &str, category: &str, description: &str, method: &str) -> (res: AuditItem)
    ensures
        res.item_id@ == id@,
        res.category@ == category@,
        res.description@ == description@,
        res.criticality_level@ == "High"@,
        res.verification_method@ == method@,
        res.status@ == "COMPLETED"@,
{
    AuditItem {
        item_id: owned(id),
        category: owned(category),
        description: owned(description),
        criticality_level: owned("High"),
        verification_method: owned(method),
        status: owned("COMPLETED"),
    }
}

/// The number of completed entries.
fn count_completed(pairs: &Vec<(String, bool)>) -> (res: usize)
    ensures
        res == completed_count(pairs@),
{
    let ghost ps = pairs@;
    let mut n: usize = 0;
    let mut i: usize = 0;
    while i < pairs.len()
        invariant
            ps == pairs@,
            i <= ps.len(),
            n == completed_count(ps.take(i as int)),
            n <= i,
        decreases ps.len() - i,
    {
        proof {
            assert(ps.take(i + 1).drop_last() =~= ps.take(i as int));
        }
        if pairs[i].1 {
            n = n + 1;
        }
        i = i + 1;
    }
    assert(ps.take(ps.len() as int) =~= ps);
    n
}

/// The completion of an item: the first pair with its identifier decides.
fn lookup_status(pairs: &Vec<(String, bool)>, key: &str) -> (res: bool)
    ensures
        res == status_of(pairs@, key@),
{
    let ghost ps = pairs@;
    let mut i: usize = 0;
    assert(ps.skip(0) =~= ps);
    while i < pairs.len()
        invariant
            ps == pairs@,
            i <= ps.len(),
            status_of(ps, key@) == status_of(ps.skip(i as int), key@),
        decreases ps.len() - i,
    {
        if str_equal(pairs[i].0.as_str(), key) {
            return pairs[i].1;
        }
        proof {
            assert(ps.skip(i as int).drop_first() =~= ps.skip(i + 1));
        }
        i = i + 1;
    }
    false
}

/// Appends the report entries of the primitives.
fn push_primitives(s: &mut String, prims: &Vec<CryptographicPrimitive>)
    ensures
        final(s)@ == old(s)@ + join_all(prims@.map_values(|p: CryptographicPrimitive| primitive_entry(p))),
{
    let ghost start = s@;
    let ghost es = prims@.map_values(|p: CryptographicPrimitive| primitive_entry(p));
    let mut i: usize = 0;
    while i < prims.len()
        invariant
            i <= prims@.len(),
            es == prims@.map_values(|p: CryptographicPrimitive| primitive_entry(p)),
            s@ == start + join_all(es.take(i as int)),
        decreases prims@.len() - i,
    {
        let p = &prims[i];
        s.append("### ");
        s.append(p.name.as_str());
        s.append("\n");
        s.append("Type: ");
        s.append(p.primitive_type.as_str());
        s.append("\n");
        s.append("Security Level: ");
        push_decimal_then(s, p.security_level as u64, " bits\n");
        s.append("Implementation: ");
        s.append(p.implementation_details.as_str());
        s.append("\n");
        s.append("\n");
        proof {
            assert(es.take(i + 1) =~= es.take(i as int).push(es[i as int]));
            lemma_join_all_push(es.take(i as int), es[i as int]);
        }
        i = i + 1;
    }
    assert(es.take(prims@.len() as int) =~= es);
}

/// Appends the report entries of the threat actors.
fn push_actors(s: &mut String, actors: &Vec<ThreatActor>)
    ensures
        final(s)@ == old(s)@ + join_all(actors@.map_values(|a: ThreatActor| actor_entry(a))),
{
    let ghost start = s@;
    let ghost es = actors@.map_values(|a: ThreatActor| actor_entry(a));
    let mut i: usize = 0;
    while i < actors.len()
        invariant
            i <= actors@.len(),
            es == actors@.map_values(|a: ThreatActor| actor_entry(a)),
            s@ == start + join_all(es.take(i as int)),
        decreases actors@.len() - i,
    {
        let a = &actors[i];
        s.append("- ");
        s.append(a.actor_name.as_str());
        s.append(" (");
        s.append(a.actor_type.as_str());
        s.append("): ");
        s.append(a.motivation.as_str());
        s.append("\n");
        proof {
            assert(es.take(i + 1) =~= es.take(i as int).push(es[i as int]));
            lemma_join_all_push(es.take(i as int), es[i as int]);
        }
        i = i + 1;
    }
    assert(es.take(actors@.len() as int) =~= es);
}

/// Appends the report entries of the assets.
fn push_assets(s: &mut String, assets: &Vec<Asset>)
    ensures
        final(s)@ == old(s)@ + join_all(assets@.map_values(|a: Asset| asset_entry(a))),
{
    let ghost start = s@;
    let ghost es = assets@.map_values(|a: Asset| asset_entry(a));
    let mut i: usize = 0;
    while i < assets.len()
        invariant
            i <= assets@.len(),
            es == assets@.map_values(|a: Asset| asset_entry(a)),
            s@ == start + join_all(es.take(i as int)),
        decreases assets@.len() - i,
    {
        let a = &assets[i];
        s.append("- ");
        s.append(a.asset_name.as_str());
        s.append(" (");
        s.append(a.asset_type.as_str());
        s.append("): Criticality ");
        push_decimal_then(s, a.criticality_level as u64, "\n");
        proof {
            assert(es.take(i + 1) =~= es.take(i as int).push(es[i as int]));
            lemma_join_all_push(es.take(i as int), es[i as int]);
        }
        i = i + 1;
    }
    assert(es.take(assets@.len() as int) =~= es);
}

/// Appends the report entries of the controls.
fn push_controls(s: &mut String, controls: &Vec<SecurityControl>)
    ensures
        final(s)@ == old(s)@ + join_all(controls@.map_values(|c: SecurityControl| control_entry(c))),
{
    let ghost start = s@;
    let ghost es = controls@.map_values(|c: SecurityControl| control_entry(c));
    let mut i: usize = 0;
    while i < controls.len()
        invariant
            i <= controls@.len(),
            es == controls@.map_values(|c: SecurityControl| control_entry(c)),
            s@ == start + join_all(es.take(i as int)),
        decreases controls@.len() - i,
    {
        let c = &controls[i];
        s.append("- ");
        s.append(c.control_name.as_str());
        s.append(": ");
        s.append(c.description.as_str());
        s.append("\n");
        proof {
            assert(es.take(i + 1) =~= es.take(i as int).push(es[i as int]));
            lemma_join_all_push(es.take(i as int), es[i as int]);
        }
        i = i + 1;
    }
    assert(es.take(controls@.len() as int) =~= es);
}

/// Appends the report entries of the audit items.
fn push_items(s: &mut String, items: &Vec<AuditItem>, statuses: &Vec<(String, bool)>)
    ensures
        final(s)@ == old(s)@ + join_all(item_entries(items@, statuses@)),
{
    let ghost start = s@;
    let ghost es = item_entries(items@, statuses@);
    let mut i: usize = 0;
    while i < items.len()
        invariant
            i <= items@.len(),
            es == item_entries(items@, statuses@),
            s@ == start + join_all(es.take(i as int)),
        decreases items@.len() - i,
    {
        let item = &items[i];
        let done = lookup_status(statuses, item.item_id.as_str());
        s.append("- [");
        if done {
            s.append("x");
        } else {
            s.append(" ");
        }
        s.append("] ");
        s.append(item.description.as_str());
        s.append(": ");
        s.append(item.category.as_str());
        s.append("\n");
        proof {
            assert(es.take(i + 1) =~= es.take(i as int).push(es[i as int]));
            lemma_join_all_push(es.take(i as int), es[i as int]);
        }
        i = i + 1;
    }
    assert(es.take(items@.len() as int) =~= es);
}

/// Appends the report entries of the risks.
fn push_risks(s: &mut String, risks: &Vec<String>)
    ensures
        final(s)@ == old(s)@ + join_all(string_views(risks@).map_values(|r: Seq<char>| risk_entry(r))),
{
    let ghost start = s@;
    let ghost es = string_views(risks@).map_values(|r: Seq<char>| risk_entry(r));
    let mut i: usize = 0;
    while i < risks.len()
        invariant
            i <= risks@.len(),
            es == string_views(risks@).map_values(|r: Seq<char>| risk_entry(r)),
            s@ == start + join_all(es.take(i as int)),
        decreases risks@.len() - i,
    {
        s.append("- ");
        s.append(risks[i].as_str());
        s.append("\n");
        proof {
            assert(es.take(i + 1) =~= es.take(i as int).push(es[i as int]));
            lemma_join_all_push(es.take(i as int), es[i as int]);
        }
        i = i + 1;
    }
    assert(es.take(risks@.len() as int) =~= es);
}

/// The security metrics: counts of primitives, controls, risks and audit
/// items.
#[derive(Debug, Clone, Copy, PartialEq, Eq, Structural)]
pub struct SecurityMetrics {
    /// Cryptographic primitives.
    pub total_cryptographic_primitives: usize,
    /// Security controls of all three kinds.
    pub total_security_controls: usize,
    /// Controls whose status is `IMPLEMENTED`.
    pub implemented_controls: usize,
    /// High risks.
    pub high_risks: usize,
    /// Medium risks.
    pub medium_risks: usize,
    /// Low risks.
    pub low_risks: usize,
    /// Completed audit items.
    pub audit_items_completed: usize,
    /// Audit items.
    pub total_audit_items: usize,
}

/// The number of controls whose status is `IMPLEMENTED`.
pub open spec fn implemented_count(cs: Seq<SecurityControl>) -> nat
    decreases cs.len(),
{
    if cs.len() == 0 {
        0
    } else {
        implemented_count(cs.drop_last()) + if cs.last().implementation_status@ == "IMPLEMENTED"@ {
            1nat
        } else {
            0nat
        }
    }
}

/// The number of controls whose status is `IMPLEMENTED`.
fn count_implemented(cs: &Vec<SecurityControl>) -> (res: usize)
    ensures
        res == implemented_count(cs@),
        res <= cs@.len(),
{
    let ghost s = cs@;
    let mut n: usize = 0;
    let mut i: usize = 0;
    while i < cs.len()
        invariant
            s == cs@,
            i <= s.len(),
            n == implemented_count(s.take(i as int)),
            n <= i,
        decreases s.len() - i,
    {
        proof {
            assert(s.take(i + 1).drop_last() =~= s.take(i as int));
        }
        if str_equal(cs[i].implementation_status.as_str(), "IMPLEMENTED") {
            n = n + 1;
        }
        i = i + 1;
    }
    assert(s.take(s.len() as int) =~= s);
    n
}

impl SecurityAuditPrep {
    /// The security metrics of the documentation, controls, threat model
    /// and checklist.
    pub fn get_security_metrics(&self) -> (res: SecurityMetrics)
        requires
            self.parts().2.preventive_controls@.len() + self.parts().2.detective_controls@.len()
                + self.parts().2.corrective_controls@.len() <= usize::MAX,
        ensures
            res.total_cryptographic_primitives == self.parts().0.cryptographic_primitives@.len(),
            res.total_security_controls == self.parts().2.preventive_controls@.len()
                + self.parts().2.detective_controls@.len() + self.parts().2.corrective_controls@.len(),
            res.implemented_controls == implemented_count(self.parts().2.preventive_controls@) + implemented_count(
                self.parts().2.detective_controls@,
            ) + implemented_count(self.parts().2.corrective_controls@),
            res.high_risks == self.parts().1.risk_assessment.high_risks@.len(),
            res.medium_risks == self.parts().1.risk_assessment.medium_risks@.len(),
            res.low_risks == self.parts().1.risk_assessment.low_risks@.len(),
            res.audit_items_completed == completed_count(self.parts().3.completion_status@),
            res.total_audit_items == self.parts().3.audit_items@.len(),
            res.implemented_controls <= res.total_security_controls,
    {
        let controls = &self.security_controls;
        let total_controls = controls.preventive_controls.len() + controls.detective_controls.len()
            + controls.corrective_controls.len();
        let implemented_controls = count_implemented(&controls.preventive_controls) + count_implemented(
            &controls.detective_controls,
        ) + count_implemented(&controls.corrective_controls);
        SecurityMetrics {
            total_cryptographic_primitives: self.security_docs.cryptographic_primitives.len(),
            total_security_controls: total_controls,
            implemented_controls,
            high_risks: self.threat_model.risk_assessment.high_risks.len(),
            medium_risks: self.threat_model.risk_assessment.medium_risks.len(),
            low_risks: self.threat_model.risk_assessment.low_risks.len(),
            audit_items_completed: count_completed(&self.audit_checklist.completion_status),
            total_audit_items: self.audit_checklist.audit_items.len(),
        }
    }
}

} // verus!
