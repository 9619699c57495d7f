//! Pattern-based vulnerability scanning of contract source text, with risk
//! metrics, an overall security score and remediation advice.
//!
//! The quantities that are fractions (attack surface, exploitability, impact and
//! the score itself) are kept as exact ratios of integers.
use std::collections::HashMap;
use vstd::prelude::*;
use vstd::string::*;

use crate::text::{contains_bytes, mentions, occurs_at, str_contains};

pub mod security_tests;

verus! {

/// The kinds of weakness the scanner looks for.
#[derive(Debug, Clone, Copy, PartialEq, Eq, Structural)]
pub enum VulnerabilityType {
    IntegerOverflow,
    Reentrancy,
    AccessControlBypass,
    FrontRunning,
    DenialOfService,
    LogicError,
    GasLimitExceeded,
    UnauthorizedTransfer,
    DoubleSpending,
    TimestampDependency,
    RandomnessWeakness,
    ExternalCallManipulation,
}

/// How serious a finding is, from least to most.
#[derive(Debug, Clone, Copy, PartialEq, Eq, PartialOrd, Ord, Structural)]
pub enum Severity {
    Low,
    Medium,
    High,
    Critical,
}

/// One finding of the scanner.
#[derive(Debug, Clone)]
pub struct Vulnerability {
    pub vulnerability_type: VulnerabilityType,
    pub severity: Severity,
    pub description: String,
    pub location: String,
    pub recommendation: String,
}

/// The mathematical content of a [`Vulnerability`]: its texts as character sequences.
pub struct VulnerabilityView {
    pub vulnerability_type: VulnerabilityType,
    pub severity: Severity,
    pub description: Seq<char>,
    pub location: Seq<char>,
    pub recommendation: Seq<char>,
}

impl View for Vulnerability {
    type V = VulnerabilityView;

    open spec fn view(&self) -> VulnerabilityView {
        VulnerabilityView {
            vulnerability_type: self.vulnerability_type,
            severity: self.severity,
            description: self.description@,
            location: self.location@,
            recommendation: self.recommendation@,
        }
    }
}

/// The views of a sequence of findings.
pub open spec fn views(s: Seq<Vulnerability>) -> Seq<VulnerabilityView> {
    s.map_values(|v: Vulnerability| v@)
}

/// The character sequences of a sequence of strings.
pub open spec fn texts(s: Seq<String>) -> Seq<Seq<char>> {
    s.map_values(|t: String| t@)
}

/// A non-negative fraction `numer / denom`; `denom` is never zero in values
/// produced by this module.
#[derive(Debug, Clone, Copy, PartialEq, Eq, Structural)]
pub struct Ratio {
    pub numer: u128,
    pub denom: u128,
}

/// Counts of findings by severity, and the derived risk ratios (each between 0 and 1).
#[derive(Debug, Clone, Copy, PartialEq, Eq, Structural)]
pub struct RiskMetrics {
    pub total_vulnerabilities: usize,
    pub critical_count: usize,
    pub high_count: usize,
    pub medium_count: usize,
    pub low_count: usize,
    pub attack_surface: Ratio,
    pub exploitability: Ratio,
    pub impact_score: Ratio,
}

/// Everything one analysis reports.
#[derive(Debug, Clone)]
pub struct SecurityAnalysisResult {
    pub vulnerabilities: Vec<Vulnerability>,
    pub security_score: Ratio,
    pub risk_metrics: RiskMetrics,
    pub recommendations: Vec<String>,
}

/// The scanner. `vulnerabilities` holds the findings of the latest analysis.
pub struct SecurityAnalyzer {
    pub vulnerabilities: Vec<Vulnerability>,
    pub test_results: HashMap<String, bool>,
}

// ---------------------------------------------------------------------------
// What each check reports
// ---------------------------------------------------------------------------

/// A finding with the given contents.
pub open spec fn finding(
    ty: VulnerabilityType,
    severity: Severity,
    description: Seq<char>,
    location: Seq<char>,
    recommendation: Seq<char>,
) -> VulnerabilityView {
    VulnerabilityView { vulnerability_type: ty, severity, description, location, recommendation }
}

/// The single finding `f` when `cond` holds, nothing otherwise.
pub open spec fn when(cond: bool, f: VulnerabilityView) -> Seq<VulnerabilityView> {
    if cond {
        seq![f]
    } else {
        Seq::empty()
    }
}

/// The arithmetic patterns that suggest unchecked overflow, in the order they are tried.
pub open spec fn overflow_patterns() -> Seq<&'static str> {
    seq!["unchecked_add", "unchecked_mul", "unchecked_sub", "a + b", "a * b", "a - b"]
}

/// The overflow finding for one pattern: reported when the pattern occurs and
/// `checked_` occurs nowhere in the code.
pub open spec fn overflow_finding(code: &str, pattern: &str) -> Seq<VulnerabilityView> {
    when(
        mentions(code, pattern) && !mentions(code, "checked_"),
        finding(
            VulnerabilityType::IntegerOverflow,
            Severity::High,
            "Potential integer overflow detected in pattern: "@ + pattern@,
            "Arithmetic operation"@,
            "Use checked arithmetic operations (checked_add, checked_mul, checked_sub)"@,
        ),
    )
}

/// Overflow findings for the first `k` patterns.
pub open spec fn overflow_findings_upto(code: &str, k: int) -> Seq<VulnerabilityView>
    decreases k,
{
    if k <= 0 {
        Seq::empty()
    } else {
        overflow_findings_upto(code, k - 1) + overflow_finding(code, overflow_patterns()[k - 1])
    }
}

pub open spec fn overflow_findings(code: &str) -> Seq<VulnerabilityView> {
    overflow_findings_upto(code, 6)
}

pub open spec fn reentrancy_findings(code: &str) -> Seq<VulnerabilityView> {
    when(
        mentions(code, "external_call") && !mentions(code, "reentrancy_guard"),
        finding(
            VulnerabilityType::Reentrancy,
            Severity::Critical,
            "Potential reentrancy vulnerability detected"@,
            "External call without reentrancy protection"@,
            "Implement reentrancy guards using checks-effects-interactions pattern"@,
        ),
    )
}

pub open spec fn access_control_findings(code: &str) -> Seq<VulnerabilityView> {
    when(
        mentions(code, "only_owner") && !mentions(code, "require(msg.sender == owner)"),
        finding(
            VulnerabilityType::AccessControlBypass,
            Severity::High,
            "Weak access control implementation detected"@,
            "Access control mechanism"@,
            "Implement proper access control with explicit owner checks"@,
        ),
    )
}

pub open spec fn front_running_findings(code: &str) -> Seq<VulnerabilityView> {
    when(
        mentions(code, "block.timestamp") && mentions(code, "price"),
        finding(
            VulnerabilityType::FrontRunning,
            Severity::Medium,
            "Potential front-running vulnerability due to timestamp dependency"@,
            "Price calculation"@,
            "Use commit-reveal scheme or oracle-based pricing"@,
        ),
    )
}

/// Reported when `while` occurs, or when both `for` and `push` occur.
pub open spec fn denial_of_service_findings(code: &str) -> Seq<VulnerabilityView> {
    when(
        mentions(code, "while") || (mentions(code, "for") && mentions(code, "push")),
        finding(
            VulnerabilityType::DenialOfService,
            Severity::High,
            "Potential denial of service through unbounded loops"@,
            "Loop with array operations"@,
            "Add bounds checking or use fixed-size arrays"@,
        ),
    )
}

pub open spec fn logic_error_findings(code: &str) -> Seq<VulnerabilityView> {
    when(
        mentions(code, "require") && mentions(code, "||"),
        finding(
            VulnerabilityType::LogicError,
            Severity::Medium,
            "Complex require statement may contain logic error"@,
            "Condition checking"@,
            "Simplify complex conditions and add comprehensive tests"@,
        ),
    )
}

pub open spec fn gas_limit_findings(code: &str) -> Seq<VulnerabilityView> {
    when(
        mentions(code, "for") && mentions(code, "length"),
        finding(
            VulnerabilityType::GasLimitExceeded,
            Severity::Medium,
            "Potential gas limit issue with unbounded loop"@,
            "Loop over dynamic array"@,
            "Add gas limits or use pagination for large arrays"@,
        ),
    )
}

pub open spec fn unauthorized_transfer_findings(code: &str) -> Seq<VulnerabilityView> {
    when(
        mentions(code, "transfer") && !mentions(code, "require"),
        finding(
            VulnerabilityType::UnauthorizedTransfer,
            Severity::High,
            "Transfer without proper authorization check"@,
            "Transfer function"@,
            "Add proper authorization checks before transfers"@,
        ),
    )
}

pub open spec fn double_spending_findings(code: &str) -> Seq<VulnerabilityView> {
    when(
        mentions(code, "balance") && mentions(code, "transfer") && !mentions(code, "update"),
        finding(
            VulnerabilityType::DoubleSpending,
            Severity::Critical,
            "Potential double spending vulnerability"@,
            "Balance update"@,
            "Implement proper balance updates and checks"@,
        ),
    )
}

pub open spec fn timestamp_findings(code: &str) -> Seq<VulnerabilityView> {
    when(
        mentions(code, "block.timestamp") && mentions(code, "require"),
        finding(
            VulnerabilityType::TimestampDependency,
            Severity::Low,
            "Timestamp dependency detected"@,
            "Time-based condition"@,
            "Use block number or oracle for time-sensitive operations"@,
        ),
    )
}

pub open spec fn randomness_findings(code: &str) -> Seq<VulnerabilityView> {
    when(
        mentions(code, "keccak256") && mentions(code, "block"),
        finding(
            VulnerabilityType::RandomnessWeakness,
            Severity::High,
            "Weak randomness using block variables"@,
            "Random number generation"@,
            "Use proper randomness oracle or commit-reveal scheme"@,
        ),
    )
}

pub open spec fn external_call_findings(code: &str) -> Seq<VulnerabilityView> {
    when(
        mentions(code, "call") && !mentions(code, "require"),
        finding(
            VulnerabilityType::ExternalCallManipulation,
            Severity::Medium,
            "External call without proper validation"@,
            "External call"@,
            "Add proper validation and checks for external calls"@,
        ),
    )
}

/// All findings for `code`, in the order the checks run.
pub open spec fn spec_findings(code: &str) -> Seq<VulnerabilityView> {
    overflow_findings(code) + reentrancy_findings(code) + access_control_findings(code)
        + front_running_findings(code) + denial_of_service_findings(code)
        + logic_error_findings(code) + gas_limit_findings(code)
        + unauthorized_transfer_findings(code) + double_spending_findings(code)
        + timestamp_findings(code) + randomness_findings(code) + external_call_findings(code)
}



// ---------------------------------------------------------------------------
// Metrics, score and advice
// ---------------------------------------------------------------------------

/// The number of findings of severity `sev`.
pub open spec fn count_severity(s: Seq<VulnerabilityView>, sev: Severity) -> nat
    decreases s.len(),
{
    if s.len() == 0 {
        0
    } else {
        count_severity(s.drop_last(), sev) + if s.last().severity == sev {
            1nat
        } else {
            0nat
        }
    }
}

/// The fraction `n / d`, capped at 1.
pub open spec fn capped(n: nat, d: nat) -> Ratio {
    Ratio { numer: (if n <= d { n } else { d }) as u128, denom: d as u128 }
}

/// The fraction 0.
pub open spec fn zero_ratio() -> Ratio {
    Ratio { numer: 0, denom: 1 }
}

/// Severity-weighted count: critical 4, high 3, medium 2, low 1.
pub open spec fn weighted_count(s: Seq<VulnerabilityView>) -> nat {
    4 * count_severity(s, Severity::Critical) + 3 * count_severity(s, Severity::High) + 2
        * count_severity(s, Severity::Medium) + count_severity(s, Severity::Low)
}

/// Risk metrics of a list of findings: attack surface is the count over 50,
/// exploitability the weighted count over four times the count, impact the share of
/// critical findings; each capped at 1, and 0 when there are no findings.
pub open spec fn spec_risk_metrics(s: Seq<VulnerabilityView>) -> RiskMetrics {
    let t = s.len();
    RiskMetrics {
        total_vulnerabilities: t as usize,
        critical_count: count_severity(s, Severity::Critical) as usize,
        high_count: count_severity(s, Severity::High) as usize,
        medium_count: count_severity(s, Severity::Medium) as usize,
        low_count: count_severity(s, Severity::Low) as usize,
        attack_surface: if t > 0 { capped(t, 50) } else { zero_ratio() },
        exploitability: if t > 0 { capped(weighted_count(s), 4 * t) } else { zero_ratio() },
        impact_score: if t > 0 {
            capped(count_severity(s, Severity::Critical), t)
        } else {
            zero_ratio()
        },
    }
}

/// Points deducted before weighting: 25 per critical, 15 per high, 10 per medium,
/// 5 per low finding.
pub open spec fn total_deduction(m: RiskMetrics) -> int {
    25 * m.critical_count + 15 * m.high_count + 10 * m.medium_count + 5 * m.low_count
}

/// The denominator of the exact security score: `2 * E.denom * I.denom`.
pub open spec fn score_denominator(m: RiskMetrics) -> int {
    2 * m.exploitability.denom * m.impact_score.denom
}

/// `1 + (E + I) / 2` over [`score_denominator`].
pub open spec fn score_factor(m: RiskMetrics) -> int {
    score_denominator(m) + m.exploitability.numer * m.impact_score.denom + m.impact_score.numer
        * m.exploitability.denom
}

/// The numerator of `max(0, 100 - D * (1 + (E + I) / 2))` over [`score_denominator`], for
/// deduction `D`, exploitability `E` and impact `I`.
pub open spec fn score_numerator(m: RiskMetrics) -> int {
    let n = 100 * score_denominator(m) - total_deduction(m) * score_factor(m);
    if n > 0 {
        n
    } else {
        0
    }
}

/// The security score `max(0, 100 - D * (1 + (E + I) / 2))` as an exact fraction:
/// `score_numerator / score_denominator` when positive, and `0 / 1` otherwise.
pub open spec fn spec_security_score(m: RiskMetrics) -> Ratio {
    if score_numerator(m) > 0 {
        Ratio { numer: score_numerator(m) as u128, denom: score_denominator(m) as u128 }
    } else {
        zero_ratio()
    }
}

/// The exact score fits in a `Ratio`. A deduction of 100 or more always scores 0; below
/// that, the fraction's terms must fit in 128 bits.
pub open spec fn score_representable(m: RiskMetrics) -> bool {
    total_deduction(m) < 100 ==> 100 * score_factor(m) <= u128::MAX
}

/// Some finding in `s` has type `ty`.
pub open spec fn contains_type(s: Seq<VulnerabilityView>, ty: VulnerabilityType) -> bool {
    exists|i: int| 0 <= i < s.len() && #[trigger] s[i].vulnerability_type == ty
}

/// `text` when some finding has type `ty`, nothing otherwise.
pub open spec fn advice_if(s: Seq<VulnerabilityView>, ty: VulnerabilityType, text: Seq<char>) -> Seq<
    Seq<char>,
> {
    if contains_type(s, ty) {
        seq![text]
    } else {
        Seq::empty()
    }
}

/// The advice given after every analysis.
pub open spec fn general_advice() -> Seq<Seq<char>> {
    seq![
        "Conduct comprehensive security audits before deployment"@,
        "Implement extensive test coverage including edge cases"@,
        "Use formal verification for critical contract components"@,
        "Monitor contract activity for suspicious patterns post-deployment"@,
    ]
}

/// Advice for the kinds of finding present (seven kinds have their own advice),
/// followed by the general advice.
pub open spec fn spec_recommendations(s: Seq<VulnerabilityView>) -> Seq<Seq<char>> {
    advice_if(
        s,
        VulnerabilityType::IntegerOverflow,
        "Implement proper arithmetic overflow checks using checked_* operations"@,
    ) + advice_if(
        s,
        VulnerabilityType::Reentrancy,
        "Implement reentrancy guards using checks-effects-interactions pattern"@,
    ) + advice_if(
        s,
        VulnerabilityType::AccessControlBypass,
        "Strengthen access control mechanisms with proper authorization checks"@,
    ) + advice_if(
        s,
        VulnerabilityType::FrontRunning,
        "Implement commit-reveal schemes or use oracle-based pricing"@,
    ) + advice_if(
        s,
        VulnerabilityType::DenialOfService,
        "Add bounds checking and gas limits for iterative operations"@,
    ) + advice_if(
        s,
        VulnerabilityType::DoubleSpending,
        "Implement proper state management to prevent double spending"@,
    ) + advice_if(
        s,
        VulnerabilityType::RandomnessWeakness,
        "Use secure randomness sources like Chainlink VRF or commit-reveal schemes"@,
    ) + general_advice()
}

/// Each severity count is at most the number of findings, and the four add up to it.
pub proof fn lemma_counts_sum(s: Seq<VulnerabilityView>)
    ensures
        count_severity(s, Severity::Critical) + count_severity(s, Severity::High)
            + count_severity(s, Severity::Medium) + count_severity(s, Severity::Low) == s.len(),
    decreases s.len(),
{
    if s.len() > 0 {
        lemma_counts_sum(s.drop_last());
    }
}

/// The metrics of any list of findings make the score representable: a deduction
/// below 100 means fewer than 20 findings, and so small denominators.
pub proof fn lemma_findings_score_representable(s: Seq<VulnerabilityView>)
    requires
        s.len() <= usize::MAX,
    ensures
        score_representable(spec_risk_metrics(s)),
{
    lemma_counts_sum(s);
    let m = spec_risk_metrics(s);
    let t = s.len();
    assert(total_deduction(m) >= 5 * t);
    if total_deduction(m) < 100 {
        let ed = m.exploitability.denom;
        let id = m.impact_score.denom;
        let en = m.exploitability.numer;
        let inum = m.impact_score.numer;
        assert(ed <= 80 && id <= 20 && en <= ed && inum <= id);
        assert(score_factor(m) <= 4 * 80 * 20) by (nonlinear_arith)
            requires
                score_factor(m) == 2 * ed * id + en * id + inum * ed,
                ed <= 80,
                id <= 20,
                en <= ed,
                inum <= id,
        ;
    }
}

/// At most six overflow findings, and at most one finding from each other check.
pub proof fn lemma_findings_len(code: &str)
    ensures
        spec_findings(code).len() <= 17,
{
    assert forall|k: int| 0 <= k <= 6 implies #[trigger] overflow_findings_upto(code, k).len()
        <= k by {
        lemma_overflow_len(code, k);
    }
}

proof fn lemma_overflow_len(code: &str, k: int)
    requires
        0 <= k,
    ensures
        overflow_findings_upto(code, k).len() <= k,
    decreases k,
{
    if k > 0 {
        lemma_overflow_len(code, k - 1);
    }
}

// ---------------------------------------------------------------------------
// Laws
// ---------------------------------------------------------------------------

/// The severity every finding of a given kind carries.
pub open spec fn severity_of(ty: VulnerabilityType) -> Severity {
    match ty {
        VulnerabilityType::Reentrancy | VulnerabilityType::DoubleSpending => Severity::Critical,
        VulnerabilityType::IntegerOverflow | VulnerabilityType::AccessControlBypass
        | VulnerabilityType::DenialOfService | VulnerabilityType::UnauthorizedTransfer
        | VulnerabilityType::RandomnessWeakness => Severity::High,
        VulnerabilityType::FrontRunning | VulnerabilityType::LogicError
        | VulnerabilityType::GasLimitExceeded | VulnerabilityType::ExternalCallManipulation => Severity::Medium,
        VulnerabilityType::TimestampDependency => Severity::Low,
    }
}

/// All findings in `s` carry the severity of their kind.
pub open spec fn severities_by_kind(s: Seq<VulnerabilityView>) -> bool {
    forall|i: int| 0 <= i < s.len() ==> #[trigger] s[i].severity == severity_of(s[i].vulnerability_type)
}

proof fn lemma_overflow_severities(code: &str, k: int)
    requires
        0 <= k <= 6,
    ensures
        severities_by_kind(overflow_findings_upto(code, k)),
    decreases k,
{
    if k > 0 {
        lemma_overflow_severities(code, k - 1);
    }
}

/// Every finding of a kind has the same severity: reentrancy and double spending are
/// critical; overflow, access control, denial of service, unauthorised transfer and weak
/// randomness are high; front running, logic errors, gas limits and external calls are
/// medium; timestamp dependency is low.
pub proof fn law_severity_fixed_by_kind(code: &str)
    ensures
        severities_by_kind(spec_findings(code)),
        forall|i: int|
            0 <= i < spec_findings(code).len() ==> {
                let v = #[trigger] spec_findings(code)[i];
                &&& (v.vulnerability_type == VulnerabilityType::Reentrancy
                    || v.vulnerability_type == VulnerabilityType::DoubleSpending) ==> v.severity
                    == Severity::Critical
                &&& (v.vulnerability_type == VulnerabilityType::IntegerOverflow
                    || v.vulnerability_type == VulnerabilityType::AccessControlBypass
                    || v.vulnerability_type == VulnerabilityType::DenialOfService
                    || v.vulnerability_type == VulnerabilityType::UnauthorizedTransfer
                    || v.vulnerability_type == VulnerabilityType::RandomnessWeakness) ==> v.severity
                    == Severity::High
                &&& (v.vulnerability_type == VulnerabilityType::FrontRunning
                    || v.vulnerability_type == VulnerabilityType::LogicError
                    || v.vulnerability_type == VulnerabilityType::GasLimitExceeded
                    || v.vulnerability_type == VulnerabilityType::ExternalCallManipulation)
                    ==> v.severity == Severity::Medium
                &&& v.vulnerability_type == VulnerabilityType::TimestampDependency ==> v.severity
                    == Severity::Low
            },
{
    lemma_overflow_severities(code, 6);
    let parts = check_outputs(code);
    assert forall|j: int| 0 <= j < parts.len() implies severities_by_kind(#[trigger] parts[j]) by {}
    lemma_joined_severities(parts);
    assert(joined(parts) == spec_findings(code)) by {
        reveal_with_fuel(joined, 13);
    }
}

/// What each check reports for `code`, in the order the checks run.
pub open spec fn check_outputs(code: &str) -> Seq<Seq<VulnerabilityView>> {
    seq![
        overflow_findings(code),
        reentrancy_findings(code),
        access_control_findings(code),
        front_running_findings(code),
        denial_of_service_findings(code),
        logic_error_findings(code),
        gas_limit_findings(code),
        unauthorized_transfer_findings(code),
        double_spending_findings(code),
        timestamp_findings(code),
        randomness_findings(code),
        external_call_findings(code),
    ]
}

/// The lists of `parts` joined in order.
pub open spec fn joined(parts: Seq<Seq<VulnerabilityView>>) -> Seq<VulnerabilityView>
    decreases parts.len(),
{
    if parts.len() == 0 {
        Seq::empty()
    } else {
        joined(parts.drop_last()) + parts.last()
    }
}

proof fn lemma_joined_severities(parts: Seq<Seq<VulnerabilityView>>)
    requires
        forall|j: int| 0 <= j < parts.len() ==> severities_by_kind(#[trigger] parts[j]),
    ensures
        severities_by_kind(joined(parts)),
    decreases parts.len(),
{
    if parts.len() > 0 {
        lemma_joined_severities(parts.drop_last());
        lemma_concat_severities(joined(parts.drop_last()), parts.last());
    }
}

/// Joining two lists whose findings carry the severities of their kinds gives such a list.
proof fn lemma_concat_severities(a: Seq<VulnerabilityView>, b: Seq<VulnerabilityView>)
    requires
        severities_by_kind(a),
        severities_by_kind(b),
    ensures
        severities_by_kind(a + b),
{
    assert forall|i: int| 0 <= i < (a + b).len() implies #[trigger] (a + b)[i].severity
        == severity_of((a + b)[i].vulnerability_type) by {
        if i >= a.len() {
            assert((a + b)[i] == b[i - a.len()]);
        }
    }
}

/// The advice depends only on which kinds of finding are present: two lists with the
/// same kinds get the same advice, whatever the order, multiplicity, severities or
/// texts of their findings.
pub proof fn law_advice_depends_only_on_kinds(s1: Seq<VulnerabilityView>, s2: Seq<VulnerabilityView>)
    requires
        forall|ty: VulnerabilityType| contains_type(s1, ty) == contains_type(s2, ty),
    ensures
        spec_recommendations(s1) == spec_recommendations(s2),
{
    assert(contains_type(s1, VulnerabilityType::IntegerOverflow) == contains_type(s2, VulnerabilityType::IntegerOverflow));
    assert(contains_type(s1, VulnerabilityType::Reentrancy) == contains_type(s2, VulnerabilityType::Reentrancy));
    assert(contains_type(s1, VulnerabilityType::AccessControlBypass) == contains_type(s2, VulnerabilityType::AccessControlBypass));
    assert(contains_type(s1, VulnerabilityType::FrontRunning) == contains_type(s2, VulnerabilityType::FrontRunning));
    assert(contains_type(s1, VulnerabilityType::DenialOfService) == contains_type(s2, VulnerabilityType::DenialOfService));
    assert(contains_type(s1, VulnerabilityType::DoubleSpending) == contains_type(s2, VulnerabilityType::DoubleSpending));
    assert(contains_type(s1, VulnerabilityType::RandomnessWeakness) == contains_type(s2, VulnerabilityType::RandomnessWeakness));
}

/// Every piece of advice the scanner can give, in the order it is given.
pub open spec fn advice_texts() -> Seq<Seq<char>> {
    seq![
        "Implement proper arithmetic overflow checks using checked_* operations"@,
        "Implement reentrancy guards using checks-effects-interactions pattern"@,
        "Strengthen access control mechanisms with proper authorization checks"@,
        "Implement commit-reveal schemes or use oracle-based pricing"@,
        "Add bounds checking and gas limits for iterative operations"@,
        "Implement proper state management to prevent double spending"@,
        "Use secure randomness sources like Chainlink VRF or commit-reveal schemes"@,
        "Conduct comprehensive security audits before deployment"@,
        "Implement extensive test coverage including edge cases"@,
        "Use formal verification for critical contract components"@,
        "Monitor contract activity for suspicious patterns post-deployment"@,
    ]
}

/// No piece of advice is repeated in [`advice_texts`]: no two pieces share both their
/// length and their first character.
proof fn lemma_advice_texts_distinct()
    ensures
        advice_texts().no_duplicates(),
{
    let t = advice_texts();
    reveal_strlit("Implement proper arithmetic overflow checks using checked_* operations");
    reveal_strlit("Implement reentrancy guards using checks-effects-interactions pattern");
    reveal_strlit("Strengthen access control mechanisms with proper authorization checks");
    reveal_strlit("Implement commit-reveal schemes or use oracle-based pricing");
    reveal_strlit("Add bounds checking and gas limits for iterative operations");
    reveal_strlit("Implement proper state management to prevent double spending");
    reveal_strlit("Use secure randomness sources like Chainlink VRF or commit-reveal schemes");
    reveal_strlit("Conduct comprehensive security audits before deployment");
    reveal_strlit("Implement extensive test coverage including edge cases");
    reveal_strlit("Use formal verification for critical contract components");
    reveal_strlit("Monitor contract activity for suspicious patterns post-deployment");
    assert forall|j: int, k: int| 0 <= j < k < t.len() implies t[j] != t[k] by {
        assert(t[j].len() != t[k].len() || t[j][0] != t[k][0]);
    }
}

/// The advice holds between 4 and 11 pieces, no piece twice.
#[verifier::spinoff_prover]
#[verifier::rlimit(80)]
pub proof fn law_advice_shape(s: Seq<VulnerabilityView>)
    ensures
        4 <= spec_recommendations(s).len() <= 11,
        spec_recommendations(s).no_duplicates(),
{
    lemma_advice_texts_distinct();
    let t = advice_texts();
    let mut acc: Seq<Seq<char>> = Seq::empty();
    lemma_append_fresh(acc, advice_if(s, VulnerabilityType::IntegerOverflow, t[0]), 0);
    acc = acc + advice_if(s, VulnerabilityType::IntegerOverflow, t[0]);
    lemma_append_fresh(acc, advice_if(s, VulnerabilityType::Reentrancy, t[1]), 1);
    acc = acc + advice_if(s, VulnerabilityType::Reentrancy, t[1]);
    lemma_append_fresh(acc, advice_if(s, VulnerabilityType::AccessControlBypass, t[2]), 2);
    acc = acc + advice_if(s, VulnerabilityType::AccessControlBypass, t[2]);
    lemma_append_fresh(acc, advice_if(s, VulnerabilityType::FrontRunning, t[3]), 3);
    acc = acc + advice_if(s, VulnerabilityType::FrontRunning, t[3]);
    lemma_append_fresh(acc, advice_if(s, VulnerabilityType::DenialOfService, t[4]), 4);
    acc = acc + advice_if(s, VulnerabilityType::DenialOfService, t[4]);
    lemma_append_fresh(acc, advice_if(s, VulnerabilityType::DoubleSpending, t[5]), 5);
    acc = acc + advice_if(s, VulnerabilityType::DoubleSpending, t[5]);
    lemma_append_fresh(acc, advice_if(s, VulnerabilityType::RandomnessWeakness, t[6]), 6);
    acc = acc + advice_if(s, VulnerabilityType::RandomnessWeakness, t[6]);
    lemma_append_fresh(acc, seq![t[7]], 7);
    acc = acc + seq![t[7]];
    lemma_append_fresh(acc, seq![t[8]], 8);
    acc = acc + seq![t[8]];
    lemma_append_fresh(acc, seq![t[9]], 9);
    acc = acc + seq![t[9]];
    lemma_append_fresh(acc, seq![t[10]], 10);
    acc = acc + seq![t[10]];
    assert(acc =~= spec_recommendations(s));
}

/// Appending at most the `k`-th piece of advice to a list of earlier pieces without
/// repeats keeps it without repeats.
proof fn lemma_append_fresh(acc: Seq<Seq<char>>, piece: Seq<Seq<char>>, k: int)
    requires
        advice_texts().no_duplicates(),
        0 <= k < 11,
        acc.no_duplicates(),
        acc.len() <= k,
        forall|i: int| 0 <= i < acc.len() ==> advice_texts().subrange(0, k).contains(#[trigger] acc[i]),
        piece == seq![advice_texts()[k]] || piece == Seq::<Seq<char>>::empty(),
    ensures
        (acc + piece).no_duplicates(),
        (acc + piece).len() <= k + 1,
        acc.len() <= (acc + piece).len() <= acc.len() + 1,
        forall|i: int|
            0 <= i < (acc + piece).len() ==> advice_texts().subrange(0, k + 1).contains(
                #[trigger] (acc + piece)[i],
            ),
{
    let t = advice_texts();
    let r = acc + piece;
    assert forall|i: int, j: int| 0 <= i < j < r.len() implies r[i] != r[j] by {
        if j >= acc.len() {
            assert(r[j] == t[k]);
            let m = choose|m: int| 0 <= m < k && t.subrange(0, k)[m] == acc[i];
            assert(t[m] == acc[i]);
        } else {
            assert(r[i] == acc[i] && r[j] == acc[j]);
        }
    }
    assert forall|i: int| 0 <= i < r.len() implies t.subrange(0, k + 1).contains(#[trigger] r[i]) by {
        if i < acc.len() {
            assert(r[i] == acc[i]);
            let m = choose|m: int| 0 <= m < k && t.subrange(0, k)[m] == acc[i];
            assert(t.subrange(0, k + 1)[m] == acc[i]);
        } else {
            assert(t.subrange(0, k + 1)[k] == r[i]);
        }
    }
}

/// For metrics whose ratios have positive denominators, the exact score lies between 0
/// and 100, and it is 100 exactly when nothing is deducted.
pub proof fn law_score_between_bounds(m: RiskMetrics)
    requires
        m.exploitability.denom > 0,
        m.impact_score.denom > 0,
    ensures
        score_denominator(m) > 0,
        score_factor(m) >= score_denominator(m),
        0 <= score_numerator(m) <= 100 * score_denominator(m),
        score_numerator(m) == 100 * score_denominator(m) <==> total_deduction(m) == 0,
{
    let den = score_denominator(m);
    let factor = score_factor(m);
    let d = total_deduction(m);
    assert(den > 0) by (nonlinear_arith)
        requires
            den == 2 * m.exploitability.denom * m.impact_score.denom,
            m.exploitability.denom > 0,
            m.impact_score.denom > 0,
    ;
    assert(factor >= den) by (nonlinear_arith)
        requires
            factor == den + m.exploitability.numer * m.impact_score.denom + m.impact_score.numer
                * m.exploitability.denom,
            m.exploitability.numer >= 0,
            m.impact_score.numer >= 0,
            m.exploitability.denom >= 0,
            m.impact_score.denom >= 0,
    ;
    if d > 0 {
        assert(d * factor > 0) by (nonlinear_arith)
            requires
                d > 0,
                factor > 0,
        ;
    } else {
        assert(d * factor == 0) by (nonlinear_arith)
            requires
                d == 0,
        ;
    }
}

/// A higher deduction, exploitability or impact never raises the score: when every count
/// and both ratios of `m2` are at least those of `m1`, the score of `m2` is at most that
/// of `m1`.
pub proof fn law_score_monotone(m1: RiskMetrics, m2: RiskMetrics)
    requires
        m1.exploitability.denom > 0,
        m1.impact_score.denom > 0,
        m2.exploitability.denom > 0,
        m2.impact_score.denom > 0,
        m1.critical_count <= m2.critical_count,
        m1.high_count <= m2.high_count,
        m1.medium_count <= m2.medium_count,
        m1.low_count <= m2.low_count,
        m1.exploitability.numer * m2.exploitability.denom <= m2.exploitability.numer
            * m1.exploitability.denom,
        m1.impact_score.numer * m2.impact_score.denom <= m2.impact_score.numer
            * m1.impact_score.denom,
    ensures
        score_numerator(m2) * score_denominator(m1) <= score_numerator(m1) * score_denominator(
            m2,
        ),
{
    law_score_between_bounds(m1);
    law_score_between_bounds(m2);
    let (e1n, e1d, i1n, i1d) = (
        m1.exploitability.numer as int,
        m1.exploitability.denom as int,
        m1.impact_score.numer as int,
        m1.impact_score.denom as int,
    );
    let (e2n, e2d, i2n, i2d) = (
        m2.exploitability.numer as int,
        m2.exploitability.denom as int,
        m2.impact_score.numer as int,
        m2.impact_score.denom as int,
    );
    let g1 = score_denominator(m1);
    let g2 = score_denominator(m2);
    let f1 = score_factor(m1);
    let f2 = score_factor(m2);
    let d1 = total_deduction(m1);
    let d2 = total_deduction(m2);
    // f1 / g1 <= f2 / g2
    assert(e1n * i1d * g2 <= e2n * i2d * g1) by (nonlinear_arith)
        requires
            g1 == 2 * e1d * i1d,
            g2 == 2 * e2d * i2d,
            e1n * e2d <= e2n * e1d,
            e1n >= 0,
            e2n >= 0,
            e1d > 0,
            e2d > 0,
            i1d > 0,
            i2d > 0,
    ;
    assert(i1n * e1d * g2 <= i2n * e2d * g1) by (nonlinear_arith)
        requires
            g1 == 2 * e1d * i1d,
            g2 == 2 * e2d * i2d,
            i1n * i2d <= i2n * i1d,
            i1n >= 0,
            i2n >= 0,
            e1d > 0,
            e2d > 0,
            i1d > 0,
            i2d > 0,
    ;
    assert(f1 * g2 <= f2 * g1) by (nonlinear_arith)
        requires
            f1 == g1 + e1n * i1d + i1n * e1d,
            f2 == g2 + e2n * i2d + i2n * e2d,
            e1n * i1d * g2 <= e2n * i2d * g1,
            i1n * e1d * g2 <= i2n * e2d * g1,
    ;
    assert(d1 <= d2);
    assert(d1 * f1 * g2 <= d2 * f2 * g1) by (nonlinear_arith)
        requires
            f1 * g2 <= f2 * g1,
            0 <= d1 <= d2,
            f1 >= 0,
            f2 >= 0,
            g1 > 0,
            g2 > 0,
    ;
    let n1 = 100 * g1 - d1 * f1;
    let n2 = 100 * g2 - d2 * f2;
    assert(n2 * g1 <= n1 * g2) by (nonlinear_arith)
        requires
            n1 == 100 * g1 - d1 * f1,
            n2 == 100 * g2 - d2 * f2,
            d1 * f1 * g2 <= d2 * f2 * g1,
    ;
    if n2 > 0 {
        assert(n1 > 0) by (nonlinear_arith)
            requires
                n2 > 0,
                n2 * g1 <= n1 * g2,
                g1 > 0,
                g2 > 0,
        ;
    } else {
        assert(score_numerator(m2) == 0);
        assert(0 * g1 <= score_numerator(m1) * g2) by (nonlinear_arith)
            requires
                score_numerator(m1) >= 0,
                g2 > 0,
        ;
    }
}

/// The score of the metrics of a list of findings: a fraction between 0 and 100 that is
/// exactly 100 when, and only when, the list is empty.
pub proof fn lemma_score_bounds(s: Seq<VulnerabilityView>)
    requires
        s.len() <= usize::MAX,
    ensures
        ({
            let score = spec_security_score(spec_risk_metrics(s));
            &&& score.denom > 0
            &&& score.numer <= 100 * score.denom
            &&& (score.numer == 100 * score.denom <==> s.len() == 0)
        }),
{
    lemma_counts_sum(s);
    lemma_findings_score_representable(s);
    let m = spec_risk_metrics(s);
    law_score_between_bounds(m);
    assert(total_deduction(m) >= 5 * s.len());
    if score_numerator(m) > 0 {
        assert(total_deduction(m) < 100) by {
            if total_deduction(m) >= 100 {
                assert(total_deduction(m) * score_factor(m) >= 100 * score_denominator(m))
                    by (nonlinear_arith)
                    requires
                        total_deduction(m) >= 100,
                        score_factor(m) >= score_denominator(m),
                        score_denominator(m) > 0,
                ;
            }
        }
    }
}

/// The security score of every analysis lies between 0 and 100.
pub proof fn law_score_between_zero_and_hundred(code: &str)
    ensures
        ({
            let score = spec_security_score(spec_risk_metrics(spec_findings(code)));
            score.denom > 0 && score.numer <= 100 * score.denom
        }),
{
    lemma_findings_len(code);
    lemma_score_bounds(spec_findings(code));
}

/// An analysis scores a perfect 100 exactly when it finds nothing.
pub proof fn law_perfect_score_iff_no_findings(code: &str)
    ensures
        ({
            let score = spec_security_score(spec_risk_metrics(spec_findings(code)));
            score.numer == 100 * score.denom <==> spec_findings(code).len() == 0
        }),
{
    lemma_findings_len(code);
    lemma_score_bounds(spec_findings(code));
}

/// The severity counts add up to the number of findings, and attack surface,
/// exploitability and impact each lie between 0 and 1, for any list of findings.
pub proof fn law_metrics_consistent(s: Seq<VulnerabilityView>)
    requires
        s.len() <= usize::MAX,
    ensures
        ({
            let m = spec_risk_metrics(s);
            &&& m.total_vulnerabilities == s.len()
            &&& m.critical_count == count_severity(s, Severity::Critical)
            &&& m.high_count == count_severity(s, Severity::High)
            &&& m.medium_count == count_severity(s, Severity::Medium)
            &&& m.low_count == count_severity(s, Severity::Low)
            &&& m.critical_count + m.high_count + m.medium_count + m.low_count
                == m.total_vulnerabilities
            &&& 0 < m.attack_surface.denom && m.attack_surface.numer <= m.attack_surface.denom
            &&& 0 < m.exploitability.denom && m.exploitability.numer <= m.exploitability.denom
            &&& 0 < m.impact_score.denom && m.impact_score.numer <= m.impact_score.denom
        }),
{
    lemma_counts_sum(s);
}

/// With at least one finding: exploitability is at least 1/4 and at least the impact;
/// the attack surface reaches 1 exactly from 50 findings on; impact and exploitability
/// reach 1 exactly when every finding is critical.
pub proof fn law_metric_relations(s: Seq<VulnerabilityView>)
    requires
        0 < s.len() <= usize::MAX,
    ensures
        ({
            let m = spec_risk_metrics(s);
            let e = m.exploitability;
            let i = m.impact_score;
            let a = m.attack_surface;
            &&& 4 * e.numer >= e.denom
            &&& i.numer * e.denom <= e.numer * i.denom
            &&& (a.numer == a.denom <==> m.total_vulnerabilities >= 50)
            &&& (i.numer == i.denom <==> m.critical_count == m.total_vulnerabilities)
            &&& (e.numer == e.denom <==> m.critical_count == m.total_vulnerabilities)
        }),
{
    lemma_counts_sum(s);
    let t = s.len() as int;
    let c = count_severity(s, Severity::Critical) as int;
    let w = weighted_count(s) as int;
    assert(c <= t && t <= w && w <= 4 * t);
    let m = spec_risk_metrics(s);
    assert(m.exploitability.numer == w && m.exploitability.denom == 4 * t);
    assert(m.impact_score.numer == c && m.impact_score.denom == t);
    assert(c * (4 * t) <= w * t) by (nonlinear_arith)
        requires
            4 * c <= w,
            t > 0,
    ;
}

/// The metrics depend only on the severities of the findings, counted with
/// multiplicity: their order, kinds and texts do not matter.
pub proof fn law_metrics_depend_only_on_severities(
    s1: Seq<VulnerabilityView>,
    s2: Seq<VulnerabilityView>,
)
    requires
        severities(s1).to_multiset() == severities(s2).to_multiset(),
    ensures
        spec_risk_metrics(s1) == spec_risk_metrics(s2),
{
    broadcast use vstd::seq_lib::group_to_multiset_ensures;

    lemma_count_is_multiplicity(s1, Severity::Critical);
    lemma_count_is_multiplicity(s1, Severity::High);
    lemma_count_is_multiplicity(s1, Severity::Medium);
    lemma_count_is_multiplicity(s1, Severity::Low);
    lemma_count_is_multiplicity(s2, Severity::Critical);
    lemma_count_is_multiplicity(s2, Severity::High);
    lemma_count_is_multiplicity(s2, Severity::Medium);
    lemma_count_is_multiplicity(s2, Severity::Low);
    assert(s1.len() == severities(s1).len());
    assert(s2.len() == severities(s2).len());
    assert(severities(s1).len() == severities(s1).to_multiset().len());
    assert(severities(s2).len() == severities(s2).to_multiset().len());
}

/// The severities of a list of findings.
pub open spec fn severities(s: Seq<VulnerabilityView>) -> Seq<Severity> {
    s.map_values(|v: VulnerabilityView| v.severity)
}

/// The number of findings of a severity is its multiplicity among the severities.
pub proof fn lemma_count_is_multiplicity(s: Seq<VulnerabilityView>, sev: Severity)
    ensures
        count_severity(s, sev) == severities(s).to_multiset().count(sev),
    decreases s.len(),
{
    broadcast use vstd::seq_lib::group_to_multiset_ensures;
    broadcast use vstd::multiset::group_multiset_axioms;

    if s.len() == 0 {
        assert(severities(s) =~= Seq::<Severity>::empty());
    } else {
        lemma_count_is_multiplicity(s.drop_last(), sev);
        assert(severities(s) =~= severities(s.drop_last()).push(s.last().severity));
    }
}

/// Text that mentions `unchecked_add`, `unchecked_mul` or `unchecked_sub` also mentions
/// `checked_`, so those three patterns never produce an overflow finding.
pub proof fn law_unchecked_patterns_never_reported(code: &str)
    ensures
        overflow_finding(code, "unchecked_add") == Seq::<VulnerabilityView>::empty(),
        overflow_finding(code, "unchecked_mul") == Seq::<VulnerabilityView>::empty(),
        overflow_finding(code, "unchecked_sub") == Seq::<VulnerabilityView>::empty(),
{
    broadcast use vstd::string::group_string_axioms;

    reveal_strlit("checked_");
    reveal_strlit("unchecked_add");
    reveal_strlit("unchecked_mul");
    reveal_strlit("unchecked_sub");
    assert("checked_".is_ascii());
    assert("unchecked_add".is_ascii());
    assert("unchecked_mul".is_ascii());
    assert("unchecked_sub".is_ascii());
    let c = code.spec_bytes();
    let needle = "checked_".spec_bytes();
    assert("unchecked_add".spec_bytes().subrange(2, 10) =~= needle);
    assert("unchecked_mul".spec_bytes().subrange(2, 10) =~= needle);
    assert("unchecked_sub".spec_bytes().subrange(2, 10) =~= needle);
    lemma_suffix_occurs(c, "unchecked_add".spec_bytes(), needle);
    lemma_suffix_occurs(c, "unchecked_mul".spec_bytes(), needle);
    lemma_suffix_occurs(c, "unchecked_sub".spec_bytes(), needle);
}

/// If `longer` carries `needle` at offset 2, any text holding `longer` holds `needle`.
proof fn lemma_suffix_occurs(hay: Seq<u8>, longer: Seq<u8>, needle: Seq<u8>)
    requires
        needle.len() + 2 <= longer.len(),
        longer.subrange(2, 2 + needle.len() as int) == needle,
    ensures
        contains_bytes(hay, longer) ==> contains_bytes(hay, needle),
{
    if contains_bytes(hay, longer) {
        let i = choose|i: int| occurs_at(hay, longer, i);
        let window = hay.subrange(i + 2, i + 2 + needle.len());
        assert forall|k: int| 0 <= k < needle.len() implies #[trigger] window[k] == needle[k] by {
            assert(hay.subrange(i, i + longer.len())[k + 2] == longer[k + 2]);
            assert(longer.subrange(2, 2 + needle.len() as int)[k] == longer[k + 2]);
        }
        assert(window =~= needle);
        assert(occurs_at(hay, needle, i + 2));
    }
}

// ---------------------------------------------------------------------------
// The report
// ---------------------------------------------------------------------------

/// The character of a decimal digit.
pub open spec fn digit_char(d: nat) -> char {
    if d == 0 {
        '0'
    } else if d == 1 {
        '1'
    } else if d == 2 {
        '2'
    } else if d == 3 {
        '3'
    } else if d == 4 {
        '4'
    } else if d == 5 {
        '5'
    } else if d == 6 {
        '6'
    } else if d == 7 {
        '7'
    } else if d == 8 {
        '8'
    } else {
        '9'
    }
}

/// The decimal notation of `n`, without leading zeros.
pub open spec fn decimal(n: nat) -> Seq<char>
    decreases n,
{
    if n < 10 {
        seq![digit_char(n)]
    } else {
        decimal(n / 10) + seq![digit_char(n % 10)]
    }
}

/// The name of a kind of finding, as it appears in the report.
pub open spec fn kind_name(ty: VulnerabilityType) -> Seq<char> {
    match ty {
        VulnerabilityType::IntegerOverflow => "IntegerOverflow"@,
        VulnerabilityType::Reentrancy => "Reentrancy"@,
        VulnerabilityType::AccessControlBypass => "AccessControlBypass"@,
        VulnerabilityType::FrontRunning => "FrontRunning"@,
        VulnerabilityType::DenialOfService => "DenialOfService"@,
        VulnerabilityType::LogicError => "LogicError"@,
        VulnerabilityType::GasLimitExceeded => "GasLimitExceeded"@,
        VulnerabilityType::UnauthorizedTransfer => "UnauthorizedTransfer"@,
        VulnerabilityType::DoubleSpending => "DoubleSpending"@,
        VulnerabilityType::TimestampDependency => "TimestampDependency"@,
        VulnerabilityType::RandomnessWeakness => "RandomnessWeakness"@,
        VulnerabilityType::ExternalCallManipulation => "ExternalCallManipulation"@,
    }
}

/// The name of a severity, as it appears in the report.
pub open spec fn severity_name(sev: Severity) -> Seq<char> {
    match sev {
        Severity::Low => "Low"@,
        Severity::Medium => "Medium"@,
        Severity::High => "High"@,
        Severity::Critical => "Critical"@,
    }
}

/// The report's block for one finding: a heading with kind and severity, then its
/// description, location and recommendation.
pub open spec fn finding_block(v: VulnerabilityView) -> Seq<char> {
    "### "@ + kind_name(v.vulnerability_type) + " ("@ + severity_name(v.severity) + ")\n"@
        + "**Description:** "@ + v.description + "\n"@ + "**Location:** "@ + v.location + "\n"@
        + "**Recommendation:** "@ + v.recommendation + "\n\n"@
}

/// The blocks of all findings, in order.
pub open spec fn findings_section(s: Seq<VulnerabilityView>) -> Seq<char>
    decreases s.len(),
{
    if s.len() == 0 {
        Seq::empty()
    } else {
        findings_section(s.drop_last()) + finding_block(s.last())
    }
}

/// One numbered line of advice.
pub open spec fn advice_line(n: nat, text: Seq<char>) -> Seq<char> {
    decimal(n) + ". "@ + text + "\n"@
}

/// The advice as a list numbered from 1.
pub open spec fn advice_section(a: Seq<Seq<char>>) -> Seq<char>
    decreases a.len(),
{
    if a.len() == 0 {
        Seq::empty()
    } else {
        advice_section(a.drop_last()) + advice_line(a.len(), a.last())
    }
}

/// The Markdown security report: the score, the risk metrics, a block per finding and
/// the numbered advice. The four fractions appear as the given texts.
pub open spec fn spec_report(
    findings: Seq<VulnerabilityView>,
    m: RiskMetrics,
    advice: Seq<Seq<char>>,
    score: Seq<char>,
    surface: Seq<char>,
    exploit: Seq<char>,
    impact: Seq<char>,
) -> Seq<char> {
    "# Security Analysis Report\n\n"@ + "## Overall Security Score: "@ + score + "/100\n\n"@
        + "## Risk Metrics\n\n"@ + "- Total Vulnerabilities: "@ + decimal(
        m.total_vulnerabilities as nat,
    ) + "\n"@ + "- Critical: "@ + decimal(m.critical_count as nat) + "\n"@ + "- High: "@
        + decimal(m.high_count as nat) + "\n"@ + "- Medium: "@ + decimal(m.medium_count as nat)
        + "\n"@ + "- Low: "@ + decimal(m.low_count as nat) + "\n"@ + "- Attack Surface: "@
        + surface + "\n"@ + "- Exploitability: "@ + exploit + "\n"@ + "- Impact Score: "@
        + impact + "\n\n"@ + "## Vulnerabilities\n\n"@ + findings_section(findings)
        + "## Recommendations\n\n"@ + advice_section(advice)
}

/// The text of one decimal digit.
fn digit_str(d: usize) -> (text: &'static str)
    requires
        d < 10,
    ensures
        text@ == seq![digit_char(d as nat)],
{
    if d == 0 {
        proof {
            reveal_strlit("0");
        }
        "0"
    } else if d == 1 {
        proof {
            reveal_strlit("1");
        }
        "1"
    } else if d == 2 {
        proof {
            reveal_strlit("2");
        }
        "2"
    } else if d == 3 {
        proof {
            reveal_strlit("3");
        }
        "3"
    } else if d == 4 {
        proof {
            reveal_strlit("4");
        }
        "4"
    } else if d == 5 {
        proof {
            reveal_strlit("5");
        }
        "5"
    } else if d == 6 {
        proof {
            reveal_strlit("6");
        }
        "6"
    } else if d == 7 {
        proof {
            reveal_strlit("7");
        }
        "7"
    } else if d == 8 {
        proof {
            reveal_strlit("8");
        }
        "8"
    } else {
        proof {
            reveal_strlit("9");
        }
        "9"
    }
}

/// The decimal notation of `n`.
pub fn decimal_string(n: usize) -> (text: String)
    ensures
        text@ == decimal(n as nat),
    decreases n,
{
    if n < 10 {
        String::from_str(digit_str(n))
    } else {
        let mut text = decimal_string(n / 10);
        text.append(digit_str(n % 10));
        text
    }
}

/// The report name of a kind of finding.
fn kind_name_str(ty: VulnerabilityType) -> (name: &'static str)
    ensures
        name@ == kind_name(ty),
{
    match ty {
        VulnerabilityType::IntegerOverflow => "IntegerOverflow",
        VulnerabilityType::Reentrancy => "Reentrancy",
        VulnerabilityType::AccessControlBypass => "AccessControlBypass",
        VulnerabilityType::FrontRunning => "FrontRunning",
        VulnerabilityType::DenialOfService => "DenialOfService",
        VulnerabilityType::LogicError => "LogicError",
        VulnerabilityType::GasLimitExceeded => "GasLimitExceeded",
        VulnerabilityType::UnauthorizedTransfer => "UnauthorizedTransfer",
        VulnerabilityType::DoubleSpending => "DoubleSpending",
        VulnerabilityType::TimestampDependency => "TimestampDependency",
        VulnerabilityType::RandomnessWeakness => "RandomnessWeakness",
        VulnerabilityType::ExternalCallManipulation => "ExternalCallManipulation",
    }
}

/// The report name of a severity.
fn severity_name_str(sev: Severity) -> (name: &'static str)
    ensures
        name@ == severity_name(sev),
{
    match sev {
        Severity::Low => "Low",
        Severity::Medium => "Medium",
        Severity::High => "High",
        Severity::Critical => "Critical",
    }
}

/// The report block of one finding.
fn finding_block_string(v: &Vulnerability) -> (block: String)
    ensures
        block@ == finding_block(v@),
{
    let mut block = String::from_str("### ");
    block.append(kind_name_str(v.vulnerability_type));
    block.append(" (");
    block.append(severity_name_str(v.severity));
    block.append(")\n");
    block.append("**Description:** ");
    block.append(v.description.as_str());
    block.append("\n");
    block.append("**Location:** ");
    block.append(v.location.as_str());
    block.append("\n");
    block.append("**Recommendation:** ");
    block.append(v.recommendation.as_str());
    block.append("\n\n");
    block
}

/// One numbered advice line.
fn advice_line_string(n: usize, text: &String) -> (line: String)
    ensures
        line@ == advice_line(n as nat, text@),
{
    let mut line = decimal_string(n);
    line.append(". ");
    line.append(text.as_str());
    line.append("\n");
    line
}

// ---------------------------------------------------------------------------
// Laws on what each operation reports
// ---------------------------------------------------------------------------

/// Every finding in `s` has kind `ty`.
pub open spec fn all_of_kind(s: Seq<VulnerabilityView>, ty: VulnerabilityType) -> bool {
    forall|i: int| 0 <= i < s.len() ==> #[trigger] s[i].vulnerability_type == ty
}

/// A kind occurs in a concatenation exactly when it occurs in one of the two parts.
proof fn lemma_concat_kinds(a: Seq<VulnerabilityView>, b: Seq<VulnerabilityView>, ty: VulnerabilityType)
    ensures
        contains_type(a + b, ty) <==> contains_type(a, ty) || contains_type(b, ty),
        all_of_kind(a, ty) && all_of_kind(b, ty) ==> all_of_kind(a + b, ty),
{
    if contains_type(a + b, ty) {
        let i = choose|i: int| 0 <= i < (a + b).len() && #[trigger] (a + b)[i].vulnerability_type == ty;
        if i >= a.len() {
            assert(b[i - a.len()] == (a + b)[i]);
        } else {
            assert(a[i] == (a + b)[i]);
        }
    }
    if contains_type(a, ty) {
        let i = choose|i: int| 0 <= i < a.len() && #[trigger] a[i].vulnerability_type == ty;
        assert((a + b)[i] == a[i]);
    }
    if contains_type(b, ty) {
        let i = choose|i: int| 0 <= i < b.len() && #[trigger] b[i].vulnerability_type == ty;
        assert((a + b)[a.len() + i] == b[i]);
    }
    if all_of_kind(a, ty) && all_of_kind(b, ty) {
        assert forall|i: int| 0 <= i < (a + b).len() implies #[trigger] (a + b)[i].vulnerability_type
            == ty by {
            if i >= a.len() {
                assert((a + b)[i] == b[i - a.len()]);
            } else {
                assert((a + b)[i] == a[i]);
            }
        }
    }
}

/// A kind occurs in joined lists exactly when it occurs in one of them.
proof fn lemma_contains_type_joined(parts: Seq<Seq<VulnerabilityView>>, ty: VulnerabilityType)
    ensures
        contains_type(joined(parts), ty) <==> exists|j: int|
            0 <= j < parts.len() && contains_type(#[trigger] parts[j], ty),
    decreases parts.len(),
{
    if parts.len() > 0 {
        let earlier = parts.drop_last();
        lemma_contains_type_joined(earlier, ty);
        lemma_concat_kinds(joined(earlier), parts.last(), ty);
        if exists|j: int| 0 <= j < parts.len() && contains_type(#[trigger] parts[j], ty) {
            let j = choose|j: int| 0 <= j < parts.len() && contains_type(#[trigger] parts[j], ty);
            if j < earlier.len() {
                assert(earlier[j] == parts[j]);
            }
        }
        if exists|j: int| 0 <= j < earlier.len() && contains_type(#[trigger] earlier[j], ty) {
            let j = choose|j: int| 0 <= j < earlier.len() && contains_type(#[trigger] earlier[j], ty);
            assert(parts[j] == earlier[j]);
        }
    }
}

/// The finding of one overflow pattern is an overflow finding, present exactly when the
/// pattern occurs and `checked_` does not.
proof fn lemma_overflow_finding_kind(code: &str, pattern: &str)
    ensures
        all_of_kind(overflow_finding(code, pattern), VulnerabilityType::IntegerOverflow),
        contains_type(overflow_finding(code, pattern), VulnerabilityType::IntegerOverflow)
            <==> mentions(code, pattern) && !mentions(code, "checked_"),
{
    let f = overflow_finding(code, pattern);
    if f.len() > 0 {
        assert(f[0].vulnerability_type == VulnerabilityType::IntegerOverflow);
    }
}

/// The overflow check reports overflow findings only, and reports one exactly when some
/// pattern occurs and `checked_` does not.
proof fn lemma_overflow_reported(code: &str)
    ensures
        all_of_kind(overflow_findings(code), VulnerabilityType::IntegerOverflow),
        contains_type(overflow_findings(code), VulnerabilityType::IntegerOverflow) <==> (!mentions(
            code,
            "checked_",
        ) && (mentions(code, "unchecked_add") || mentions(code, "unchecked_mul") || mentions(
            code,
            "unchecked_sub",
        ) || mentions(code, "a + b") || mentions(code, "a * b") || mentions(code, "a - b"))),
{
    let ty = VulnerabilityType::IntegerOverflow;
    let p = overflow_patterns();
    assert(p[0] == "unchecked_add" && p[1] == "unchecked_mul" && p[2] == "unchecked_sub"
        && p[3] == "a + b" && p[4] == "a * b" && p[5] == "a - b");
    assert(overflow_findings_upto(code, 0) =~= Seq::<VulnerabilityView>::empty());
    lemma_overflow_finding_kind(code, p[0]);
    lemma_concat_kinds(overflow_findings_upto(code, 0), overflow_finding(code, p[0]), ty);
    lemma_overflow_finding_kind(code, p[1]);
    lemma_concat_kinds(overflow_findings_upto(code, 1), overflow_finding(code, p[1]), ty);
    lemma_overflow_finding_kind(code, p[2]);
    lemma_concat_kinds(overflow_findings_upto(code, 2), overflow_finding(code, p[2]), ty);
    lemma_overflow_finding_kind(code, p[3]);
    lemma_concat_kinds(overflow_findings_upto(code, 3), overflow_finding(code, p[3]), ty);
    lemma_overflow_finding_kind(code, p[4]);
    lemma_concat_kinds(overflow_findings_upto(code, 4), overflow_finding(code, p[4]), ty);
    lemma_overflow_finding_kind(code, p[5]);
    lemma_concat_kinds(overflow_findings_upto(code, 5), overflow_finding(code, p[5]), ty);
}

/// The kind each check reports, by the position of the check.
pub open spec fn kind_of_check(j: int) -> VulnerabilityType {
    if j == 0 {
        VulnerabilityType::IntegerOverflow
    } else if j == 1 {
        VulnerabilityType::Reentrancy
    } else if j == 2 {
        VulnerabilityType::AccessControlBypass
    } else if j == 3 {
        VulnerabilityType::FrontRunning
    } else if j == 4 {
        VulnerabilityType::DenialOfService
    } else if j == 5 {
        VulnerabilityType::LogicError
    } else if j == 6 {
        VulnerabilityType::GasLimitExceeded
    } else if j == 7 {
        VulnerabilityType::UnauthorizedTransfer
    } else if j == 8 {
        VulnerabilityType::DoubleSpending
    } else if j == 9 {
        VulnerabilityType::TimestampDependency
    } else if j == 10 {
        VulnerabilityType::RandomnessWeakness
    } else {
        VulnerabilityType::ExternalCallManipulation
    }
}

/// Each check reports findings of its own kind only.
proof fn lemma_check_kinds(code: &str)
    ensures
        forall|j: int| 0 <= j < 12 ==> all_of_kind(#[trigger] check_outputs(code)[j], kind_of_check(j)),
{
    lemma_overflow_reported(code);
    let parts = check_outputs(code);
    assert forall|j: int| 0 <= j < 12 implies all_of_kind(#[trigger] parts[j], kind_of_check(j)) by {
        if j > 0 {
            assert forall|i: int| 0 <= i < parts[j].len() implies #[trigger] parts[j][i].vulnerability_type
                == kind_of_check(j) by {
                assert(i == 0);
            }
        }
    }
}

/// A kind occurs among all findings exactly when its own check reports it.
proof fn lemma_kind_from_its_check(code: &str, j: int)
    requires
        0 <= j < 12,
    ensures
        contains_type(spec_findings(code), kind_of_check(j)) <==> contains_type(
            check_outputs(code)[j],
            kind_of_check(j),
        ),
{
    let parts = check_outputs(code);
    let ty = kind_of_check(j);
    assert(joined(parts) == spec_findings(code)) by {
        reveal_with_fuel(joined, 13);
    }
    lemma_check_kinds(code);
    lemma_contains_type_joined(parts, ty);
    if contains_type(spec_findings(code), ty) {
        let k = choose|k: int| 0 <= k < parts.len() && contains_type(#[trigger] parts[k], ty);
        let i = choose|i: int| 0 <= i < parts[k].len() && #[trigger] parts[k][i].vulnerability_type == ty;
        assert(parts[k][i].vulnerability_type == kind_of_check(k));
        assert(k == j);
    }
}

/// What the analysis reports, kind by kind: a finding of each kind is present exactly
/// when the code holds that kind's patterns and lacks its guard. In particular an
/// access-control finding is suppressed only by the exact text
/// `require(msg.sender == owner)`, not by other `require` statements.
#[verifier::spinoff_prover]
pub proof fn law_findings_by_kind(code: &str)
    ensures
        contains_type(spec_findings(code), VulnerabilityType::IntegerOverflow) <==> (!mentions(
            code,
            "checked_",
        ) && (mentions(code, "unchecked_add") || mentions(code, "unchecked_mul") || mentions(
            code,
            "unchecked_sub",
        ) || mentions(code, "a + b") || mentions(code, "a * b") || mentions(code, "a - b"))),
        contains_type(spec_findings(code), VulnerabilityType::Reentrancy) <==> (mentions(
            code,
            "external_call",
        ) && !mentions(code, "reentrancy_guard")),
        contains_type(spec_findings(code), VulnerabilityType::AccessControlBypass) <==> (mentions(
            code,
            "only_owner",
        ) && !mentions(code, "require(msg.sender == owner)")),
        contains_type(spec_findings(code), VulnerabilityType::FrontRunning) <==> (mentions(
            code,
            "block.timestamp",
        ) && mentions(code, "price")),
        contains_type(spec_findings(code), VulnerabilityType::DenialOfService) <==> (mentions(
            code,
            "while",
        ) || (mentions(code, "for") && mentions(code, "push"))),
        contains_type(spec_findings(code), VulnerabilityType::LogicError) <==> (mentions(
            code,
            "require",
        ) && mentions(code, "||")),
        contains_type(spec_findings(code), VulnerabilityType::GasLimitExceeded) <==> (mentions(
            code,
            "for",
        ) && mentions(code, "length")),
        contains_type(spec_findings(code), VulnerabilityType::UnauthorizedTransfer) <==> (mentions(
            code,
            "transfer",
        ) && !mentions(code, "require")),
        contains_type(spec_findings(code), VulnerabilityType::DoubleSpending) <==> (mentions(
            code,
            "balance",
        ) && mentions(code, "transfer") && !mentions(code, "update")),
        contains_type(spec_findings(code), VulnerabilityType::TimestampDependency) <==> (mentions(
            code,
            "block.timestamp",
        ) && mentions(code, "require")),
        contains_type(spec_findings(code), VulnerabilityType::RandomnessWeakness) <==> (mentions(
            code,
            "keccak256",
        ) && mentions(code, "block")),
        contains_type(spec_findings(code), VulnerabilityType::ExternalCallManipulation)
            <==> (mentions(code, "call") && !mentions(code, "require")),
{
    let parts = check_outputs(code);
    lemma_overflow_reported(code);
    lemma_kind_from_its_check(code, 0);
    lemma_kind_from_its_check(code, 1);
    if parts[1].len() > 0 {
        assert(parts[1][0].vulnerability_type == kind_of_check(1));
    }
    lemma_kind_from_its_check(code, 2);
    if parts[2].len() > 0 {
        assert(parts[2][0].vulnerability_type == kind_of_check(2));
    }
    lemma_kind_from_its_check(code, 3);
    if parts[3].len() > 0 {
        assert(parts[3][0].vulnerability_type == kind_of_check(3));
    }
    lemma_kind_from_its_check(code, 4);
    if parts[4].len() > 0 {
        assert(parts[4][0].vulnerability_type == kind_of_check(4));
    }
    lemma_kind_from_its_check(code, 5);
    if parts[5].len() > 0 {
        assert(parts[5][0].vulnerability_type == kind_of_check(5));
    }
    lemma_kind_from_its_check(code, 6);
    if parts[6].len() > 0 {
        assert(parts[6][0].vulnerability_type == kind_of_check(6));
    }
    lemma_kind_from_its_check(code, 7);
    if parts[7].len() > 0 {
        assert(parts[7][0].vulnerability_type == kind_of_check(7));
    }
    lemma_kind_from_its_check(code, 8);
    if parts[8].len() > 0 {
        assert(parts[8][0].vulnerability_type == kind_of_check(8));
    }
    lemma_kind_from_its_check(code, 9);
    if parts[9].len() > 0 {
        assert(parts[9][0].vulnerability_type == kind_of_check(9));
    }
    lemma_kind_from_its_check(code, 10);
    if parts[10].len() > 0 {
        assert(parts[10][0].vulnerability_type == kind_of_check(10));
    }
    lemma_kind_from_its_check(code, 11);
    if parts[11].len() > 0 {
        assert(parts[11][0].vulnerability_type == kind_of_check(11));
    }
}

/// Changing one finding's severity changes the counts by exactly that finding.
proof fn lemma_count_update(s: Seq<VulnerabilityView>, i: int, v: VulnerabilityView, sev: Severity)
    requires
        0 <= i < s.len(),
    ensures
        count_severity(s.update(i, v), sev) + (if s[i].severity == sev {
            1nat
        } else {
            0nat
        }) == count_severity(s, sev) + (if v.severity == sev {
            1nat
        } else {
            0nat
        }),
    decreases s.len(),
{
    let u = s.update(i, v);
    if i == s.len() - 1 {
        assert(u.drop_last() =~= s.drop_last());
    } else {
        lemma_count_update(s.drop_last(), i, v, sev);
        assert(u.drop_last() =~= s.drop_last().update(i, v));
        assert(u.last() == s.last());
    }
}

/// The metrics of a single finding, by its severity.
proof fn lemma_single_finding_counts(v: VulnerabilityView)
    ensures
        count_severity(seq![v], Severity::Critical) == (if v.severity == Severity::Critical {
            1nat
        } else {
            0nat
        }),
        count_severity(seq![v], Severity::High) == (if v.severity == Severity::High {
            1nat
        } else {
            0nat
        }),
        count_severity(seq![v], Severity::Medium) == (if v.severity == Severity::Medium {
            1nat
        } else {
            0nat
        }),
        count_severity(seq![v], Severity::Low) == (if v.severity == Severity::Low {
            1nat
        } else {
            0nat
        }),
{
    let s = seq![v];
    assert(s.drop_last() =~= Seq::<VulnerabilityView>::empty());
    assert(s.last() == v);
    assert(count_severity(Seq::<VulnerabilityView>::empty(), Severity::Critical) == 0);
    assert(count_severity(Seq::<VulnerabilityView>::empty(), Severity::High) == 0);
    assert(count_severity(Seq::<VulnerabilityView>::empty(), Severity::Medium) == 0);
    assert(count_severity(Seq::<VulnerabilityView>::empty(), Severity::Low) == 0);
}

/// The exploitability of a single finding is its severity's rank out of four: 1/4 when
/// low, 2/4 when medium, 3/4 when high and 4/4 when critical.
pub proof fn law_single_finding_exploitability(v: VulnerabilityView)
    ensures
        v.severity == Severity::Low ==> spec_risk_metrics(seq![v]).exploitability == (Ratio {
            numer: 1,
            denom: 4,
        }),
        v.severity == Severity::Medium ==> spec_risk_metrics(seq![v]).exploitability == (Ratio {
            numer: 2,
            denom: 4,
        }),
        v.severity == Severity::High ==> spec_risk_metrics(seq![v]).exploitability == (Ratio {
            numer: 3,
            denom: 4,
        }),
        v.severity == Severity::Critical ==> spec_risk_metrics(seq![v]).exploitability == (Ratio {
            numer: 4,
            denom: 4,
        }),
{
    lemma_single_finding_counts(v);
}

/// Replacing one finding by one of strictly higher severity strictly raises
/// exploitability: the denominator (four times the number of findings) stays, and the
/// numerator grows.
pub proof fn law_upgrade_raises_exploitability(
    s: Seq<VulnerabilityView>,
    i: int,
    v: VulnerabilityView,
)
    requires
        0 <= i < s.len() <= usize::MAX,
        (s[i].severity == Severity::Low && v.severity != Severity::Low) || (s[i].severity
            == Severity::Medium && (v.severity == Severity::High || v.severity
            == Severity::Critical)) || (s[i].severity == Severity::High && v.severity
            == Severity::Critical),
    ensures
        spec_risk_metrics(s.update(i, v)).exploitability.denom == spec_risk_metrics(
            s,
        ).exploitability.denom,
        spec_risk_metrics(s).exploitability.numer < spec_risk_metrics(
            s.update(i, v),
        ).exploitability.numer,
{
    let u = s.update(i, v);
    lemma_count_update(s, i, v, Severity::Critical);
    lemma_count_update(s, i, v, Severity::High);
    lemma_count_update(s, i, v, Severity::Medium);
    lemma_count_update(s, i, v, Severity::Low);
    lemma_counts_sum(s);
    lemma_counts_sum(u);
    assert(weighted_count(s) < weighted_count(u));
    assert(weighted_count(u) <= 4 * u.len());
}

/// The security score of a single finding: 755/8 (94.375) when low, 700/8 (87.5) when
/// medium, 635/8 (79.375) when high and 400/8 (50) when critical.
pub proof fn law_single_finding_score(v: VulnerabilityView)
    ensures
        v.severity == Severity::Low ==> spec_security_score(spec_risk_metrics(seq![v])) == (Ratio {
            numer: 755,
            denom: 8,
        }),
        v.severity == Severity::Medium ==> spec_security_score(spec_risk_metrics(seq![v])) == (
        Ratio { numer: 700, denom: 8 }),
        v.severity == Severity::High ==> spec_security_score(spec_risk_metrics(seq![v])) == (Ratio {
            numer: 635,
            denom: 8,
        }),
        v.severity == Severity::Critical ==> spec_security_score(spec_risk_metrics(seq![v]))
            == (Ratio { numer: 400, denom: 8 }),
{
    lemma_single_finding_counts(v);
    law_single_finding_exploitability(v);
    let m = spec_risk_metrics(seq![v]);
    assert(seq![v].len() == 1);
    assert(m.exploitability.denom == 4);
    assert(m.impact_score.denom == 1);
    assert(m.impact_score.numer == (if v.severity == Severity::Critical {
        1int
    } else {
        0int
    }));
    assert(score_denominator(m) == 8);
    if v.severity == Severity::Low {
        assert(score_factor(m) == 9);
        assert(total_deduction(m) == 5);
    } else if v.severity == Severity::Medium {
        assert(score_factor(m) == 10);
        assert(total_deduction(m) == 10);
    } else if v.severity == Severity::High {
        assert(score_factor(m) == 11);
        assert(total_deduction(m) == 15);
    } else {
        assert(score_factor(m) == 16);
        assert(total_deduction(m) == 25);
    }
}

/// One more finding costs more points the more severe it is: with the other counts and
/// the ratios unchanged, the score after one more low finding is at least that after one
/// more medium finding, which is at least that after one more high finding, which is at
/// least that after one more critical finding (all four over the same denominator);
/// each step is strict while the milder outcome is above zero.
pub proof fn law_deduction_grows_with_severity(m: RiskMetrics)
    requires
        m.exploitability.denom > 0,
        m.impact_score.denom > 0,
        m.critical_count < usize::MAX,
        m.high_count < usize::MAX,
        m.medium_count < usize::MAX,
        m.low_count < usize::MAX,
    ensures
        ({
            let low = RiskMetrics { low_count: (m.low_count + 1) as usize, ..m };
            let medium = RiskMetrics { medium_count: (m.medium_count + 1) as usize, ..m };
            let high = RiskMetrics { high_count: (m.high_count + 1) as usize, ..m };
            let critical = RiskMetrics { critical_count: (m.critical_count + 1) as usize, ..m };
            &&& score_denominator(low) == score_denominator(medium)
            &&& score_denominator(medium) == score_denominator(high)
            &&& score_denominator(high) == score_denominator(critical)
            &&& score_numerator(critical) <= score_numerator(high)
            &&& score_numerator(high) <= score_numerator(medium)
            &&& score_numerator(medium) <= score_numerator(low)
            &&& (score_numerator(low) > 0 ==> score_numerator(medium) < score_numerator(low))
            &&& (score_numerator(medium) > 0 ==> score_numerator(high) < score_numerator(medium))
            &&& (score_numerator(high) > 0 ==> score_numerator(critical) < score_numerator(
                high,
            ))
        }),
{
    let low = RiskMetrics { low_count: (m.low_count + 1) as usize, ..m };
    let medium = RiskMetrics { medium_count: (m.medium_count + 1) as usize, ..m };
    let high = RiskMetrics { high_count: (m.high_count + 1) as usize, ..m };
    let critical = RiskMetrics { critical_count: (m.critical_count + 1) as usize, ..m };
    law_score_between_bounds(m);
    let g = score_denominator(m);
    let f = score_factor(m);
    let d = total_deduction(m);
    assert(score_denominator(low) == g && score_factor(low) == f);
    assert(score_denominator(medium) == g && score_factor(medium) == f);
    assert(score_denominator(high) == g && score_factor(high) == f);
    assert(score_denominator(critical) == g && score_factor(critical) == f);
    assert(total_deduction(low) == d + 5);
    assert(total_deduction(medium) == d + 10);
    assert(total_deduction(high) == d + 15);
    assert(total_deduction(critical) == d + 25);
    assert((d + 10) * f == (d + 5) * f + 5 * f) by (nonlinear_arith);
    assert((d + 15) * f == (d + 10) * f + 5 * f) by (nonlinear_arith);
    assert((d + 25) * f == (d + 15) * f + 10 * f) by (nonlinear_arith);
}

/// A piece of advice that depends on a kind is given exactly when that kind is present.
proof fn lemma_advice_if_contains(
    s: Seq<VulnerabilityView>,
    ty: VulnerabilityType,
    text: Seq<char>,
    x: Seq<char>,
)
    ensures
        advice_if(s, ty, text).contains(x) <==> contains_type(s, ty) && x == text,
{
    if contains_type(s, ty) && x == text {
        assert(advice_if(s, ty, text)[0] == x);
    }
}

/// Which pieces of advice the advice holds: each kind's own piece when that kind is
/// present, and the four general pieces.
proof fn lemma_advice_contains(s: Seq<VulnerabilityView>, x: Seq<char>)
    ensures
        spec_recommendations(s).contains(x) <==> ((contains_type(
            s,
            VulnerabilityType::IntegerOverflow,
        ) && x == advice_texts()[0]) || (contains_type(s, VulnerabilityType::Reentrancy) && x
            == advice_texts()[1]) || (contains_type(s, VulnerabilityType::AccessControlBypass) && x
            == advice_texts()[2]) || (contains_type(s, VulnerabilityType::FrontRunning) && x
            == advice_texts()[3]) || (contains_type(s, VulnerabilityType::DenialOfService) && x
            == advice_texts()[4]) || (contains_type(s, VulnerabilityType::DoubleSpending) && x
            == advice_texts()[5]) || (contains_type(s, VulnerabilityType::RandomnessWeakness) && x
            == advice_texts()[6]) || x == advice_texts()[7] || x == advice_texts()[8] || x
            == advice_texts()[9] || x == advice_texts()[10]),
{
    broadcast use vstd::seq_lib::lemma_seq_concat_contains_all_elements;

    let t = advice_texts();
    let a0 = advice_if(s, VulnerabilityType::IntegerOverflow, t[0]);
    let a1 = advice_if(s, VulnerabilityType::Reentrancy, t[1]);
    let a2 = advice_if(s, VulnerabilityType::AccessControlBypass, t[2]);
    let a3 = advice_if(s, VulnerabilityType::FrontRunning, t[3]);
    let a4 = advice_if(s, VulnerabilityType::DenialOfService, t[4]);
    let a5 = advice_if(s, VulnerabilityType::DoubleSpending, t[5]);
    let a6 = advice_if(s, VulnerabilityType::RandomnessWeakness, t[6]);
    let g = general_advice();
    assert(spec_recommendations(s) == a0 + a1 + a2 + a3 + a4 + a5 + a6 + g);
    lemma_advice_if_contains(s, VulnerabilityType::IntegerOverflow, t[0], x);
    lemma_advice_if_contains(s, VulnerabilityType::Reentrancy, t[1], x);
    lemma_advice_if_contains(s, VulnerabilityType::AccessControlBypass, t[2], x);
    lemma_advice_if_contains(s, VulnerabilityType::FrontRunning, t[3], x);
    lemma_advice_if_contains(s, VulnerabilityType::DenialOfService, t[4], x);
    lemma_advice_if_contains(s, VulnerabilityType::DoubleSpending, t[5], x);
    lemma_advice_if_contains(s, VulnerabilityType::RandomnessWeakness, t[6], x);
    assert(g.contains(x) <==> (x == t[7] || x == t[8] || x == t[9] || x == t[10])) by {
        if x == t[7] {
            assert(g[0] == x);
        }
        if x == t[8] {
            assert(g[1] == x);
        }
        if x == t[9] {
            assert(g[2] == x);
        }
        if x == t[10] {
            assert(g[3] == x);
        }
    }
}

/// Each kind with advice of its own gets that advice exactly when a finding of that kind
/// is present, and the four general pieces of advice are always given.
#[verifier::spinoff_prover]
pub proof fn law_advice_by_kind(s: Seq<VulnerabilityView>)
    ensures
        spec_recommendations(s).contains(
            "Implement proper arithmetic overflow checks using checked_* operations"@,
        ) <==> contains_type(s, VulnerabilityType::IntegerOverflow),
        spec_recommendations(s).contains(
            "Implement reentrancy guards using checks-effects-interactions pattern"@,
        ) <==> contains_type(s, VulnerabilityType::Reentrancy),
        spec_recommendations(s).contains(
            "Strengthen access control mechanisms with proper authorization checks"@,
        ) <==> contains_type(s, VulnerabilityType::AccessControlBypass),
        spec_recommendations(s).contains(
            "Implement commit-reveal schemes or use oracle-based pricing"@,
        ) <==> contains_type(s, VulnerabilityType::FrontRunning),
        spec_recommendations(s).contains(
            "Add bounds checking and gas limits for iterative operations"@,
        ) <==> contains_type(s, VulnerabilityType::DenialOfService),
        spec_recommendations(s).contains(
            "Implement proper state management to prevent double spending"@,
        ) <==> contains_type(s, VulnerabilityType::DoubleSpending),
        spec_recommendations(s).contains(
            "Use secure randomness sources like Chainlink VRF or commit-reveal schemes"@,
        ) <==> contains_type(s, VulnerabilityType::RandomnessWeakness),
        spec_recommendations(s).contains("Conduct comprehensive security audits before deployment"@),
        spec_recommendations(s).contains("Implement extensive test coverage including edge cases"@),
        spec_recommendations(s).contains(
            "Use formal verification for critical contract components"@,
        ),
        spec_recommendations(s).contains(
            "Monitor contract activity for suspicious patterns post-deployment"@,
        ),
{
    lemma_advice_texts_distinct();
    let t = advice_texts();
    assert forall|j: int, k: int| 0 <= j < 11 && 0 <= k < 11 && j != k implies t[j] != t[k] by {
        if j < k {
            assert(t[j] != t[k]);
        } else {
            assert(t[k] != t[j]);
        }
    }
    lemma_advice_contains(s, t[0]);
    lemma_advice_contains(s, t[1]);
    lemma_advice_contains(s, t[2]);
    lemma_advice_contains(s, t[3]);
    lemma_advice_contains(s, t[4]);
    lemma_advice_contains(s, t[5]);
    lemma_advice_contains(s, t[6]);
    lemma_advice_contains(s, t[7]);
    lemma_advice_contains(s, t[8]);
    lemma_advice_contains(s, t[9]);
    lemma_advice_contains(s, t[10]);
}

/// Distinct kinds have distinct names in the report, so the heading of each finding's
/// block names that finding's own kind and no other.
pub proof fn law_kind_names_distinct(a: VulnerabilityType, b: VulnerabilityType)
    ensures
        a != b ==> kind_name(a) != kind_name(b),
{
    reveal_strlit("IntegerOverflow");
    reveal_strlit("Reentrancy");
    reveal_strlit("AccessControlBypass");
    reveal_strlit("FrontRunning");
    reveal_strlit("DenialOfService");
    reveal_strlit("LogicError");
    reveal_strlit("GasLimitExceeded");
    reveal_strlit("UnauthorizedTransfer");
    reveal_strlit("DoubleSpending");
    reveal_strlit("TimestampDependency");
    reveal_strlit("RandomnessWeakness");
    reveal_strlit("ExternalCallManipulation");
    if a != b {
        assert(kind_name(a).len() != kind_name(b).len() || kind_name(a)[0] != kind_name(b)[0]);
    }
}

/// Distinct severities have distinct names in the report.
pub proof fn law_severity_names_distinct(a: Severity, b: Severity)
    ensures
        a != b ==> severity_name(a) != severity_name(b),
{
    reveal_strlit("Low");
    reveal_strlit("Medium");
    reveal_strlit("High");
    reveal_strlit("Critical");
    if a != b {
        assert(severity_name(a).len() != severity_name(b).len() || severity_name(a)[0]
            != severity_name(b)[0]);
    }
}

/// The position of a kind's check in the order the checks run.
pub open spec fn check_rank(ty: VulnerabilityType) -> int {
    match ty {
        VulnerabilityType::IntegerOverflow => 0,
        VulnerabilityType::Reentrancy => 1,
        VulnerabilityType::AccessControlBypass => 2,
        VulnerabilityType::FrontRunning => 3,
        VulnerabilityType::DenialOfService => 4,
        VulnerabilityType::LogicError => 5,
        VulnerabilityType::GasLimitExceeded => 6,
        VulnerabilityType::UnauthorizedTransfer => 7,
        VulnerabilityType::DoubleSpending => 8,
        VulnerabilityType::TimestampDependency => 9,
        VulnerabilityType::RandomnessWeakness => 10,
        VulnerabilityType::ExternalCallManipulation => 11,
    }
}

/// Joined lists whose `k`-th list holds only kinds of rank `k`, and at most one finding
/// from the second list on, come in rank order, with no rank but 0 repeated.
proof fn lemma_joined_order(parts: Seq<Seq<VulnerabilityView>>)
    requires
        forall|k: int, i: int|
            0 <= k < parts.len() && 0 <= i < parts[k].len() ==> check_rank(
                #[trigger] parts[k][i].vulnerability_type,
            ) == k,
        forall|k: int| 1 <= k < parts.len() ==> #[trigger] parts[k].len() <= 1,
    ensures
        forall|i: int|
            0 <= i < joined(parts).len() ==> 0 <= check_rank(
                #[trigger] joined(parts)[i].vulnerability_type,
            ) < parts.len(),
        forall|i: int, j: int|
            0 <= i < j < joined(parts).len() ==> check_rank(
                #[trigger] joined(parts)[i].vulnerability_type,
            ) < check_rank(#[trigger] joined(parts)[j].vulnerability_type) || (check_rank(
                joined(parts)[i].vulnerability_type,
            ) == 0 && check_rank(joined(parts)[j].vulnerability_type) == 0),
    decreases parts.len(),
{
    if parts.len() > 0 {
        let earlier = parts.drop_last();
        let last = parts.last();
        assert forall|k: int, i: int|
            0 <= k < earlier.len() && 0 <= i < earlier[k].len() implies check_rank(
            #[trigger] earlier[k][i].vulnerability_type,
        ) == k by {
            assert(earlier[k] == parts[k]);
        }
        assert forall|k: int| 1 <= k < earlier.len() implies #[trigger] earlier[k].len() <= 1 by {
            assert(earlier[k] == parts[k]);
        }
        lemma_joined_order(earlier);
        let a = joined(earlier);
        let all = joined(parts);
        assert(all == a + last);
        assert forall|i: int| 0 <= i < all.len() implies 0 <= check_rank(
            #[trigger] all[i].vulnerability_type,
        ) < parts.len() by {
            if i < a.len() {
                assert(all[i] == a[i]);
            } else {
                assert(all[i] == last[i - a.len()]);
            }
        }
        assert forall|i: int, j: int| 0 <= i < j < all.len() implies check_rank(
            #[trigger] all[i].vulnerability_type,
        ) < check_rank(#[trigger] all[j].vulnerability_type) || (check_rank(
            all[i].vulnerability_type,
        ) == 0 && check_rank(all[j].vulnerability_type) == 0) by {
            if j < a.len() {
                assert(all[i] == a[i] && all[j] == a[j]);
            } else if i < a.len() {
                assert(all[i] == a[i] && all[j] == last[j - a.len()]);
            } else {
                assert(all[i] == last[i - a.len()] && all[j] == last[j - a.len()]);
            }
        }
    }
}

/// The findings come in the order the checks run (integer overflow, reentrancy, access
/// control, front running, denial of service, logic error, gas limit, unauthorised
/// transfer, double spending, timestamp dependency, weak randomness, external call), and
/// every kind but integer overflow is reported at most once.
#[verifier::spinoff_prover]
pub proof fn law_findings_in_check_order(code: &str)
    ensures
        forall|i: int, j: int|
            0 <= i < j < spec_findings(code).len() ==> check_rank(
                #[trigger] spec_findings(code)[i].vulnerability_type,
            ) < check_rank(#[trigger] spec_findings(code)[j].vulnerability_type) || (spec_findings(
                code,
            )[i].vulnerability_type == VulnerabilityType::IntegerOverflow && spec_findings(
                code,
            )[j].vulnerability_type == VulnerabilityType::IntegerOverflow),
{
    let parts = check_outputs(code);
    assert(joined(parts) == spec_findings(code)) by {
        reveal_with_fuel(joined, 13);
    }
    lemma_check_kinds(code);
    assert forall|k: int, i: int|
        0 <= k < parts.len() && 0 <= i < parts[k].len() implies check_rank(
        #[trigger] parts[k][i].vulnerability_type,
    ) == k by {
        assert(all_of_kind(parts[k], kind_of_check(k)));
    }
    assert forall|k: int| 1 <= k < parts.len() implies #[trigger] parts[k].len() <= 1 by {}
    lemma_joined_order(parts);
}

// ---------------------------------------------------------------------------
// The scanner
// ---------------------------------------------------------------------------

/// A finding-preserving copy of one vulnerability.
fn copy_vulnerability(v: &Vulnerability) -> (r: Vulnerability)
    ensures
        r == *v,
{
    Vulnerability {
        vulnerability_type: v.vulnerability_type,
        severity: v.severity,
        description: v.description.clone(),
        location: v.location.clone(),
        recommendation: v.recommendation.clone(),
    }
}

/// A copy of a list of vulnerabilities.
fn copy_vulnerabilities(v: &Vec<Vulnerability>) -> (r: Vec<Vulnerability>)
    ensures
        r@ == v@,
{
    let mut r: Vec<Vulnerability> = Vec::new();
    let mut i: usize = 0;
    while i < v.len()
        invariant
            i <= v@.len(),
            r@ == v@.subrange(0, i as int),
        decreases v@.len() - i,
    {
        r.push(copy_vulnerability(&v[i]));
        i = i + 1;
        assert(r@ =~= v@.subrange(0, i as int));
    }
    assert(v@.subrange(0, v@.len() as int) =~= v@);
    r
}

/// The fraction `n / d` capped at 1.
fn capped_ratio(n: u128, d: u128) -> (r: Ratio)
    ensures
        r == capped(n as nat, d as nat),
{
    Ratio { numer: if n <= d { n } else { d }, denom: d }
}

/// Whether some vulnerability in `v` has type `ty`.
fn has_type(v: &Vec<Vulnerability>, ty: VulnerabilityType) -> (found: bool)
    ensures
        found == contains_type(views(v@), ty),
{
    let mut i: usize = 0;
    while i < v.len()
        invariant
            i <= v@.len(),
            forall|k: int| 0 <= k < i ==> v@[k].vulnerability_type != ty,
        decreases v@.len() - i,
    {
        if v[i].vulnerability_type == ty {
            assert(views(v@)[i as int].vulnerability_type == ty);
            return true;
        }
        i = i + 1;
    }
    assert forall|k: int| 0 <= k < views(v@).len() implies #[trigger] views(
        v@,
    )[k].vulnerability_type != ty by {
        assert(views(v@)[k] == v@[k]@);
    }
    false
}

/// Appends one piece of advice.
fn add_advice(advice: &mut Vec<String>, text: &str)
    ensures
        texts(final(advice)@) == texts(old(advice)@).push(text@),
{
    let t = String::from_str(text);
    advice.push(t);
    assert(texts(advice@) =~= texts(old(advice)@).push(text@));
}

/// Appends `text` when some vulnerability in `v` has type `ty`.
fn advise_if_present(
    v: &Vec<Vulnerability>,
    advice: &mut Vec<String>,
    ty: VulnerabilityType,
    text: &str,
)
    ensures
        texts(final(advice)@) == texts(old(advice)@) + advice_if(views(v@), ty, text@),
{
    if has_type(v, ty) {
        add_advice(advice, text);
    }
    assert(texts(advice@) =~= texts(old(advice)@) + advice_if(views(v@), ty, text@));
}

impl SecurityAnalyzer {
    /// A scanner with no findings and no recorded test results.
    pub fn new() -> (analyzer: Self)
        ensures
            analyzer.vulnerabilities@.len() == 0,
            analyzer.test_results@ == Map::<String, bool>::empty(),
    {
        SecurityAnalyzer { vulnerabilities: Vec::new(), test_results: HashMap::new() }
    }

    /// Counts findings by severity and derives the risk ratios.
    fn calculate_risk_metrics(&self) -> (metrics: RiskMetrics)
        ensures
            metrics == spec_risk_metrics(views(self.vulnerabilities@)),
    {
        let ghost all = views(self.vulnerabilities@);
        let mut critical_count: usize = 0;
        let mut high_count: usize = 0;
        let mut medium_count: usize = 0;
        let mut low_count: usize = 0;
        let mut i: usize = 0;
        while i < self.vulnerabilities.len()
            invariant
                i <= self.vulnerabilities@.len(),
                all == views(self.vulnerabilities@),
                critical_count == count_severity(all.subrange(0, i as int), Severity::Critical),
                high_count == count_severity(all.subrange(0, i as int), Severity::High),
                medium_count == count_severity(all.subrange(0, i as int), Severity::Medium),
                low_count == count_severity(all.subrange(0, i as int), Severity::Low),
            decreases self.vulnerabilities@.len() - i,
        {
            let ghost prefix = all.subrange(0, i as int);
            let ghost next = all.subrange(0, i + 1);
            assert(next.drop_last() =~= prefix);
            assert(next.last() == self.vulnerabilities@[i as int]@);
            proof {
                lemma_counts_sum(prefix);
            }
            match self.vulnerabilities[i].severity {
                Severity::Critical => critical_count = critical_count + 1,
                Severity::High => high_count = high_count + 1,
                Severity::Medium => medium_count = medium_count + 1,
                Severity::Low => low_count = low_count + 1,
            }
            i = i + 1;
        }
        assert(all.subrange(0, i as int) =~= all);
        proof {
            lemma_counts_sum(all);
        }
        let total_vulnerabilities = self.vulnerabilities.len();
        let t = total_vulnerabilities as u128;
        let attack_surface = if total_vulnerabilities > 0 {
            capped_ratio(t, 50)
        } else {
            Ratio { numer: 0, denom: 1 }
        };
        let exploitability = if total_vulnerabilities > 0 {
            let weighted = (critical_count as u128) * 4 + (high_count as u128) * 3
                + (medium_count as u128) * 2 + (low_count as u128);
            capped_ratio(weighted, t * 4)
        } else {
            Ratio { numer: 0, denom: 1 }
        };
        let impact_score = if total_vulnerabilities > 0 {
            capped_ratio(critical_count as u128, t)
        } else {
            Ratio { numer: 0, denom: 1 }
        };
        RiskMetrics {
            total_vulnerabilities,
            critical_count,
            high_count,
            medium_count,
            low_count,
            attack_surface,
            exploitability,
            impact_score,
        }
    }

    /// The overall score on a 0 to 100 scale.
    fn calculate_security_score(&self, metrics: &RiskMetrics) -> (score: Ratio)
        requires
            score_representable(*metrics),
        ensures
            score == spec_security_score(*metrics),
    {
        let m = *metrics;
        let deduction: u128 = (m.critical_count as u128) * 25 + (m.high_count as u128) * 15
            + (m.medium_count as u128) * 10 + (m.low_count as u128) * 5;
        let e = m.exploitability;
        let i = m.impact_score;
        proof {
            assert(score_factor(m) >= score_denominator(m)) by (nonlinear_arith)
                requires
                    score_factor(m) == score_denominator(m) + e.numer * i.denom + i.numer
                        * e.denom,
                    e.numer >= 0,
                    i.numer >= 0,
                    e.denom >= 0,
                    i.denom >= 0,
            ;
        }
        if deduction >= 100 {
            assert(deduction * score_factor(m) >= 100 * score_denominator(m)) by (nonlinear_arith)
                requires
                    deduction >= 100,
                    score_factor(m) >= score_denominator(m),
                    score_denominator(m) >= 0,
            ;
            return Ratio { numer: 0, denom: 1 };
        }
        assert(total_deduction(m) == deduction);
        assert(100 * score_factor(m) <= u128::MAX);
        assert(e.denom * i.denom >= 0 && e.numer * i.denom >= 0 && i.numer * e.denom >= 0)
            by (nonlinear_arith);
        assert(score_denominator(m) == 2 * (e.denom * i.denom)) by (nonlinear_arith)
            requires
                score_denominator(m) == 2 * e.denom * i.denom,
        ;
        let product = e.denom * i.denom;
        let denom = 2 * product;
        let factor = denom + e.numer * i.denom + i.numer * e.denom;
        assert(deduction * factor <= 100 * factor) by (nonlinear_arith)
            requires
                deduction < 100,
                factor >= 0,
        ;
        let base = 100 * denom;
        let adjusted = deduction * factor;
        if base > adjusted {
            Ratio { numer: base - adjusted, denom }
        } else {
            Ratio { numer: 0, denom: 1 }
        }
    }

    /// Advice for the kinds of finding present, then the general advice.
    #[verifier::spinoff_prover]
    fn generate_recommendations(&self) -> (recommendations: Vec<String>)
        ensures
            texts(recommendations@) == spec_recommendations(views(self.vulnerabilities@)),
    {
        let v = &self.vulnerabilities;
        let mut recommendations: Vec<String> = Vec::new();
        assert(texts(recommendations@) =~= Seq::<Seq<char>>::empty());
        advise_if_present(
            v,
            &mut recommendations,
            VulnerabilityType::IntegerOverflow,
            "Implement proper arithmetic overflow checks using checked_* operations",
        );
        advise_if_present(
            v,
            &mut recommendations,
            VulnerabilityType::Reentrancy,
            "Implement reentrancy guards using checks-effects-interactions pattern",
        );
        advise_if_present(
            v,
            &mut recommendations,
            VulnerabilityType::AccessControlBypass,
            "Strengthen access control mechanisms with proper authorization checks",
        );
        advise_if_present(
            v,
            &mut recommendations,
            VulnerabilityType::FrontRunning,
            "Implement commit-reveal schemes or use oracle-based pricing",
        );
        advise_if_present(
            v,
            &mut recommendations,
            VulnerabilityType::DenialOfService,
            "Add bounds checking and gas limits for iterative operations",
        );
        advise_if_present(
            v,
            &mut recommendations,
            VulnerabilityType::DoubleSpending,
            "Implement proper state management to prevent double spending",
        );
        advise_if_present(
            v,
            &mut recommendations,
            VulnerabilityType::RandomnessWeakness,
            "Use secure randomness sources like Chainlink VRF or commit-reveal schemes",
        );
        let ghost specific = texts(recommendations@);
        add_advice(&mut recommendations, "Conduct comprehensive security audits before deployment");
        add_advice(&mut recommendations, "Implement extensive test coverage including edge cases");
        add_advice(&mut recommendations, "Use formal verification for critical contract components");
        add_advice(
            &mut recommendations,
            "Monitor contract activity for suspicious patterns post-deployment",
        );
        assert(texts(recommendations@) =~= specific + general_advice());
        recommendations
    }

    /// Scans `contract_code`, replacing the findings of any earlier analysis, and
    /// reports the findings with their metrics, score and advice.
    pub fn analyze_contract(&mut self, contract_code: &str) -> (result: SecurityAnalysisResult)
        ensures
            views(final(self).vulnerabilities@) == spec_findings(contract_code),
            final(self).test_results == old(self).test_results,
            views(result.vulnerabilities@) == spec_findings(contract_code),
            result.risk_metrics == spec_risk_metrics(spec_findings(contract_code)),
            result.security_score == spec_security_score(result.risk_metrics),
            texts(result.recommendations@) == spec_recommendations(spec_findings(contract_code)),
    {
        self.vulnerabilities.clear();
        assert(views(self.vulnerabilities@) =~= Seq::<VulnerabilityView>::empty());
        self.check_integer_overflow(contract_code);
        self.check_reentrancy(contract_code);
        self.check_access_control(contract_code);
        self.check_front_running(contract_code);
        self.check_denial_of_service(contract_code);
        self.check_logic_errors(contract_code);
        self.check_gas_limit(contract_code);
        self.check_unauthorized_transfer(contract_code);
        self.check_double_spending(contract_code);
        self.check_timestamp_dependency(contract_code);
        self.check_randomness_weakness(contract_code);
        self.check_external_call_manipulation(contract_code);
        assert(views(self.vulnerabilities@) =~= spec_findings(contract_code));
        proof {
            lemma_findings_len(contract_code);
            lemma_findings_score_representable(spec_findings(contract_code));
        }
        let risk_metrics = self.calculate_risk_metrics();
        let security_score = self.calculate_security_score(&risk_metrics);
        let recommendations = self.generate_recommendations();
        SecurityAnalysisResult {
            vulnerabilities: copy_vulnerabilities(&self.vulnerabilities),
            security_score,
            risk_metrics,
            recommendations,
        }
    }

    /// Renders `result` as a Markdown report. The score and the three risk ratios are
    /// shown as the given texts, which the caller formats.
    pub fn generate_report(
        &self,
        result: &SecurityAnalysisResult,
        score_text: &str,
        attack_surface_text: &str,
        exploitability_text: &str,
        impact_text: &str,
    ) -> (report: String)
        ensures
            report@ == spec_report(
                views(result.vulnerabilities@),
                result.risk_metrics,
                texts(result.recommendations@),
                score_text@,
                attack_surface_text@,
                exploitability_text@,
                impact_text@,
            ),
    {
        let m = result.risk_metrics;
        let mut report = String::from_str("# Security Analysis Report\n\n");
        report.append("## Overall Security Score: ");
        report.append(score_text);
        report.append("/100\n\n");
        report.append("## Risk Metrics\n\n");
        report.append("- Total Vulnerabilities: ");
        report.append(decimal_string(m.total_vulnerabilities).as_str());
        report.append("\n");
        report.append("- Critical: ");
        report.append(decimal_string(m.critical_count).as_str());
        report.append("\n");
        report.append("- High: ");
        report.append(decimal_string(m.high_count).as_str());
        report.append("\n");
        report.append("- Medium: ");
        report.append(decimal_string(m.medium_count).as_str());
        report.append("\n");
        report.append("- Low: ");
        report.append(decimal_string(m.low_count).as_str());
        report.append("\n");
        report.append("- Attack Surface: ");
        report.append(attack_surface_text);
        report.append("\n");
        report.append("- Exploitability: ");
        report.append(exploitability_text);
        report.append("\n");
        report.append("- Impact Score: ");
        report.append(impact_text);
        report.append("\n\n");
        report.append("## Vulnerabilities\n\n");
        let ghost header = report@;
        let ghost findings = views(result.vulnerabilities@);
        let mut i: usize = 0;
        while i < result.vulnerabilities.len()
            invariant
                i <= result.vulnerabilities@.len(),
                findings == views(result.vulnerabilities@),
                report@ == header + findings_section(findings.subrange(0, i as int)),
            decreases result.vulnerabilities@.len() - i,
        {
            let block = finding_block_string(&result.vulnerabilities[i]);
            let ghost before = report@;
            report.append(block.as_str());
            assert(findings.subrange(0, i + 1).drop_last() =~= findings.subrange(0, i as int));
            assert(findings.subrange(0, i + 1).last() == result.vulnerabilities@[i as int]@);
            i = i + 1;
            assert(report@ =~= header + findings_section(findings.subrange(0, i as int)));
        }
        assert(findings.subrange(0, i as int) =~= findings);
        report.append("## Recommendations\n\n");
        let ghost middle = report@;
        let ghost advice = texts(result.recommendations@);
        let mut k: usize = 0;
        while k < result.recommendations.len()
            invariant
                k <= result.recommendations@.len(),
                advice == texts(result.recommendations@),
                report@ == middle + advice_section(advice.subrange(0, k as int)),
            decreases result.recommendations@.len() - k,
        {
            let line = advice_line_string(k + 1, &result.recommendations[k]);
            report.append(line.as_str());
            assert(advice.subrange(0, k + 1).drop_last() =~= advice.subrange(0, k as int));
            assert(advice.subrange(0, k + 1).last() == result.recommendations@[k as int]@);
            k = k + 1;
            assert(report@ =~= middle + advice_section(advice.subrange(0, k as int)));
        }
        assert(advice.subrange(0, k as int) =~= advice);
        report
    }

    /// Appends one finding.
    fn record(
        &mut self,
        ty: VulnerabilityType,
        severity: Severity,
        description: String,
        location: &str,
        recommendation: &str,
    )
        ensures
            views(final(self).vulnerabilities@) == views(old(self).vulnerabilities@).push(
                finding(ty, severity, description@, location@, recommendation@),
            ),
            final(self).test_results == old(self).test_results,
    {
        let v = Vulnerability {
            vulnerability_type: ty,
            severity,
            description,
            location: String::from_str(location),
            recommendation: String::from_str(recommendation),
        };
        self.vulnerabilities.push(v);
        assert(views(self.vulnerabilities@) =~= views(old(self).vulnerabilities@).push(v@));
    }

    /// Reports each arithmetic pattern that occurs in code that never mentions `checked_`.
    fn check_integer_overflow(&mut self, code: &str)
        ensures
            views(final(self).vulnerabilities@) == views(old(self).vulnerabilities@)
                + overflow_findings(code),
            final(self).test_results == old(self).test_results,
    {
        let patterns: [&str; 6] = [
            "unchecked_add",
            "unchecked_mul",
            "unchecked_sub",
            "a + b",
            "a * b",
            "a - b",
        ];
        assert(patterns@ == overflow_patterns());
        let mut k: usize = 0;
        while k < 6
            invariant
                k <= 6,
                patterns@ == overflow_patterns(),
                views(self.vulnerabilities@) == views(old(self).vulnerabilities@)
                    + overflow_findings_upto(code, k as int),
                self.test_results == old(self).test_results,
            decreases 6 - k,
        {
            let pattern = patterns[k];
            if str_contains(code, pattern) && !str_contains(code, "checked_") {
                let mut description = String::from_str(
                    "Potential integer overflow detected in pattern: ",
                );
                description.append(pattern);
                self.record(
                    VulnerabilityType::IntegerOverflow,
                    Severity::High,
                    description,
                    "Arithmetic operation",
                    "Use checked arithmetic operations (checked_add, checked_mul, checked_sub)",
                );
            }
            k = k + 1;
            assert(views(self.vulnerabilities@) =~= views(old(self).vulnerabilities@)
                + overflow_findings_upto(code, k as int));
        }
    }

    fn check_reentrancy(&mut self, code: &str)
        ensures
            views(final(self).vulnerabilities@) == views(old(self).vulnerabilities@)
                + reentrancy_findings(code),
            final(self).test_results == old(self).test_results,
    {
        if str_contains(code, "external_call") && !str_contains(code, "reentrancy_guard") {
            self.record(
                VulnerabilityType::Reentrancy,
                Severity::Critical,
                String::from_str("Potential reentrancy vulnerability detected"),
                "External call without reentrancy protection",
                "Implement reentrancy guards using checks-effects-interactions pattern",
            );
        }
        assert(views(self.vulnerabilities@) =~= views(old(self).vulnerabilities@)
            + reentrancy_findings(code));
    }

    fn check_access_control(&mut self, code: &str)
        ensures
            views(final(self).vulnerabilities@) == views(old(self).vulnerabilities@)
                + access_control_findings(code),
            final(self).test_results == old(self).test_results,
    {
        if str_contains(code, "only_owner") && !str_contains(code, "require(msg.sender == owner)") {
            self.record(
                VulnerabilityType::AccessControlBypass,
                Severity::High,
                String::from_str("Weak access control implementation detected"),
                "Access control mechanism",
                "Implement proper access control with explicit owner checks",
            );
        }
        assert(views(self.vulnerabilities@) =~= views(old(self).vulnerabilities@)
            + access_control_findings(code));
    }

    fn check_front_running(&mut self, code: &str)
        ensures
            views(final(self).vulnerabilities@) == views(old(self).vulnerabilities@)
                + front_running_findings(code),
            final(self).test_results == old(self).test_results,
    {
        if str_contains(code, "block.timestamp") && str_contains(code, "price") {
            self.record(
                VulnerabilityType::FrontRunning,
                Severity::Medium,
                String::from_str("Potential front-running vulnerability due to timestamp dependency"),
                "Price calculation",
                "Use commit-reveal scheme or oracle-based pricing",
            );
        }
        assert(views(self.vulnerabilities@) =~= views(old(self).vulnerabilities@)
            + front_running_findings(code));
    }

    fn check_denial_of_service(&mut self, code: &str)
        ensures
            views(final(self).vulnerabilities@) == views(old(self).vulnerabilities@)
                + denial_of_service_findings(code),
            final(self).test_results == old(self).test_results,
    {
        if str_contains(code, "while") || (str_contains(code, "for") && str_contains(code, "push")) {
            self.record(
                VulnerabilityType::DenialOfService,
                Severity::High,
                String::from_str("Potential denial of service through unbounded loops"),
                "Loop with array operations",
                "Add bounds checking or use fixed-size arrays",
            );
        }
        assert(views(self.vulnerabilities@) =~= views(old(self).vulnerabilities@)
            + denial_of_service_findings(code));
    }

    fn check_logic_errors(&mut self, code: &str)
        ensures
            views(final(self).vulnerabilities@) == views(old(self).vulnerabilities@)
                + logic_error_findings(code),
            final(self).test_results == old(self).test_results,
    {
        if str_contains(code, "require") && str_contains(code, "||") {
            self.record(
                VulnerabilityType::LogicError,
                Severity::Medium,
                String::from_str("Complex require statement may contain logic error"),
                "Condition checking",
                "Simplify complex conditions and add comprehensive tests",
            );
        }
        assert(views(self.vulnerabilities@) =~= views(old(self).vulnerabilities@)
            + logic_error_findings(code));
    }

    fn check_gas_limit(&mut self, code: &str)
        ensures
            views(final(self).vulnerabilities@) == views(old(self).vulnerabilities@)
                + gas_limit_findings(code),
            final(self).test_results == old(self).test_results,
    {
        if str_contains(code, "for") && str_contains(code, "length") {
            self.record(
                VulnerabilityType::GasLimitExceeded,
                Severity::Medium,
                String::from_str("Potential gas limit issue with unbounded loop"),
                "Loop over dynamic array",
                "Add gas limits or use pagination for large arrays",
            );
        }
        assert(views(self.vulnerabilities@) =~= views(old(self).vulnerabilities@)
            + gas_limit_findings(code));
    }

    fn check_unauthorized_transfer(&mut self, code: &str)
        ensures
            views(final(self).vulnerabilities@) == views(old(self).vulnerabilities@)
                + unauthorized_transfer_findings(code),
            final(self).test_results == old(self).test_results,
    {
        if str_contains(code, "transfer") && !str_contains(code, "require") {
            self.record(
                VulnerabilityType::UnauthorizedTransfer,
                Severity::High,
                String::from_str("Transfer without proper authorization check"),
                "Transfer function",
                "Add proper authorization checks before transfers",
            );
        }
        assert(views(self.vulnerabilities@) =~= views(old(self).vulnerabilities@)
            + unauthorized_transfer_findings(code));
    }

    fn check_double_spending(&mut self, code: &str)
        ensures
            views(final(self).vulnerabilities@) == views(old(self).vulnerabilities@)
                + double_spending_findings(code),
            final(self).test_results == old(self).test_results,
    {
        if str_contains(code, "balance") && str_contains(code, "transfer") && !str_contains(code, "update") {
            self.record(
                VulnerabilityType::DoubleSpending,
                Severity::Critical,
                String::from_str("Potential double spending vulnerability"),
                "Balance update",
                "Implement proper balance updates and checks",
            );
        }
        assert(views(self.vulnerabilities@) =~= views(old(self).vulnerabilities@)
            + double_spending_findings(code));
    }

    fn check_timestamp_dependency(&mut self, code: &str)
        ensures
            views(final(self).vulnerabilities@) == views(old(self).vulnerabilities@)
                + timestamp_findings(code),
            final(self).test_results == old(self).test_results,
    {
        if str_contains(code, "block.timestamp") && str_contains(code, "require") {
            self.record(
                VulnerabilityType::TimestampDependency,
                Severity::Low,
                String::from_str("Timestamp dependency detected"),
                "Time-based condition",
                "Use block number or oracle for time-sensitive operations",
            );
        }
        assert(views(self.vulnerabilities@) =~= views(old(self).vulnerabilities@)
            + timestamp_findings(code));
    }

    fn check_randomness_weakness(&mut self, code: &str)
        ensures
            views(final(self).vulnerabilities@) == views(old(self).vulnerabilities@)
                + randomness_findings(code),
            final(self).test_results == old(self).test_results,
    {
        if str_contains(code, "keccak256") && str_contains(code, "block") {
            self.record(
                VulnerabilityType::RandomnessWeakness,
                Severity::High,
                String::from_str("Weak randomness using block variables"),
                "Random number generation",
                "Use proper randomness oracle or commit-reveal scheme",
            );
        }
        assert(views(self.vulnerabilities@) =~= views(old(self).vulnerabilities@)
            + randomness_findings(code));
    }

    fn check_external_call_manipulation(&mut self, code: &str)
        ensures
            views(final(self).vulnerabilities@) == views(old(self).vulnerabilities@)
                + external_call_findings(code),
            final(self).test_results == old(self).test_results,
    {
        if str_contains(code, "call") && !str_contains(code, "require") {
            self.record(
                VulnerabilityType::ExternalCallManipulation,
                Severity::Medium,
                String::from_str("External call without proper validation"),
                "External call",
                "Add proper validation and checks for external calls",
            );
        }
        assert(views(self.vulnerabilities@) =~= views(old(self).vulnerabilities@)
            + external_call_findings(code));
    }
}

impl Default for SecurityAnalyzer {
    /// Same as [`SecurityAnalyzer::new`].
    fn default() -> (analyzer: Self)
        ensures
            analyzer.vulnerabilities@.len() == 0,
            analyzer.test_results@ == Map::<String, bool>::empty(),
    {
        Self::new()
    }
}

} // verus!
