use propchain_security_tests::security_analysis::security_tests::test_attack_resistance;
use propchain_security_tests::security_analysis::{
    decimal_string, Ratio, SecurityAnalyzer, Severity, VulnerabilityType,
};

fn value(r: Ratio) -> f64 {
    r.numer as f64 / r.denom as f64
}

#[test]
fn test_library_imports() {
    println!("✓ Property-based tests module loaded");
    println!("✓ Fuzz tests module loaded");
    println!("✓ Security analysis module loaded");
}

#[test]
fn test_security_analyzer_creation() {
    let analyzer = SecurityAnalyzer::new();
    assert_eq!(analyzer.vulnerabilities.len(), 0);
    assert_eq!(analyzer.test_results.len(), 0);
}

#[test]
fn test_security_analysis_empty_code() {
    let mut analyzer = SecurityAnalyzer::new();
    let result = analyzer.analyze_contract("");
    assert_eq!(result.vulnerabilities.len(), 0);
    assert_eq!(value(result.security_score), 100.0);
}

#[test]
fn test_security_metrics_calculation() {
    let mut analyzer = SecurityAnalyzer::new();
    let code_with_vulns = r#"
            function vulnerableAdd(uint a, uint b) public pure returns (uint) {
                return a + b; // Potential overflow
            }
        "#;

    let result = analyzer.analyze_contract(code_with_vulns);
    assert!(result.vulnerabilities.len() > 0);
    assert!(value(result.security_score) < 100.0);
    assert!(result.risk_metrics.total_vulnerabilities > 0);
}

#[test]
fn default_analyzer_is_empty() {
    let analyzer = SecurityAnalyzer::default();
    assert!(analyzer.vulnerabilities.is_empty());
    assert!(analyzer.test_results.is_empty());
}

#[test]
fn single_overflow_finding_exact_values() {
    let mut analyzer = SecurityAnalyzer::new();
    let result = analyzer.analyze_contract("a + b");
    assert_eq!(result.vulnerabilities.len(), 1);
    let v = &result.vulnerabilities[0];
    assert_eq!(v.vulnerability_type, VulnerabilityType::IntegerOverflow);
    assert_eq!(v.severity, Severity::High);
    assert_eq!(v.description, "Potential integer overflow detected in pattern: a + b");
    assert_eq!(v.location, "Arithmetic operation");
    assert_eq!(
        v.recommendation,
        "Use checked arithmetic operations (checked_add, checked_mul, checked_sub)"
    );
    let m = result.risk_metrics;
    assert_eq!(m.total_vulnerabilities, 1);
    assert_eq!((m.critical_count, m.high_count, m.medium_count, m.low_count), (0, 1, 0, 0));
    assert_eq!(m.attack_surface, Ratio { numer: 1, denom: 50 });
    assert_eq!(m.exploitability, Ratio { numer: 3, denom: 4 });
    assert_eq!(m.impact_score, Ratio { numer: 0, denom: 1 });
    // 100 - 15 * (1 + (0.75 + 0) / 2) = 79.375
    assert_eq!(result.security_score, Ratio { numer: 635, denom: 8 });
    assert_eq!(value(result.security_score), 79.375);
    assert_eq!(
        result.recommendations,
        vec![
            "Implement proper arithmetic overflow checks using checked_* operations".to_string(),
            "Conduct comprehensive security audits before deployment".to_string(),
            "Implement extensive test coverage including edge cases".to_string(),
            "Use formal verification for critical contract components".to_string(),
            "Monitor contract activity for suspicious patterns post-deployment".to_string(),
        ]
    );
}

#[test]
fn all_arithmetic_patterns_reported_in_order() {
    let mut analyzer = SecurityAnalyzer::new();
    let result = analyzer.analyze_contract("x = a * b; y = a - b; z = a + b;");
    let descriptions: Vec<&str> =
        result.vulnerabilities.iter().map(|v| v.description.as_str()).collect();
    assert_eq!(
        descriptions,
        vec![
            "Potential integer overflow detected in pattern: a + b",
            "Potential integer overflow detected in pattern: a * b",
            "Potential integer overflow detected in pattern: a - b",
        ]
    );
}

#[test]
fn checked_arithmetic_suppresses_overflow_findings() {
    let mut analyzer = SecurityAnalyzer::new();
    let result = analyzer.analyze_contract("a + b; x.checked_add(y)");
    assert!(result.vulnerabilities.is_empty());
}

#[test]
fn unchecked_patterns_are_never_reported() {
    let mut analyzer = SecurityAnalyzer::new();
    let result = analyzer.analyze_contract("unchecked_add unchecked_mul unchecked_sub");
    assert!(result.vulnerabilities.is_empty());
    assert_eq!(value(result.security_score), 100.0);
    assert_eq!(result.recommendations.len(), 4);
}

fn kinds(code: &str) -> Vec<(VulnerabilityType, Severity)> {
    let mut analyzer = SecurityAnalyzer::new();
    analyzer
        .analyze_contract(code)
        .vulnerabilities
        .iter()
        .map(|v| (v.vulnerability_type, v.severity))
        .collect()
}

#[test]
fn each_check_fires_on_its_pattern() {
    assert_eq!(kinds("external_call"), vec![
        (VulnerabilityType::Reentrancy, Severity::Critical),
        (VulnerabilityType::ExternalCallManipulation, Severity::Medium),
    ]);
    assert_eq!(kinds("only_owner"), vec![(VulnerabilityType::AccessControlBypass, Severity::High)]);
    assert_eq!(kinds("block.timestamp price"), vec![(VulnerabilityType::FrontRunning, Severity::Medium)]);
    assert_eq!(kinds("while"), vec![(VulnerabilityType::DenialOfService, Severity::High)]);
    assert_eq!(kinds("for push"), vec![(VulnerabilityType::DenialOfService, Severity::High)]);
    assert_eq!(kinds("require ||"), vec![(VulnerabilityType::LogicError, Severity::Medium)]);
    assert_eq!(kinds("for length"), vec![(VulnerabilityType::GasLimitExceeded, Severity::Medium)]);
    assert_eq!(kinds("transfer"), vec![(VulnerabilityType::UnauthorizedTransfer, Severity::High)]);
    assert_eq!(kinds("balance transfer require"), vec![(VulnerabilityType::DoubleSpending, Severity::Critical)]);
    assert_eq!(kinds("block.timestamp require"), vec![(VulnerabilityType::TimestampDependency, Severity::Low)]);
    assert_eq!(kinds("keccak256 block"), vec![(VulnerabilityType::RandomnessWeakness, Severity::High)]);
    assert_eq!(kinds("call"), vec![(VulnerabilityType::ExternalCallManipulation, Severity::Medium)]);
}

#[test]
fn guards_suppress_findings() {
    assert!(kinds("external_call reentrancy_guard require").is_empty());
    assert!(kinds("only_owner require(msg.sender == owner)").is_empty());
    assert!(kinds("for").is_empty());
    assert!(kinds("push").is_empty());
    assert!(kinds("balance transfer update require").is_empty());
}

#[test]
fn critical_findings_scored_exactly() {
    let mut analyzer = SecurityAnalyzer::new();
    let result = analyzer.analyze_contract("balance transfer");
    // DoubleSpending (critical), UnauthorizedTransfer (high)
    let m = result.risk_metrics;
    assert_eq!((m.critical_count, m.high_count, m.medium_count, m.low_count), (1, 1, 0, 0));
    assert_eq!(m.exploitability, Ratio { numer: 7, denom: 8 });
    assert_eq!(m.impact_score, Ratio { numer: 1, denom: 2 });
    // 100 - 40 * (1 + (7/8 + 1/2) / 2) = 100 - 67.5 = 32.5
    assert_eq!(value(result.security_score), 32.5);
    assert_eq!(result.recommendations.len(), 5);
    assert_eq!(result.recommendations[0], "Implement proper state management to prevent double spending");
}

#[test]
fn score_floors_at_zero() {
    let mut analyzer = SecurityAnalyzer::new();
    let code = "a + b a * b a - b external_call only_owner block.timestamp price while for push length transfer balance keccak256 call";
    let result = analyzer.analyze_contract(code);
    assert!(result.vulnerabilities.len() >= 10);
    assert_eq!(result.security_score.numer, 0);
    assert_eq!(value(result.security_score), 0.0);
    let m = result.risk_metrics;
    assert_eq!(
        m.critical_count + m.high_count + m.medium_count + m.low_count,
        m.total_vulnerabilities
    );
    assert!(m.exploitability.numer <= m.exploitability.denom);
    assert!(m.impact_score.numer <= m.impact_score.denom);
    assert!(m.attack_surface.numer <= m.attack_surface.denom);
}

#[test]
fn analysis_replaces_earlier_findings() {
    let mut analyzer = SecurityAnalyzer::new();
    let first = analyzer.analyze_contract("external_call");
    assert_eq!(first.vulnerabilities.len(), 2);
    let second = analyzer.analyze_contract("");
    assert!(second.vulnerabilities.is_empty());
    assert!(analyzer.vulnerabilities.is_empty());
    let again = analyzer.analyze_contract("external_call");
    assert_eq!(again.vulnerabilities.len(), 2);
    assert_eq!(again.security_score, first.security_score);
    assert_eq!(analyzer.vulnerabilities.len(), 2);
}

#[test]
fn severity_order() {
    assert!(Severity::Low < Severity::Medium);
    assert!(Severity::Medium < Severity::High);
    assert!(Severity::High < Severity::Critical);
}

#[test]
fn attack_simulations_all_pass() {
    let results = test_attack_resistance();
    assert_eq!(results.len(), 5);
    for name in [
        "reentrancy_resistance",
        "overflow_protection",
        "access_control",
        "front_running_resistance",
        "dos_resistance",
    ] {
        assert_eq!(results.get(name), Some(&true));
    }
}

#[test]
fn report_layout() {
    let mut analyzer = SecurityAnalyzer::new();
    let result = analyzer.analyze_contract("a + b");
    let report = analyzer.generate_report(&result, "79.4", "0.02", "0.75", "0.00");
    let expected = "# Security Analysis Report\n\n\
## Overall Security Score: 79.4/100\n\n\
## Risk Metrics\n\n\
- Total Vulnerabilities: 1\n\
- Critical: 0\n\
- High: 1\n\
- Medium: 0\n\
- Low: 0\n\
- Attack Surface: 0.02\n\
- Exploitability: 0.75\n\
- Impact Score: 0.00\n\n\
## Vulnerabilities\n\n\
### IntegerOverflow (High)\n\
**Description:** Potential integer overflow detected in pattern: a + b\n\
**Location:** Arithmetic operation\n\
**Recommendation:** Use checked arithmetic operations (checked_add, checked_mul, checked_sub)\n\n\
## Recommendations\n\n\
1. Implement proper arithmetic overflow checks using checked_* operations\n\
2. Conduct comprehensive security audits before deployment\n\
3. Implement extensive test coverage including edge cases\n\
4. Use formal verification for critical contract components\n\
5. Monitor contract activity for suspicious patterns post-deployment\n";
    assert_eq!(report, expected);
}

#[test]
fn report_of_clean_code() {
    let mut analyzer = SecurityAnalyzer::new();
    let result = analyzer.analyze_contract("");
    let report = analyzer.generate_report(&result, "100.0", "0.00", "0.00", "0.00");
    assert!(report.starts_with("# Security Analysis Report\n\n## Overall Security Score: 100.0/100\n\n"));
    assert!(report.contains("- Total Vulnerabilities: 0\n"));
    assert!(report.contains("## Vulnerabilities\n\n## Recommendations\n\n1. Conduct"));
    assert!(report.ends_with("4. Monitor contract activity for suspicious patterns post-deployment\n"));
}

#[test]
fn report_numbers_findings_blocks_in_order() {
    let mut analyzer = SecurityAnalyzer::new();
    let result = analyzer.analyze_contract("external_call");
    let report = analyzer.generate_report(&result, "x", "y", "z", "w");
    let first = report.find("### Reentrancy (Critical)\n").unwrap();
    let second = report.find("### ExternalCallManipulation (Medium)\n").unwrap();
    assert!(first < second);
    assert!(report.contains("- Critical: 1\n- High: 0\n- Medium: 1\n- Low: 0\n"));
    assert!(report.contains("1. Implement reentrancy guards using checks-effects-interactions pattern\n2. Conduct"));
}

#[test]
fn decimal_notation() {
    assert_eq!(decimal_string(0), "0");
    assert_eq!(decimal_string(7), "7");
    assert_eq!(decimal_string(10), "10");
    assert_eq!(decimal_string(1234), "1234");
    assert_eq!(decimal_string(usize::MAX), usize::MAX.to_string());
}

#[test]
fn score_monotone_example() {
    let mut analyzer = SecurityAnalyzer::new();
    let one = analyzer.analyze_contract("transfer");
    let two = analyzer.analyze_contract("balance transfer");
    assert!(value(two.security_score) <= value(one.security_score));
}

#[test]
fn metrics_ignore_order_of_findings() {
    let mut analyzer = SecurityAnalyzer::new();
    let a = analyzer.analyze_contract("only_owner external_call");
    let b = analyzer.analyze_contract("external_call only_owner");
    assert_eq!(a.risk_metrics, b.risk_metrics);
    assert_eq!(a.security_score, b.security_score);
}

#[test]
fn advice_depends_only_on_kinds_present() {
    let mut analyzer = SecurityAnalyzer::new();
    let a = analyzer.analyze_contract("a + b; a * b; external_call");
    let b = analyzer.analyze_contract("external_call a - b");
    assert_eq!(a.recommendations, b.recommendations);
    let all = analyzer.analyze_contract(
        "a + b external_call only_owner block.timestamp price while balance transfer keccak256 block",
    );
    assert_eq!(all.recommendations.len(), 11);
    for (i, x) in all.recommendations.iter().enumerate() {
        for y in &all.recommendations[i + 1..] {
            assert_ne!(x, y);
        }
    }
}
