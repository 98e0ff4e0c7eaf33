use aloo::ai::{AiClient, AiConfig, AiError, PromptBuilder};
use aloo::types::{ScanResult, ScanSession};

fn empty_result() -> ScanResult {
    let mut s = ScanSession::new(vec!["10.0.0.0/24".into()]);
    s.complete();
    ScanResult { session: s, hosts: vec![] }
}

#[test]
fn prompt_builder_produces_non_empty_string() {
    let result = empty_result();
    let prompt = PromptBuilder::build_scan_summary_prompt(&result);
    assert!(!prompt.is_empty());
    assert!(prompt.contains("security analyst"));
}

#[test]
fn prompt_builder_includes_target() {
    let result = empty_result();
    let prompt = PromptBuilder::build_scan_summary_prompt(&result);
    assert!(prompt.contains("10.0.0.0/24"));
}

#[test]
fn cve_prompt_mentions_cve_id() {
    let p = PromptBuilder::build_cve_explain_prompt("CVE-2023-44487", "nginx", "10.0.0.1");
    assert!(p.contains("CVE-2023-44487"));
    assert!(p.contains("nginx"));
}

#[test]
fn ai_config_usability_empty_key() {
    let c = AiConfig::new("https://api.example.com", "", "gpt-4o");
    assert!(!c.is_usable());
}

#[test]
fn ai_config_usability_valid() {
    let c = AiConfig::new("https://api.example.com", "sk-test123", "gpt-4o");
    assert!(c.is_usable());
}

#[test]
fn ai_client_not_configured_error() {
    let config = AiConfig::new("", "", "gpt-4o");
    let client = AiClient::new(config);
    let result = empty_result();
    let err = client.summarise(&result).unwrap_err();
    assert!(matches!(err, AiError::NotConfigured));
}

#[test]
fn ai_client_stub_returns_placeholder() {
    let config = AiConfig::new("https://api.example.com", "sk-test", "gpt-4o");
    let client = AiClient::new(config);
    let result = empty_result();
    let s = client.summarise(&result).unwrap();
    assert!(s.contains("stub"));
}

// ── further cases ─────────────────────────────────────────────────────────────

#[test]
fn summary_prompt_exact_counts_and_services() {
    let prompt = PromptBuilder::build_scan_summary_prompt(&empty_result());
    assert!(prompt.contains("- **Hosts Discovered:** 0\n"));
    assert!(prompt.contains("- **Detected Services:** None identified\n"));
    assert!(prompt.ends_with("4. Remediation Priorities (numbered list)\n"));
}

#[test]
fn cve_prompt_exact_text() {
    let p = PromptBuilder::build_cve_explain_prompt("CVE-1", "ssh", "h");
    assert_eq!(
        p,
        "Explain CVE-1 as it applies to a ssh service on host h. Include: (1) what the vulnerability is, (2) exploitation likelihood, (3) business impact, (4) specific remediation steps."
    );
}

#[test]
fn client_placeholders_are_exact() {
    let client = AiClient::new(AiConfig::new("u", "k", "m1"));
    assert_eq!(client.summarise(&empty_result()).unwrap(), "[AI stub] Would summarise scan with 0 hosts using model 'm1'.");
    assert_eq!(client.explain_cve("CVE-9", "http", "1.2.3.4").unwrap(), "[AI stub] Would explain CVE-9 for http on 1.2.3.4.");
    let no_url = AiClient::new(AiConfig::new("", "k", "m1"));
    assert_eq!(no_url.explain_cve("a", "b", "c"), Err(AiError::NotConfigured));
}
