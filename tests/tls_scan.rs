use kairoa::classify::get_cipher_suite_info;
use kairoa::hex::format_hex;
use kairoa::names::{convert_iana_to_openssl, convert_openssl_to_iana, curated_cipher_suites};
use kairoa::report::{
    build_tls_report, plan_scan, reconcile_negotiated, CertificateInfo, CipherSuiteInfo,
    HandshakeOutcome, ScanError, ScanPlan, TlsCheckRequest, TlsProtocol, ToolRun, VersionPin,
};
use kairoa::tool_output::{cipher_probe_succeeded, negotiated_suite_from_output};

fn class(name: &str) -> (String, String) {
    get_cipher_suite_info(name)
}

fn pair(v: &str, l: &str) -> (String, String) {
    (v.to_string(), l.to_string())
}

fn plan(host: &str) -> ScanPlan {
    plan_scan(&TlsCheckRequest { host: host.to_string(), port: None }).unwrap()
}

fn refused_versions() -> Vec<HandshakeOutcome> {
    (0..4).map(|i| Err(format!("Connection failed: refused {}", i))).collect()
}

fn no_runs() -> Vec<Option<ToolRun>> {
    (0..21).map(|_| None).collect()
}

fn run(stdout: &str, exit_success: bool) -> Option<ToolRun> {
    Some(ToolRun { stdout: stdout.to_string(), exit_success })
}

fn cert() -> CertificateInfo {
    CertificateInfo {
        subject: "CN=example.org".to_string(),
        issuer: "CN=Example CA".to_string(),
        valid_from: "2024-01-01".to_string(),
        valid_to: "2025-01-01".to_string(),
        serial_number: "01".to_string(),
    }
}

#[test]
fn classifier_examples() {
    assert_eq!(class("TLS_AES_128_GCM_SHA256"), pair("TLSv1.3", "secure"));
    assert_eq!(class("TLS_RSA_WITH_AES_256_GCM_SHA384"), pair("TLSv1.2", "moderate"));
    assert_eq!(class("TLS_RSA_WITH_AES_128_CBC_SHA"), pair("TLSv1.2", "insecure"));
    assert_eq!(class("TLS_ECDHE_RSA_WITH_AES_128_CBC_SHA"), pair("TLSv1.2", "weak"));
}

#[test]
fn classifier_cascade_order() {
    assert_eq!(class("TLS_CHACHA20_POLY1305_SHA256"), pair("TLSv1.3", "secure"));
    assert_eq!(class("TLS_ECDHE_RSA_WITH_AES_256_GCM_SHA384"), pair("TLSv1.2", "secure"));
    assert_eq!(class("TLS_DHE_DSS_WITH_AES_128_GCM_SHA256"), pair("TLSv1.2", "secure"));
    assert_eq!(class("TLS_ECDHE_RSA_WITH_CHACHA20_POLY1305_SHA256"), pair("TLSv1.2", "secure"));
    assert_eq!(class("TLS_ECDHE_RSA_WITH_AES_128_CBC_SHA256"), pair("TLSv1.2", "moderate"));
    assert_eq!(class("TLS_RSA_WITH_AES_256_CBC_SHA384"), pair("TLSv1.2", "moderate"));
    assert_eq!(class("ECDHE-RSA-AES128-GCM-SHA256"), pair("TLSv1.2", "moderate"));
    assert_eq!(class(""), pair("TLSv1.2", "moderate"));
}

#[test]
fn classifier_tier_is_one_of_four() {
    let tiers = ["secure", "moderate", "weak", "insecure"];
    for name in curated_cipher_suites().iter().chain(["X", "_CBC_SHA", "TLS_AES_"].map(String::from).iter()) {
        let (v, l) = class(name);
        assert!(v == "TLSv1.2" || v == "TLSv1.3");
        assert!(tiers.contains(&l.as_str()));
        assert_eq!(class(name), (v, l));
    }
}

#[test]
fn openssl_names_normalise_to_canonical_form() {
    assert_eq!(convert_openssl_to_iana("tls_aes_256_gcm_sha384"), "TLS_AES_256_GCM_SHA384");
    assert_eq!(convert_openssl_to_iana("ecdhe:rsa:aes"), "ECDHE_RSA_AES");
    assert_eq!(convert_openssl_to_iana("ECDHE-RSA-AES128-GCM-SHA256"), "TLS_ECDHE_RSA_WITH_AES_128_GCM_SHA256");
    assert_eq!(convert_openssl_to_iana("ecdhe-rsa-aes128-gcm-sha256"), "TLS_ECDHE_RSA_WITH_AES_128_GCM_SHA256");
    assert_eq!(convert_openssl_to_iana("AES256-GCM-SHA384"), "TLS_RSA_WITH_AES_256_GCM_SHA384");
    assert_eq!(convert_openssl_to_iana("dhe-rsa-aes256-gcm-sha384"), "DHE-RSA-AES256-GCM-SHA384");
    assert_eq!(convert_openssl_to_iana(""), "");
}

#[test]
fn canonical_names_get_tool_spelling() {
    assert_eq!(convert_iana_to_openssl("TLS_ECDHE_RSA_WITH_AES_256_GCM_SHA384"), "ECDHE-RSA-AES256-GCM-SHA384");
    assert_eq!(convert_iana_to_openssl("TLS_ECDHE_ECDSA_WITH_CHACHA20_POLY1305_SHA256"), "ECDHE-ECDSA-CHACHA20-POLY1305");
    assert_eq!(convert_iana_to_openssl("TLS_RSA_WITH_AES_128_GCM_SHA256"), "AES128-GCM-SHA256");
    assert_eq!(convert_iana_to_openssl("TLS_AES_128_GCM_SHA256"), "TLS_AES_128_GCM_SHA256");
    assert_eq!(convert_iana_to_openssl("TLS_RSA_WITH_AES_128_CBC_SHA"), "TLS_RSA_WITH_AES_128_CBC_SHA");
}

#[test]
fn tool_spellings_normalise_back_to_curated_names() {
    for name in curated_cipher_suites() {
        assert_eq!(convert_openssl_to_iana(&convert_iana_to_openssl(&name)), name);
    }
}

#[test]
fn curated_list_has_twenty_one_suites() {
    let list = curated_cipher_suites();
    assert_eq!(list.len(), 21);
    assert_eq!(list[0], "TLS_AES_256_GCM_SHA384");
    assert_eq!(list[20], "TLS_RSA_WITH_AES_128_CBC_SHA");
}

#[test]
fn negotiated_cipher_is_read_from_tool_output() {
    let out = "CONNECTED(00000003)\nNew, TLSv1.3, Cipher is TLS_AES_256_GCM_SHA384\nSSL-Session:\n    Protocol  : TLSv1.3\n    Cipher    : TLS_AES_256_GCM_SHA384\n    Session-ID: AB\n";
    assert_eq!(negotiated_suite_from_output(out), Some("TLS_AES_256_GCM_SHA384".to_string()));
}

#[test]
fn negotiated_cipher_skips_none_and_empty() {
    let out = "    Cipher    : NONE\nCipher:   \r\nCipher: ecdhe-rsa-aes128-gcm-sha256 \r\n";
    assert_eq!(negotiated_suite_from_output(out), Some("TLS_ECDHE_RSA_WITH_AES_128_GCM_SHA256".to_string()));
    let session = "SSL-Session:\n    Cipher    : ECDHE-RSA-AES128-GCM-SHA256\n";
    assert_eq!(negotiated_suite_from_output(session), Some("TLS_ECDHE_RSA_WITH_AES_128_GCM_SHA256".to_string()));
    assert_eq!(negotiated_suite_from_output("    Cipher    : NONE\n"), None);
    assert_eq!(negotiated_suite_from_output(""), None);
    assert_eq!(negotiated_suite_from_output("no handshake\n"), None);
}

#[test]
fn negotiated_cipher_takes_second_field_only() {
    assert_eq!(negotiated_suite_from_output("Cipher: aes:x\n"), Some("AES".to_string()));
}

#[test]
fn cipher_probe_success_markers() {
    assert!(cipher_probe_succeeded("...\nVerify return code: 0 (ok)\n", false));
    assert!(cipher_probe_succeeded("    Cipher    : AES128-GCM-SHA256\n", false));
    assert!(cipher_probe_succeeded("", true));
    assert!(!cipher_probe_succeeded("Verify return code: 20\nhandshake failure\n", false));
}

#[test]
fn empty_host_is_invalid_input() {
    let r = plan_scan(&TlsCheckRequest { host: String::new(), port: Some(443) });
    assert_eq!(r, Err(ScanError::InvalidInput));
}

#[test]
fn plan_lists_every_probe() {
    let p = plan("example.org");
    assert_eq!(p.port, 443);
    assert_eq!(p.host, "example.org");
    let versions: Vec<&str> = p.version_probes.iter().map(|v| v.version.as_str()).collect();
    assert_eq!(versions, vec!["TLSv1.3", "TLSv1.2", "TLSv1.1", "TLSv1.0"]);
    assert_eq!(p.version_probes[0].pin, VersionPin { min: TlsProtocol::Tlsv12, max: None });
    assert_eq!(p.version_probes[3].pin, VersionPin { min: TlsProtocol::Tlsv10, max: Some(TlsProtocol::Tlsv10) });
    assert_eq!(p.suite_probes.len(), 21);
    assert_eq!(p.suite_probes[3].tool_cipher, "ECDHE-RSA-AES256-GCM-SHA384");
    let q = plan_scan(&TlsCheckRequest { host: "h".to_string(), port: Some(8443) }).unwrap();
    assert_eq!(q.port, 8443);
}

#[test]
fn refused_endpoint_gives_all_unsupported() {
    let r = build_tls_report(plan("127.0.0.1"), refused_versions(), no_runs(), None);
    assert_eq!(r.supported_versions.len(), 4);
    assert!(r.supported_versions.iter().all(|v| !v.supported && v.error.is_some()));
    assert_eq!(r.preferred_version, None);
    assert_eq!(r.certificate_info, None);
    assert_eq!(r.cipher_suites.len(), 21);
    assert!(r.cipher_suites.iter().all(|c| !c.supported && c.error.is_none()));
    let failed: Vec<Option<ToolRun>> = (0..21).map(|_| run("connect:errno=111\n", false)).collect();
    let r2 = build_tls_report(plan("127.0.0.1"), refused_versions(), failed, run("connect:errno=111\n", false));
    assert!(r2.cipher_suites.iter().all(|c| !c.supported));
}

#[test]
fn versions_are_ordered_and_preferred_is_first_supported() {
    let outcomes: Vec<HandshakeOutcome> = vec![
        Err("TLS handshake failed: x".to_string()),
        Ok(Some(cert())),
        Ok(None),
        Err("TLS handshake failed: y".to_string()),
    ];
    let r = build_tls_report(plan("example.org"), outcomes, no_runs(), None);
    let names: Vec<&str> = r.supported_versions.iter().map(|v| v.version.as_str()).collect();
    assert_eq!(names, vec!["TLSv1.3", "TLSv1.2", "TLSv1.1", "TLSv1.0"]);
    let flags: Vec<bool> = r.supported_versions.iter().map(|v| v.supported).collect();
    assert_eq!(flags, vec![false, true, true, false]);
    assert_eq!(r.supported_versions[0].error, Some("TLS handshake failed: x".to_string()));
    assert_eq!(r.supported_versions[1].error, None);
    assert_eq!(r.preferred_version, Some("TLSv1.2".to_string()));
    assert_eq!(r.certificate_info, Some(cert()));
}

#[test]
fn first_certificate_wins() {
    let mut other = cert();
    other.subject = "CN=later".to_string();
    let outcomes: Vec<HandshakeOutcome> = vec![Ok(None), Ok(Some(cert())), Ok(Some(other)), Ok(None)];
    let r = build_tls_report(plan("example.org"), outcomes, no_runs(), None);
    assert_eq!(r.preferred_version, Some("TLSv1.3".to_string()));
    assert_eq!(r.certificate_info, Some(cert()));
}

#[test]
fn negotiated_suite_in_list_is_marked_supported() {
    let natural = run("    Cipher    : TLS_AES_128_GCM_SHA256\n", true);
    let r = build_tls_report(plan("example.org"), refused_versions(), no_runs(), natural);
    assert_eq!(r.cipher_suites.len(), 21);
    let hit: Vec<&CipherSuiteInfo> = r.cipher_suites.iter().filter(|c| c.supported).collect();
    assert_eq!(hit.len(), 1);
    assert_eq!(hit[0].name, "TLS_AES_128_GCM_SHA256");
    assert_eq!(r.cipher_suites[2].name, "TLS_AES_128_GCM_SHA256");
    assert!(r.cipher_suites[2].supported);
}

#[test]
fn negotiated_tool_spelling_marks_curated_entry() {
    let natural = run("    Cipher    : ECDHE-RSA-AES128-GCM-SHA256\n", true);
    let r = build_tls_report(plan("example.org"), refused_versions(), no_runs(), natural);
    assert_eq!(r.cipher_suites.len(), 21);
    assert_eq!(r.cipher_suites[4].name, "TLS_ECDHE_RSA_WITH_AES_128_GCM_SHA256");
    assert!(r.cipher_suites[4].supported);
    assert_eq!(r.cipher_suites.iter().filter(|c| c.supported).count(), 1);
}

#[test]
fn negotiated_suite_not_in_list_is_put_first() {
    let natural = run("    Cipher    : DHE-RSA-AES256-GCM-SHA384\n", true);
    let r = build_tls_report(plan("example.org"), refused_versions(), no_runs(), natural);
    assert_eq!(r.cipher_suites.len(), 22);
    let first = &r.cipher_suites[0];
    assert_eq!(first.name, "DHE-RSA-AES256-GCM-SHA384 (negotiated)");
    assert!(first.supported);
    assert_eq!(first.error, None);
    assert_eq!(first.tls_version, "TLSv1.2");
    assert_eq!(first.security_level, "moderate");
    assert_eq!(r.cipher_suites[1].name, "TLS_AES_256_GCM_SHA384");
}

#[test]
fn suite_probe_outcomes_follow_list_order() {
    let mut runs = no_runs();
    runs[0] = run("Verify return code: 0 (ok)\n", false);
    runs[20] = run("", true);
    runs[5] = run("handshake failure\n", false);
    let r = build_tls_report(plan("example.org"), refused_versions(), runs, None);
    let flags: Vec<usize> = r.cipher_suites.iter().enumerate().filter(|(_, c)| c.supported).map(|(i, _)| i).collect();
    assert_eq!(flags, vec![0, 20]);
    assert_eq!(r.cipher_suites[20].security_level, "insecure");
    assert_eq!(r.cipher_suites[17].security_level, "weak");
    assert_eq!(r.cipher_suites[0].tls_version, "TLSv1.3");
}

#[test]
fn reconcile_flips_only_first_match() {
    let row = |n: &str, s: bool| CipherSuiteInfo {
        name: n.to_string(),
        supported: s,
        error: None,
        tls_version: "TLSv1.2".to_string(),
        security_level: "moderate".to_string(),
    };
    let mut rows = vec![row("A", false), row("B", false), row("B", false)];
    reconcile_negotiated(&mut rows, "B");
    assert_eq!(rows, vec![row("A", false), row("B", true), row("B", false)]);
    reconcile_negotiated(&mut rows, "B");
    assert_eq!(rows, vec![row("A", false), row("B", true), row("B", false)]);
    let mut empty: Vec<CipherSuiteInfo> = Vec::new();
    reconcile_negotiated(&mut empty, "TLS_AES_128_GCM_SHA256");
    assert_eq!(empty.len(), 1);
    assert_eq!(empty[0].name, "TLS_AES_128_GCM_SHA256 (negotiated)");
    assert_eq!(empty[0].tls_version, "TLSv1.3");
}

#[test]
fn repeated_scans_agree_apart_from_error_text() {
    let outcomes = |tag: &str| -> Vec<HandshakeOutcome> {
        vec![Ok(None), Err(format!("timeout {}", tag)), Ok(None), Err(format!("reset {}", tag))]
    };
    let mut runs1 = no_runs();
    runs1[4] = run("Verify return code: 0\nSession time 1\n", true);
    let mut runs2 = no_runs();
    runs2[4] = run("Verify return code: 0\nSession time 2\n", true);
    let natural = run("    Cipher    : TLS_AES_256_GCM_SHA384\n", true);
    let a = build_tls_report(plan("example.org"), outcomes("a"), runs1, natural.clone());
    let b = build_tls_report(plan("example.org"), outcomes("b"), runs2, natural);
    assert_eq!(a.cipher_suites, b.cipher_suites);
    assert_eq!(a.preferred_version, b.preferred_version);
    assert_eq!(a.certificate_info, b.certificate_info);
    let strip = |r: &kairoa::report::TlsCheckResponse| -> Vec<(String, bool)> {
        r.supported_versions.iter().map(|v| (v.version.clone(), v.supported)).collect()
    };
    assert_eq!(strip(&a), strip(&b));
    assert_ne!(a.supported_versions[1].error, b.supported_versions[1].error);
}

#[test]
fn hex_is_uppercase_two_digits_per_byte() {
    assert_eq!(format_hex(&[]), "");
    assert_eq!(format_hex(&[0x0a, 0xff, 0x00]), "0AFF00");
}

#[test]
fn hex_wraps_every_thirty_two_digits() {
    let bytes: Vec<u8> = (0u8..33).collect();
    let expected = "000102030405060708090A0B0C0D0E0F\n101112131415161718191A1B1C1D1E1F\n20";
    assert_eq!(format_hex(&bytes), expected);
    let sixteen: Vec<u8> = vec![0xab; 16];
    assert_eq!(format_hex(&sixteen), "ABABABABABABABABABABABABABABABAB");
}
