use aloo::fingerprint::{FingerprintDb, OsFingerprintMatcher, ServiceMatcher};
use aloo::types::BannerData;

fn banner(text: &str) -> BannerData {
    BannerData::from_bytes(text.as_bytes())
}

#[test]
fn matches_openssh_banner() {
    let b = banner("SSH-2.0-OpenSSH_9.3\r\n");
    let (fp, conf) = ServiceMatcher::match_banner(&b).unwrap();
    assert_eq!(fp.name, "ssh");
    assert_eq!(fp.version.as_deref(), Some("9.3"));
    assert!(f32::from_bits(conf) > 0.5);
}

#[test]
fn matches_nginx_banner() {
    let b = banner("HTTP/1.1 200 OK\r\nServer: nginx/1.24.0\r\n");
    let (fp, _) = ServiceMatcher::match_banner(&b).unwrap();
    assert_eq!(fp.name, "http");
    assert!(fp.product.as_deref().unwrap_or("").contains("nginx"));
}

#[test]
fn no_match_returns_none() {
    let b = banner("\x00\x01\x02\x03");
    assert!(ServiceMatcher::match_banner(&b).is_none());
}

#[test]
fn os_matcher_windows() {
    let result = OsFingerprintMatcher::match_text("Server: Microsoft-IIS/10.0");
    let (fp, _) = result.unwrap();
    assert_eq!(fp.family, "windows");
}

#[test]
fn os_matcher_linux() {
    let result = OsFingerprintMatcher::match_text("Ubuntu 22.04 LTS");
    let (fp, _) = result.unwrap();
    assert_eq!(fp.name, "Linux");
}

#[test]
fn fingerprint_db_identifies_ssh() {
    let db = FingerprintDb::with_defaults();
    let b = banner("SSH-2.0-OpenSSH_8.9\r\n");
    let (fp, _) = db.identify_service(&b).unwrap();
    assert_eq!(fp.name, "ssh");
}

#[test]
fn confidences_are_exact() {
    let (fp, conf) = ServiceMatcher::match_banner(&banner("SSH-2.0-OpenSSH_9.3\r\n")).unwrap();
    assert_eq!(f32::from_bits(conf), 0.85);
    assert_eq!(f32::from_bits(fp.confidence_bits), 0.85);
    let (os, acc) = OsFingerprintMatcher::match_text("Ubuntu 22.04 LTS").unwrap();
    assert_eq!(f32::from_bits(acc), 0.6);
    assert_eq!(f32::from_bits(os.accuracy_bits), 0.6);
    assert_eq!(os.family, "unix");
}

#[test]
fn service_fingerprint_carries_product_and_cpe() {
    let (fp, _) = ServiceMatcher::match_banner(&banner("SSH-2.0-OpenSSH_9.3\r\n")).unwrap();
    assert_eq!(fp.product.as_deref(), Some("OpenSSH"));
    assert!(fp.cpe.is_some());
}

#[test]
fn unknown_os_text_is_none() {
    assert!(OsFingerprintMatcher::match_text("nothing to see").is_none());
}
