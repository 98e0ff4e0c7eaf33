//! TLS inspection: cipher-suite strength and certificate assessment.

use vstd::prelude::*;
use vstd::string::*;

use crate::clock::{Timestamp, now, whole_days_between};
use crate::text::{has_substring, to_ascii_upper, contains_str, upper_char, signed_decimal, i64_to_decimal};
use crate::types::{Certificate, CipherStrength};

verus! {

/// TLS inspection errors.
#[derive(Debug, Clone, PartialEq, Eq)]
pub enum TlsError {
    /// TLS handshake failed.
    HandshakeFailed(String),
    /// Certificate parse error.
    CertParse(String),
    /// Certificate is expired.
    CertExpired {
        /// Common name.
        cn: String,
        /// Days since expiry.
        days: i64,
    },
    /// Certificate is self-signed.
    SelfSigned {
        /// Common name.
        cn: String,
    },
}

/// Names that mark a suite as triple DES, which is acceptable though old.
pub open spec fn is_triple_des(c: Seq<char>) -> bool {
    has_substring(c, "3DES"@) || has_substring(c, "DES-CBC3"@) || has_substring(c, "DES_EDE"@)
        || has_substring(c, "DES-EDE"@)
}

/// Names that mark a suite as weak: RC4, single DES, null or export
/// suites, anonymous key exchange.
pub open spec fn is_weak_suite(c: Seq<char>) -> bool {
    has_substring(c, "RC4"@) || (has_substring(c, "DES"@) && !is_triple_des(c))
        || has_substring(c, "NULL"@) || has_substring(c, "EXPORT"@) || has_substring(c, "ADH"@)
        || has_substring(c, "AECDH"@)
}

/// Names that mark a suite as a modern AEAD suite.
pub open spec fn is_strong_suite(c: Seq<char>) -> bool {
    has_substring(c, "AES_128_GCM"@) || has_substring(c, "AES_256_GCM"@)
        || has_substring(c, "CHACHA20_POLY1305"@) || has_substring(c, "GCM_SHA"@)
}

/// The strength of a cipher suite name: weak markers win over strong ones,
/// both are looked for in the upper-cased name, and anything else is
/// acceptable.
pub open spec fn cipher_strength(cipher: Seq<char>) -> CipherStrength {
    let c = cipher.map_values(|ch: char| upper_char(ch));
    if is_weak_suite(c) {
        CipherStrength::Weak
    } else if is_strong_suite(c) {
        CipherStrength::Strong
    } else {
        CipherStrength::Acceptable
    }
}

/// How a cipher suite name is rated, looking at its upper-cased form:
/// RC4, null, export and anonymous (ADH, AECDH) suites are weak, and so is
/// single DES, though not triple DES (3DES, DES-CBC3, DES_EDE, DES-EDE);
/// otherwise AES-GCM and ChaCha20-Poly1305 suites are strong, and every
/// other suite is acceptable.
pub proof fn law_cipher_rating(cipher: Seq<char>)
    ensures
        ({
            let c = cipher.map_values(|ch: char| upper_char(ch));
            let anonymous_or_broken = has_substring(c, "RC4"@) || has_substring(c, "NULL"@)
                || has_substring(c, "EXPORT"@) || has_substring(c, "ADH"@) || has_substring(c, "AECDH"@);
            let single_des = has_substring(c, "DES"@) && !has_substring(c, "3DES"@)
                && !has_substring(c, "DES-CBC3"@) && !has_substring(c, "DES_EDE"@) && !has_substring(c, "DES-EDE"@);
            let modern = has_substring(c, "AES_128_GCM"@) || has_substring(c, "AES_256_GCM"@)
                || has_substring(c, "CHACHA20_POLY1305"@) || has_substring(c, "GCM_SHA"@);
            &&& (anonymous_or_broken || single_des) ==> cipher_strength(cipher) == CipherStrength::Weak
            &&& (!anonymous_or_broken && !single_des && modern) ==> cipher_strength(cipher) == CipherStrength::Strong
            &&& (!anonymous_or_broken && !single_des && !modern) ==> cipher_strength(cipher) == CipherStrength::Acceptable
        }),
{
}

/// Evaluates cipher suite names against known strength ratings.
pub struct CipherEvaluator;

impl CipherEvaluator {
    /// Classify a cipher suite name string.
    pub fn evaluate(cipher: &str) -> (s: CipherStrength)
        ensures
            s == cipher_strength(cipher@),
    {
        let upper = to_ascii_upper(cipher);
        let c = upper.as_str();
        let triple_des = contains_str(c, "3DES") || contains_str(c, "DES-CBC3")
            || contains_str(c, "DES_EDE") || contains_str(c, "DES-EDE");
        if contains_str(c, "RC4") || (contains_str(c, "DES") && !triple_des) || contains_str(c, "NULL")
            || contains_str(c, "EXPORT") || contains_str(c, "ADH") || contains_str(c, "AECDH")
        {
            return CipherStrength::Weak;
        }
        if contains_str(c, "AES_128_GCM") || contains_str(c, "AES_256_GCM")
            || contains_str(c, "CHACHA20_POLY1305") || contains_str(c, "GCM_SHA")
        {
            return CipherStrength::Strong;
        }
        CipherStrength::Acceptable
    }
}

/// The findings for a certificate at time `now`.
pub open spec fn assessment(cert: Certificate, now: Timestamp) -> Seq<Seq<char>> {
    let d = whole_days_between(cert.not_after, now);
    let expiry: Seq<Seq<char>> = if now.after(cert.not_after) {
        seq!["Certificate expired "@ + signed_decimal(-d) + " days ago"@]
    } else if d < 30 {
        seq!["Certificate expires in "@ + signed_decimal(d) + " days"@]
    } else {
        Seq::empty()
    };
    if cert.self_signed {
        expiry.push("Certificate is self-signed"@)
    } else {
        expiry
    }
}

/// The findings on a certificate at time `now`: first the expiry finding
/// (expired, counting whole days since expiry, when `now` lies after
/// `not_after`; expiring, counting whole days left, when fewer than 30 are
/// left; none otherwise, so a certificate still valid is never reported
/// expired), then, for a self-signed certificate, that it is self-signed.
pub proof fn law_certificate_findings(cert: Certificate, now: Timestamp)
    ensures
        ({
            let f = assessment(cert, now);
            let d = whole_days_between(cert.not_after, now);
            let expiring = !now.after(cert.not_after) && d < 30;
            &&& f.len() == (if now.after(cert.not_after) || expiring { 1int } else { 0int })
                + (if cert.self_signed { 1int } else { 0int })
            &&& now.after(cert.not_after) ==> f[0] == "Certificate expired "@ + signed_decimal(-d) + " days ago"@
            &&& expiring ==> f[0] == "Certificate expires in "@ + signed_decimal(d) + " days"@
            &&& cert.self_signed ==> f[f.len() - 1] == "Certificate is self-signed"@
        }),
{
}

/// Analyses X.509 certificate fields.
pub struct CertAnalyser;

impl CertAnalyser {
    /// Check whether a certificate is currently expired.
    pub fn is_expired(cert: &Certificate) -> (b: bool)
        ensures
            exists|t: Timestamp| t.valid() && b == t.after(cert.not_after),
    {
        cert.is_expired()
    }

    /// Check whether a certificate is self-signed.
    pub fn is_self_signed(cert: &Certificate) -> (b: bool)
        ensures
            b == cert.self_signed,
    {
        cert.self_signed
    }

    /// Days until expiry (negative = already expired).
    pub fn days_until_expiry(cert: &Certificate) -> (d: i64)
        requires
            cert.not_after.valid(),
        ensures
            exists|t: Timestamp| t.valid() && d == whole_days_between(cert.not_after, t),
    {
        cert.days_until_expiry()
    }

    /// Human-readable findings for a certificate at time `now`: expiry
    /// (expired, or expiring within 30 days), then self-signature.
    pub fn assess_at(cert: &Certificate, now: &Timestamp) -> (findings: Vec<String>)
        requires
            cert.not_after.valid(),
            now.valid(),
        ensures
            findings@.map_values(|f: String| f@) == assessment(*cert, *now),
    {
        let mut findings: Vec<String> = Vec::new();
        let days = cert.days_until_expiry_at(now);
        if cert.is_expired_at(now) {
            let mut f = String::from_str("Certificate expired ");
            let n = i64_to_decimal(-days);
            f.append(n.as_str());
            f.append(" days ago");
            findings.push(f);
        } else if days < 30 {
            let mut f = String::from_str("Certificate expires in ");
            let n = i64_to_decimal(days);
            f.append(n.as_str());
            f.append(" days");
            findings.push(f);
        }
        if cert.self_signed {
            findings.push(String::from_str("Certificate is self-signed"));
        }
        proof {
            assert(findings@.map_values(|f: String| f@) =~= assessment(*cert, *now));
        }
        findings
    }

    /// Human-readable findings for a certificate, by the wall clock read
    /// once during the call.
    pub fn assess(cert: &Certificate) -> (findings: Vec<String>)
        requires
            cert.not_after.valid(),
        ensures
            exists|t: Timestamp| t.valid() && findings@.map_values(|f: String| f@) == assessment(*cert, t),
    {
        let t = now();
        Self::assess_at(cert, &t)
    }
}

} // verus!
