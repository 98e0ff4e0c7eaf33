//! Service and OS fingerprinting: banner text matched against a table of
//! regular expressions.

use vstd::prelude::*;
use vstd::string::*;

use crate::types::{BannerData, CpeString, OsFingerprint, ProbeResult, ServiceFingerprint};

verus! {

#[verifier::external_type_specification]
#[verifier::external_body]
pub struct ExRegex(regex::Regex);

/// Whether `regex` accepts a pattern (compiles it without error).
pub uninterp spec fn regex_compiles(pattern: Seq<char>) -> bool;

/// Whether a compiled pattern matches somewhere in a text (`Regex::is_match`).
pub uninterp spec fn regex_is_match(pattern: Seq<char>, text: Seq<char>) -> bool;

/// The leftmost match of a pattern in a text (`Regex::captures`), as the
/// text of one named group: `None` when there is no match, `Some(None)`
/// when there is a match in which the group took no part.
pub uninterp spec fn regex_group(pattern: Seq<char>, text: Seq<char>, group: Seq<char>) -> Option<Option<Seq<char>>>;

/// A compiled regular expression together with its pattern text.
pub struct Pattern {
    re: regex::Regex,
    source: String,
}

impl Pattern {
    /// The pattern text this expression was compiled from.
    pub closed spec fn text(&self) -> Seq<char> {
        self.source@
    }
}

/// Compile a pattern (`regex::Regex::new`); `None` when it is refused.
/// The compiled expression is kept with the text it came from.
#[verifier::external_body]
fn compile(pattern: &str) -> (r: Option<Pattern>)
    ensures
        r is Some <==> regex_compiles(pattern@),
        r matches Some(p) ==> p.text() == pattern@,
{
    regex::Regex::new(pattern).ok().map(|re| Pattern { re, source: pattern.to_string() })
}

/// Whether the expression matches the text (`Regex::is_match`).
#[verifier::external_body]
fn is_match(p: &Pattern, text: &str) -> (b: bool)
    ensures
        b == regex_is_match(p.text(), text@),
{
    p.re.is_match(text)
}

/// The named group of the leftmost match (`Regex::captures`, then
/// `Captures::name` and the matched text).
#[verifier::external_body]
fn captures_group(p: &Pattern, text: &str, group: &str) -> (r: Option<Option<String>>)
    ensures
        r is Some <==> regex_group(p.text(), text@, group@) is Some,
        r matches Some(g) ==> (g is Some <==> regex_group(p.text(), text@, group@)->0 is Some),
        r matches Some(Some(s)) ==> regex_group(p.text(), text@, group@) == Some(Some(s@)),
{
    p.re.captures(text).map(|c| c.name(group).map(|m| m.as_str().to_string()))
}

/// One entry of the service table.
pub struct ServicePattern {
    /// Service name.
    pub name: &'static str,
    /// Product name.
    pub product: &'static str,
    /// Regular expression over the banner text.
    pub pattern: &'static str,
    /// CPE of the product.
    pub cpe: &'static str,
}

/// One entry of the OS table.
pub struct OsPattern {
    /// OS name.
    pub name: &'static str,
    /// OS family.
    pub family: &'static str,
    /// Regular expression over the banner text.
    pub pattern: &'static str,
}

/// Bits of the `f32` 0.85, the confidence of a service match.
pub const SERVICE_CONFIDENCE_BITS: u32 = 0x3f59_999a;

/// Bits of the `f32` 0.6, the accuracy of an OS match.
pub const OS_ACCURACY_BITS: u32 = 0x3f19_999a;

/// The first entry, from `start` on, whose pattern compiles and matches
/// `text`, with the text of its `ver` group.
pub open spec fn first_service_match(table: Seq<ServicePattern>, text: Seq<char>, start: int) -> Option<(int, Option<Seq<char>>)>
    decreases table.len() - start,
{
    if start < 0 || start >= table.len() {
        None
    } else if regex_compiles(table[start].pattern@) && regex_group(table[start].pattern@, text, "ver"@) is Some {
        Some((start, regex_group(table[start].pattern@, text, "ver"@)->0))
    } else {
        first_service_match(table, text, start + 1)
    }
}

/// The first OS entry, from `start` on, whose pattern compiles and matches.
pub open spec fn first_os_match(table: Seq<OsPattern>, text: Seq<char>, start: int) -> Option<int>
    decreases table.len() - start,
{
    if start < 0 || start >= table.len() {
        None
    } else if regex_compiles(table[start].pattern@) && regex_is_match(table[start].pattern@, text) {
        Some(start)
    } else {
        first_os_match(table, text, start + 1)
    }
}

/// The text a banner is matched on: its UTF-8 text, or nothing.
pub open spec fn banner_text(b: BannerData) -> Seq<char> {
    match b.text {
        Some(t) => t@,
        None => Seq::empty(),
    }
}

/// The fingerprint made from a table entry and the version found.
pub open spec fn service_fp_ok(fp: ServiceFingerprint, entry: ServicePattern, version: Option<Seq<char>>) -> bool {
    &&& fp.name@ == entry.name@
    &&& (match fp.version {
        Some(v) => version == Some(v@),
        None => version is None,
    })
    &&& (fp.product matches Some(p) && p@ == entry.product@)
    &&& fp.extra_info is None
    &&& fp.confidence_bits == SERVICE_CONFIDENCE_BITS
    &&& (fp.cpe matches Some(c) && c.0@ == entry.cpe@)
}

/// The fingerprint made from an OS table entry.
pub open spec fn os_fp_ok(fp: OsFingerprint, entry: OsPattern) -> bool {
    &&& fp.name@ == entry.name@
    &&& fp.family@ == entry.family@
    &&& fp.generation is None
    &&& fp.accuracy_bits == OS_ACCURACY_BITS
    &&& fp.cpe is None
}

/// The service table, tried in order.
pub open spec fn service_table() -> Seq<ServicePattern> {
    seq![
        ServicePattern { name: "ssh", product: "OpenSSH", pattern: "SSH-(?P<proto>[\\d.]+)-OpenSSH_(?P<ver>[\\d.p]+\\S*)", cpe: "cpe:2.3:a:openbsd:openssh:*:*:*:*:*:*:*:*" },
        ServicePattern { name: "http", product: "Apache httpd", pattern: "Apache/(?P<ver>[\\d.]+)", cpe: "cpe:2.3:a:apache:http_server:*:*:*:*:*:*:*:*" },
        ServicePattern { name: "http", product: "nginx", pattern: "nginx/(?P<ver>[\\d.]+)", cpe: "cpe:2.3:a:nginx:nginx:*:*:*:*:*:*:*:*" },
        ServicePattern { name: "ftp", product: "vsftpd", pattern: "220.*vsftpd\\s+(?P<ver>[\\d.]+)", cpe: "cpe:2.3:a:vsftpd_project:vsftpd:*:*:*:*:*:*:*:*" },
        ServicePattern { name: "smtp", product: "Postfix SMTP", pattern: "220.*Postfix", cpe: "cpe:2.3:a:postfix:postfix:*:*:*:*:*:*:*:*" },
        ServicePattern { name: "mysql", product: "MySQL", pattern: "(?i)mysql", cpe: "cpe:2.3:a:oracle:mysql:*:*:*:*:*:*:*:*" },
        ServicePattern { name: "rdp", product: "Remote Desktop", pattern: "\\x03\\x00", cpe: "cpe:2.3:a:microsoft:remote_desktop:*:*:*:*:*:*:*:*" },
    ]
}

/// The `ver` group of a pattern's leftmost match in a text, when the
/// pattern compiles and matches.
pub open spec fn pattern_group(pattern: Seq<char>, text: Seq<char>) -> Option<Option<Seq<char>>> {
    if regex_compiles(pattern) {
        regex_group(pattern, text, "ver"@)
    } else {
        None
    }
}

/// What the service table recognises, tried in order: OpenSSH by
/// `SSH-<proto>-OpenSSH_<version>`, Apache httpd by `Apache/<dotted
/// version>`, nginx by `nginx/<dotted version>`, vsftpd by a `220` greeting
/// naming it with its version, Postfix by a `220` greeting naming it,
/// MySQL by its name in any case, Remote Desktop by the bytes `03 00`; the
/// first of these that matches gives the service, product and CPE below,
/// and the version is that pattern's `ver` group.
pub proof fn law_service_recognition(text: Seq<char>)
    ensures
        service_table().len() == 7,
        service_table()[0].name@ == "ssh"@ && service_table()[0].product@ == "OpenSSH"@
            && service_table()[0].cpe@ == "cpe:2.3:a:openbsd:openssh:*:*:*:*:*:*:*:*"@,
        service_table()[1].name@ == "http"@ && service_table()[1].product@ == "Apache httpd"@
            && service_table()[1].cpe@ == "cpe:2.3:a:apache:http_server:*:*:*:*:*:*:*:*"@,
        service_table()[2].name@ == "http"@ && service_table()[2].product@ == "nginx"@
            && service_table()[2].cpe@ == "cpe:2.3:a:nginx:nginx:*:*:*:*:*:*:*:*"@,
        service_table()[3].name@ == "ftp"@ && service_table()[3].product@ == "vsftpd"@
            && service_table()[3].cpe@ == "cpe:2.3:a:vsftpd_project:vsftpd:*:*:*:*:*:*:*:*"@,
        service_table()[4].name@ == "smtp"@ && service_table()[4].product@ == "Postfix SMTP"@
            && service_table()[4].cpe@ == "cpe:2.3:a:postfix:postfix:*:*:*:*:*:*:*:*"@,
        service_table()[5].name@ == "mysql"@ && service_table()[5].product@ == "MySQL"@
            && service_table()[5].cpe@ == "cpe:2.3:a:oracle:mysql:*:*:*:*:*:*:*:*"@,
        service_table()[6].name@ == "rdp"@ && service_table()[6].product@ == "Remote Desktop"@
            && service_table()[6].cpe@ == "cpe:2.3:a:microsoft:remote_desktop:*:*:*:*:*:*:*:*"@,
        first_service_match(service_table(), text, 0) == (
            if pattern_group("SSH-(?P<proto>[\\d.]+)-OpenSSH_(?P<ver>[\\d.p]+\\S*)"@, text) is Some {
                Some((0int, pattern_group("SSH-(?P<proto>[\\d.]+)-OpenSSH_(?P<ver>[\\d.p]+\\S*)"@, text)->0))
            } else if pattern_group("Apache/(?P<ver>[\\d.]+)"@, text) is Some {
                Some((1int, pattern_group("Apache/(?P<ver>[\\d.]+)"@, text)->0))
            } else if pattern_group("nginx/(?P<ver>[\\d.]+)"@, text) is Some {
                Some((2int, pattern_group("nginx/(?P<ver>[\\d.]+)"@, text)->0))
            } else if pattern_group("220.*vsftpd\\s+(?P<ver>[\\d.]+)"@, text) is Some {
                Some((3int, pattern_group("220.*vsftpd\\s+(?P<ver>[\\d.]+)"@, text)->0))
            } else if pattern_group("220.*Postfix"@, text) is Some {
                Some((4int, pattern_group("220.*Postfix"@, text)->0))
            } else if pattern_group("(?i)mysql"@, text) is Some {
                Some((5int, pattern_group("(?i)mysql"@, text)->0))
            } else if pattern_group("\\x03\\x00"@, text) is Some {
                Some((6int, pattern_group("\\x03\\x00"@, text)->0))
            } else {
                None
            }),
{
    reveal_with_fuel(first_service_match, 8);
}

/// Matches service banners against a pattern database.
pub struct ServiceMatcher;

impl ServiceMatcher {
    /// The service table: OpenSSH, Apache httpd, nginx, vsftpd, Postfix,
    /// MySQL and Remote Desktop, tried in that order.
    pub fn patterns() -> (v: Vec<ServicePattern>)
        ensures
            v@ == service_table(),
    {
        let mut v: Vec<ServicePattern> = Vec::new();
        v.push(ServicePattern { name: "ssh", product: "OpenSSH", pattern: "SSH-(?P<proto>[\\d.]+)-OpenSSH_(?P<ver>[\\d.p]+\\S*)", cpe: "cpe:2.3:a:openbsd:openssh:*:*:*:*:*:*:*:*" });
        v.push(ServicePattern { name: "http", product: "Apache httpd", pattern: "Apache/(?P<ver>[\\d.]+)", cpe: "cpe:2.3:a:apache:http_server:*:*:*:*:*:*:*:*" });
        v.push(ServicePattern { name: "http", product: "nginx", pattern: "nginx/(?P<ver>[\\d.]+)", cpe: "cpe:2.3:a:nginx:nginx:*:*:*:*:*:*:*:*" });
        v.push(ServicePattern { name: "ftp", product: "vsftpd", pattern: "220.*vsftpd\\s+(?P<ver>[\\d.]+)", cpe: "cpe:2.3:a:vsftpd_project:vsftpd:*:*:*:*:*:*:*:*" });
        v.push(ServicePattern { name: "smtp", product: "Postfix SMTP", pattern: "220.*Postfix", cpe: "cpe:2.3:a:postfix:postfix:*:*:*:*:*:*:*:*" });
        v.push(ServicePattern { name: "mysql", product: "MySQL", pattern: "(?i)mysql", cpe: "cpe:2.3:a:oracle:mysql:*:*:*:*:*:*:*:*" });
        v.push(ServicePattern { name: "rdp", product: "Remote Desktop", pattern: "\\x03\\x00", cpe: "cpe:2.3:a:microsoft:remote_desktop:*:*:*:*:*:*:*:*" });
        proof {
            assert(v@ =~= service_table());
        }
        v
    }

    /// Match a banner against all known patterns: the first table entry
    /// whose pattern matches the banner text gives the fingerprint, with the
    /// `ver` group as version and confidence 0.85 (as `f32` bits).
    pub fn match_banner(banner: &BannerData) -> (r: Option<(ServiceFingerprint, u32)>)
        ensures
            r is Some <==> first_service_match(service_table(), banner_text(*banner), 0) is Some,
            r matches Some((fp, c)) ==> {
                let (i, ver) = first_service_match(service_table(), banner_text(*banner), 0)->0;
                &&& c == SERVICE_CONFIDENCE_BITS
                &&& service_fp_ok(fp, service_table()[i], ver)
            },
    {
        let table = Self::patterns();
        let empty = crate::text::empty_string();
        let text: &str = match &banner.text {
            Some(t) => t.as_str(),
            None => empty.as_str(),
        };
        let mut i: usize = 0;
        while i < table.len()
            invariant
                i <= table@.len(),
                table@ == service_table(),
                text@ == banner_text(*banner),
                first_service_match(table@, text@, 0) == first_service_match(table@, text@, i as int),
            decreases table.len() - i,
        {
            let entry = &table[i];
            proof {
                assert(first_service_match(table@, text@, i as int) == (
                    if regex_compiles(table@[i as int].pattern@) && regex_group(table@[i as int].pattern@, text@, "ver"@) is Some {
                        Some((i as int, regex_group(table@[i as int].pattern@, text@, "ver"@)->0))
                    } else {
                        first_service_match(table@, text@, i + 1)
                    }));
            }
            if let Some(re) = compile(entry.pattern) {
                if let Some(ver) = captures_group(&re, text, "ver") {
                    let fp = ServiceFingerprint {
                        name: String::from_str(entry.name),
                        version: ver,
                        product: Some(String::from_str(entry.product)),
                        extra_info: None,
                        confidence_bits: SERVICE_CONFIDENCE_BITS,
                        cpe: Some(CpeString::new(String::from_str(entry.cpe))),
                    };
                    return Some((fp, SERVICE_CONFIDENCE_BITS));
                }
            }
            i = i + 1;
        }
        proof {
            assert(first_service_match(table@, text@, i as int) is None);
        }
        None
    }
}

impl ServiceMatcher {
    /// Name of this fingerprinter.
    pub fn name(&self) -> (s: &'static str)
        ensures
            s@ == "service-matcher"@,
    {
        "service-matcher"
    }

    /// Identify a service from banner data.
    pub fn fingerprint_service(&self, banner: &BannerData) -> (r: Option<(ServiceFingerprint, u32)>)
        ensures
            r is Some <==> first_service_match(service_table(), banner_text(*banner), 0) is Some,
            r matches Some((fp, c)) ==> {
                let (i, ver) = first_service_match(service_table(), banner_text(*banner), 0)->0;
                &&& c == SERVICE_CONFIDENCE_BITS
                &&& service_fp_ok(fp, service_table()[i], ver)
            },
    {
        Self::match_banner(banner)
    }

    /// This fingerprinter does not guess operating systems.
    pub fn fingerprint_os(&self, probe: &ProbeResult) -> (r: Option<(OsFingerprint, u32)>)
        ensures
            r is None,
    {
        None
    }
}

/// The OS table, tried in order.
pub open spec fn os_table() -> Seq<OsPattern> {
    seq![
        OsPattern { name: "Linux", family: "unix", pattern: "(?i)ubuntu|debian|centos|redhat|fedora|arch" },
        OsPattern { name: "Windows", family: "windows", pattern: "(?i)windows|microsoft-iis|win32" },
        OsPattern { name: "macOS", family: "unix", pattern: "(?i)darwin|macos|mac os" },
        OsPattern { name: "FreeBSD", family: "unix", pattern: "(?i)freebsd" },
    ]
}

/// What the OS table recognises, tried in order and ignoring case: Linux
/// (family unix) by a distribution name (Ubuntu, Debian, CentOS, Red Hat,
/// Fedora, Arch), Windows by `windows`, `microsoft-iis` or `win32`, macOS
/// (unix) by `darwin`, `macos` or `mac os`, FreeBSD (unix) by its name; the
/// first that matches names the system.
pub proof fn law_os_recognition(text: Seq<char>)
    ensures
        os_table().len() == 4,
        os_table()[0].name@ == "Linux"@ && os_table()[0].family@ == "unix"@,
        os_table()[1].name@ == "Windows"@ && os_table()[1].family@ == "windows"@,
        os_table()[2].name@ == "macOS"@ && os_table()[2].family@ == "unix"@,
        os_table()[3].name@ == "FreeBSD"@ && os_table()[3].family@ == "unix"@,
        first_os_match(os_table(), text, 0) == (
            if regex_compiles("(?i)ubuntu|debian|centos|redhat|fedora|arch"@) && regex_is_match("(?i)ubuntu|debian|centos|redhat|fedora|arch"@, text) {
                Some(0int)
            } else if regex_compiles("(?i)windows|microsoft-iis|win32"@) && regex_is_match("(?i)windows|microsoft-iis|win32"@, text) {
                Some(1int)
            } else if regex_compiles("(?i)darwin|macos|mac os"@) && regex_is_match("(?i)darwin|macos|mac os"@, text) {
                Some(2int)
            } else if regex_compiles("(?i)freebsd"@) && regex_is_match("(?i)freebsd"@, text) {
                Some(3int)
            } else {
                None
            }),
{
    reveal_with_fuel(first_os_match, 5);
}

/// Matches OS fingerprints from probe banner data.
pub struct OsFingerprintMatcher;

impl OsFingerprintMatcher {
    /// The OS table: Linux, Windows, macOS, FreeBSD, tried in that order.
    pub fn patterns() -> (v: Vec<OsPattern>)
        ensures
            v@ == os_table(),
    {
        let mut v: Vec<OsPattern> = Vec::new();
        v.push(OsPattern { name: "Linux", family: "unix", pattern: "(?i)ubuntu|debian|centos|redhat|fedora|arch" });
        v.push(OsPattern { name: "Windows", family: "windows", pattern: "(?i)windows|microsoft-iis|win32" });
        v.push(OsPattern { name: "macOS", family: "unix", pattern: "(?i)darwin|macos|mac os" });
        v.push(OsPattern { name: "FreeBSD", family: "unix", pattern: "(?i)freebsd" });
        proof {
            assert(v@ =~= os_table());
        }
        v
    }

    /// Attempt OS identification from a text banner: the first table entry
    /// whose pattern matches, with accuracy 0.6 (as `f32` bits).
    pub fn match_text(text: &str) -> (r: Option<(OsFingerprint, u32)>)
        ensures
            r is Some <==> first_os_match(os_table(), text@, 0) is Some,
            r matches Some((fp, c)) ==> c == OS_ACCURACY_BITS
                && os_fp_ok(fp, os_table()[first_os_match(os_table(), text@, 0)->0]),
    {
        let table = Self::patterns();
        let mut i: usize = 0;
        while i < table.len()
            invariant
                i <= table@.len(),
                table@ == os_table(),
                first_os_match(table@, text@, 0) == first_os_match(table@, text@, i as int),
            decreases table.len() - i,
        {
            let entry = &table[i];
            proof {
                assert(first_os_match(table@, text@, i as int) == (
                    if regex_compiles(table@[i as int].pattern@) && regex_is_match(table@[i as int].pattern@, text@) {
                        Some(i as int)
                    } else {
                        first_os_match(table@, text@, i + 1)
                    }));
            }
            if let Some(re) = compile(entry.pattern) {
                if is_match(&re, text) {
                    let fp = OsFingerprint {
                        name: String::from_str(entry.name),
                        family: String::from_str(entry.family),
                        generation: None,
                        accuracy_bits: OS_ACCURACY_BITS,
                        cpe: None,
                    };
                    return Some((fp, OS_ACCURACY_BITS));
                }
            }
            i = i + 1;
        }
        proof {
            assert(first_os_match(table@, text@, i as int) is None);
        }
        None
    }

    /// Name of this fingerprinter.
    pub fn name(&self) -> (s: &'static str)
        ensures
            s@ == "os-matcher"@,
    {
        "os-matcher"
    }

    /// This fingerprinter does not identify services.
    pub fn fingerprint_service(&self, banner: &BannerData) -> (r: Option<(ServiceFingerprint, u32)>)
        ensures
            r is None,
    {
        None
    }

    /// Guess the OS from the text of a probe's banner, when it has one.
    pub fn fingerprint_os(&self, probe: &ProbeResult) -> (r: Option<(OsFingerprint, u32)>)
        ensures
            probe_text(*probe) matches Some(t) ==> {
                &&& (r is Some <==> first_os_match(os_table(), t, 0) is Some)
                &&& (r matches Some((fp, c)) ==> c == OS_ACCURACY_BITS
                    && os_fp_ok(fp, os_table()[first_os_match(os_table(), t, 0)->0]))
            },
            probe_text(*probe) is None ==> r is None,
    {
        if let Some(banner) = &probe.banner {
            if let Some(text) = &banner.text {
                return Self::match_text(text.as_str());
            }
        }
        None
    }
}

/// What a sequence holds after a push: what it held, and the new element.
pub proof fn lemma_push_contains<T>(s: Seq<T>, x: T)
    ensures
        forall|y: T| s.push(x).contains(y) <==> (s.contains(y) || y == x),
{
    assert forall|y: T| s.push(x).contains(y) <==> (s.contains(y) || y == x) by {
        if s.push(x).contains(y) {
            let k = choose|k: int| 0 <= k < s.push(x).len() && s.push(x)[k] == y;
            if k < s.len() {
                assert(s[k] == y);
            }
        }
        if s.contains(y) {
            let k = choose|k: int| 0 <= k < s.len() && s[k] == y;
            assert(s.push(x)[k] == y);
        }
        assert(s.push(x)[s.len() as int] == x);
    }
}

/// The banner text of a probe result, when it has one.
pub open spec fn probe_text(probe: ProbeResult) -> Option<Seq<char>> {
    match probe.banner {
        Some(b) => match b.text {
            Some(t) => Some(t@),
            None => None,
        },
        None => None,
    }
}

/// The fingerprinters a database runs.
#[derive(Debug, Clone, Copy, PartialEq, Eq, Structural)]
pub enum Fingerprinter {
    /// The service banner matcher.
    Service,
    /// The OS text matcher.
    Os,
}

/// The last candidate with the highest confidence bits (non-negative
/// `f32` confidences order as their bits do).
pub open spec fn best_candidate<T>(c: Seq<(T, u32)>) -> Option<(T, u32)>
    decreases c.len(),
{
    if c.len() == 0 {
        None
    } else {
        match best_candidate(c.drop_last()) {
            Some(b) => if c.last().1 >= b.1 { Some(c.last()) } else { Some(b) },
            None => Some(c.last()),
        }
    }
}

/// Facade that runs all fingerprinters in order and returns the best match.
pub struct FingerprintDb {
    fingerprinters: Vec<Fingerprinter>,
}

impl FingerprintDb {
    /// The fingerprinters, in the order they run.
    pub closed spec fn kinds(&self) -> Seq<Fingerprinter> {
        self.fingerprinters@
    }

    /// Create with the default set of fingerprinters: service, then OS.
    pub fn with_defaults() -> (d: Self)
        ensures
            d.kinds() == seq![Fingerprinter::Service, Fingerprinter::Os],
    {
        let mut v: Vec<Fingerprinter> = Vec::new();
        v.push(Fingerprinter::Service);
        v.push(Fingerprinter::Os);
        FingerprintDb { fingerprinters: v }
    }

    /// Identify a service from banner data: the highest-confidence answer
    /// of the fingerprinters (the last of equal ones). Only the service
    /// matcher answers, so its answer is the database's.
    pub fn identify_service(&self, banner: &BannerData) -> (r: Option<(ServiceFingerprint, u32)>)
        ensures
            self.kinds().contains(Fingerprinter::Service)
                ==> (r is Some <==> first_service_match(service_table(), banner_text(*banner), 0) is Some),
            !self.kinds().contains(Fingerprinter::Service) ==> r is None,
            r matches Some((fp, c)) ==> {
                let (i, ver) = first_service_match(service_table(), banner_text(*banner), 0)->0;
                &&& c == SERVICE_CONFIDENCE_BITS
                &&& service_fp_ok(fp, service_table()[i], ver)
            },
    {
        let mut best: Option<(ServiceFingerprint, u32)> = None;
        let mut i: usize = 0;
        while i < self.fingerprinters.len()
            invariant
                i <= self.fingerprinters@.len(),
                best is Some <==> (self.fingerprinters@.take(i as int).contains(Fingerprinter::Service)
                    && first_service_match(service_table(), banner_text(*banner), 0) is Some),
                best matches Some((fp, c)) ==> {
                    let (k, ver) = first_service_match(service_table(), banner_text(*banner), 0)->0;
                    &&& c == SERVICE_CONFIDENCE_BITS
                    &&& service_fp_ok(fp, service_table()[k], ver)
                },
            decreases self.fingerprinters.len() - i,
        {
            let cand = match self.fingerprinters[i] {
                Fingerprinter::Service => ServiceMatcher.fingerprint_service(banner),
                Fingerprinter::Os => OsFingerprintMatcher.fingerprint_service(banner),
            };
            match cand {
                Some((fp, c)) => {
                    let replace = match &best {
                        Some((_, b)) => c >= *b,
                        None => true,
                    };
                    if replace {
                        best = Some((fp, c));
                    }
                },
                None => {},
            }
            proof {
                assert(self.fingerprinters@.take(i + 1) =~= self.fingerprinters@.take(i as int).push(self.fingerprinters@[i as int]));
                lemma_push_contains(self.fingerprinters@.take(i as int), self.fingerprinters@[i as int]);
            }
            i = i + 1;
        }
        proof {
            assert(self.fingerprinters@.take(self.fingerprinters@.len() as int) =~= self.fingerprinters@);
        }
        best
    }

    /// Identify the OS from a probe result: the highest-confidence answer
    /// of the fingerprinters. Only the OS matcher answers.
    pub fn identify_os(&self, probe: &ProbeResult) -> (r: Option<(OsFingerprint, u32)>)
        ensures
            !self.kinds().contains(Fingerprinter::Os) ==> r is None,
            probe_text(*probe) is None ==> r is None,
            self.kinds().contains(Fingerprinter::Os) ==> (probe_text(*probe) matches Some(t) ==> {
                &&& (r is Some <==> first_os_match(os_table(), t, 0) is Some)
                &&& (r matches Some((fp, c)) ==> c == OS_ACCURACY_BITS
                    && os_fp_ok(fp, os_table()[first_os_match(os_table(), t, 0)->0]))
            }),
    {
        let mut best: Option<(OsFingerprint, u32)> = None;
        let mut i: usize = 0;
        while i < self.fingerprinters.len()
            invariant
                i <= self.fingerprinters@.len(),
                !self.fingerprinters@.take(i as int).contains(Fingerprinter::Os) ==> best is None,
                probe_text(*probe) is None ==> best is None,
                probe_text(*probe) matches Some(t) ==> {
                    &&& (best is Some <==> (self.fingerprinters@.take(i as int).contains(Fingerprinter::Os)
                        && first_os_match(os_table(), t, 0) is Some))
                    &&& (best matches Some((fp, c)) ==> c == OS_ACCURACY_BITS
                        && os_fp_ok(fp, os_table()[first_os_match(os_table(), t, 0)->0]))
                },
            decreases self.fingerprinters.len() - i,
        {
            let cand = match self.fingerprinters[i] {
                Fingerprinter::Service => ServiceMatcher.fingerprint_os(probe),
                Fingerprinter::Os => OsFingerprintMatcher.fingerprint_os(probe),
            };
            match cand {
                Some((fp, c)) => {
                    let replace = match &best {
                        Some((_, b)) => c >= *b,
                        None => true,
                    };
                    if replace {
                        best = Some((fp, c));
                    }
                },
                None => {},
            }
            proof {
                assert(self.fingerprinters@.take(i + 1) =~= self.fingerprinters@.take(i as int).push(self.fingerprinters@[i as int]));
                lemma_push_contains(self.fingerprinters@.take(i as int), self.fingerprinters@[i as int]);
            }
            i = i + 1;
        }
        proof {
            assert(self.fingerprinters@.take(self.fingerprinters@.len() as int) =~= self.fingerprinters@);
        }
        best
    }
}

} // verus!
