//! Vulnerability correlation: CPE mapping and merging of source results.

use vstd::prelude::*;
use vstd::string::*;

use crate::text::{lower_char, str_eq, to_ascii_lower};
use crate::types::{CpeString, ServiceFingerprint, Vulnerability};

verus! {

/// The CPE text up to the version field for a lower-case service name,
/// when the name is known.
pub open spec fn cpe_prefix(lower: Seq<char>) -> Option<Seq<char>> {
    if lower == "ssh"@ || lower == "openssh"@ {
        Some("cpe:2.3:a:openbsd:openssh:"@)
    } else if lower == "http"@ || lower == "apache"@ || lower == "apache httpd"@ {
        Some("cpe:2.3:a:apache:http_server:"@)
    } else if lower == "nginx"@ {
        Some("cpe:2.3:a:nginx:nginx:"@)
    } else if lower == "mysql"@ {
        Some("cpe:2.3:a:oracle:mysql:"@)
    } else if lower == "postgresql"@ || lower == "postgres"@ {
        Some("cpe:2.3:a:postgresql:postgresql:"@)
    } else if lower == "ftp"@ || lower == "vsftpd"@ {
        Some("cpe:2.3:a:vsftpd_project:vsftpd:"@)
    } else if lower == "smtp"@ || lower == "postfix"@ {
        Some("cpe:2.3:a:postfix:postfix:"@)
    } else if lower == "rdp"@ || lower == "remote desktop"@ {
        Some("cpe:2.3:a:microsoft:remote_desktop_services:"@)
    } else if lower == "smb"@ || lower == "samba"@ {
        Some("cpe:2.3:a:samba:samba:"@)
    } else {
        None
    }
}

/// The CPE for a service name (matched case-insensitively in ASCII) and an
/// optional version (`*` when absent).
pub open spec fn cpe_for(name: Seq<char>, version: Option<Seq<char>>) -> Option<Seq<char>> {
    let ver = match version {
        Some(v) => v,
        None => "*"@,
    };
    match cpe_prefix(name.map_values(|c: char| lower_char(c))) {
        Some(p) => Some(p + ver + ":*:*:*:*:*:*:*"@),
        None => None,
    }
}

/// The text of an optional string slice.
pub open spec fn str_opt_view(o: Option<&str>) -> Option<Seq<char>> {
    match o {
        Some(v) => Some(v@),
        None => None,
    }
}

/// The text of an optional string.
pub open spec fn string_opt_view(o: Option<String>) -> Option<Seq<char>> {
    match o {
        Some(v) => Some(v@),
        None => None,
    }
}

fn known_prefix(l: &str) -> (p: Option<&'static str>)
    ensures
        p matches Some(x) ==> cpe_prefix(l@) == Some(x@),
        p is None ==> cpe_prefix(l@) is None,
{
    if str_eq(l, "ssh") || str_eq(l, "openssh") {
        Some("cpe:2.3:a:openbsd:openssh:")
    } else if str_eq(l, "http") || str_eq(l, "apache") || str_eq(l, "apache httpd") {
        Some("cpe:2.3:a:apache:http_server:")
    } else if str_eq(l, "nginx") {
        Some("cpe:2.3:a:nginx:nginx:")
    } else if str_eq(l, "mysql") {
        Some("cpe:2.3:a:oracle:mysql:")
    } else if str_eq(l, "postgresql") || str_eq(l, "postgres") {
        Some("cpe:2.3:a:postgresql:postgresql:")
    } else if str_eq(l, "ftp") || str_eq(l, "vsftpd") {
        Some("cpe:2.3:a:vsftpd_project:vsftpd:")
    } else if str_eq(l, "smtp") || str_eq(l, "postfix") {
        Some("cpe:2.3:a:postfix:postfix:")
    } else if str_eq(l, "rdp") || str_eq(l, "remote desktop") {
        Some("cpe:2.3:a:microsoft:remote_desktop_services:")
    } else if str_eq(l, "smb") || str_eq(l, "samba") {
        Some("cpe:2.3:a:samba:samba:")
    } else {
        None
    }
}

/// Maps service name + version strings to CPE 2.3 identifiers.
pub struct CpeMapper;

impl CpeMapper {
    /// Build a CPE string from a service name and optional version.
    /// Returns `None` if the service name is not in the known mapping.
    pub fn map(name: &str, version: Option<&str>) -> (r: Option<CpeString>)
        ensures
            r is Some <==> cpe_for(name@, str_opt_view(version)) is Some,
            r matches Some(c) ==> Some(c.0@) == cpe_for(name@, str_opt_view(version)),
    {
        let ver: &str = match version {
            Some(v) => v,
            None => "*",
        };
        let lower = to_ascii_lower(name);
        match known_prefix(lower.as_str()) {
            Some(p) => {
                let mut s = String::from_str(p);
                s.append(ver);
                s.append(":*:*:*:*:*:*:*");
                Some(CpeString::new(s))
            },
            None => None,
        }
    }

    /// Derive a CPE from a `ServiceFingerprint`: its own CPE when it has
    /// one, else the mapping of its product (or, without a product, its
    /// name) and version.
    pub fn from_fingerprint(fp: &ServiceFingerprint) -> (r: Option<CpeString>)
        ensures
            fp.cpe matches Some(c) ==> (r matches Some(x) && x.0@ == c.0@),
            fp.cpe is None ==> {
                let name = match fp.product {
                    Some(p) => p@,
                    None => fp.name@,
                };
                &&& (r is Some <==> cpe_for(name, string_opt_view(fp.version)) is Some)
                &&& (r matches Some(c) ==> Some(c.0@) == cpe_for(name, string_opt_view(fp.version)))
            },
    {
        if let Some(cpe) = &fp.cpe {
            return Some(cpe.clone());
        }
        let name: &str = match &fp.product {
            Some(p) => p.as_str(),
            None => fp.name.as_str(),
        };
        let version: Option<&str> = match &fp.version {
            Some(v) => Some(v.as_str()),
            None => None,
        };
        proof {
            assert(str_opt_view(version) == string_opt_view(fp.version));
        }
        Self::map(name, version)
    }
}

/// In-process vulnerability source (returns nothing until a feed exists).
pub struct LocalVulnCorrelator;

impl LocalVulnCorrelator {
    /// Name of this source.
    pub fn name(&self) -> (s: &'static str)
        ensures
            s@ == "local-correlator"@,
    {
        "local-correlator"
    }

    /// Priority — lower value is checked first.
    pub fn priority(&self) -> (p: u8)
        ensures
            p == 100,
    {
        100
    }

    /// Query for vulnerabilities matching a CPE: none are known locally.
    pub fn query(&self, cpe: &CpeString) -> (v: Vec<Vulnerability>)
        ensures
            v@.len() == 0,
    {
        Vec::new()
    }
}

/// The records of `all` whose CVE id did not occur earlier, in order.
pub open spec fn first_per_cve(all: Seq<Vulnerability>) -> Seq<Vulnerability>
    decreases all.len(),
{
    if all.len() == 0 {
        Seq::empty()
    } else {
        let d = first_per_cve(all.drop_last());
        if exists|i: int| 0 <= i < d.len() && #[trigger] d[i].cve_id@ == all.last().cve_id@ {
            d
        } else {
            d.push(all.last())
        }
    }
}

/// The source indices ordered by priority (stable: equal priorities keep
/// their order).
pub open spec fn priority_sorted(order: Seq<usize>, prio: Seq<u8>) -> bool {
    &&& order.len() == prio.len()
    &&& forall|i: int| 0 <= i < order.len() ==> #[trigger] order[i] < prio.len()
    &&& forall|i: int, j: int| 0 <= i < j < order.len() ==> order[i] != order[j]
    &&& forall|i: int, j: int| 0 <= i < j < order.len() ==>
        (prio[order[i] as int] < prio[order[j] as int]
            || (prio[order[i] as int] == prio[order[j] as int] && order[i] < order[j]))
}

/// Merging of the results of all vulnerability sources.
pub struct VulnEngine;

impl VulnEngine {
    /// The order in which sources with the given priorities are queried:
    /// ascending priority, ties in registration order.
    pub fn query_order(prio: &Vec<u8>) -> (order: Vec<usize>)
        ensures
            priority_sorted(order@, prio@),
    {
        // insertion sort of the indices by (priority, index)
        let mut order: Vec<usize> = Vec::new();
        let n = prio.len();
        let mut i: usize = 0;
        while i < n
            invariant
                n == prio@.len(),
                i <= n,
                order@.len() == i,
                forall|a: int| 0 <= a < order@.len() ==> #[trigger] order@[a] < i,
                forall|a: int, b: int| 0 <= a < b < order@.len() ==> order@[a] != order@[b],
                forall|a: int, b: int| 0 <= a < b < order@.len() ==>
                    (prio@[order@[a] as int] < prio@[order@[b] as int]
                        || (prio@[order@[a] as int] == prio@[order@[b] as int] && order@[a] < order@[b])),
            decreases n - i,
        {
            // position after every index whose priority is at most prio[i]
            let mut pos: usize = 0;
            while pos < order.len() && prio[order[pos]] <= prio[i]
                invariant
                    n == prio@.len(),
                    i < n,
                    pos <= order@.len(),
                    forall|a: int| 0 <= a < order@.len() ==> #[trigger] order@[a] < i,
                    forall|a: int, b: int| 0 <= a < b < order@.len() ==>
                        (prio@[order@[a] as int] < prio@[order@[b] as int]
                            || (prio@[order@[a] as int] == prio@[order@[b] as int] && order@[a] < order@[b])),
                    forall|a: int| 0 <= a < pos ==> prio@[#[trigger] order@[a] as int] <= prio@[i as int],
                decreases order.len() - pos,
            {
                pos = pos + 1;
            }
            let ghost before = order@;
            order.insert(pos, i);
            proof {
                assert forall|a: int, b: int| 0 <= a < b < order@.len() implies
                    (prio@[order@[a] as int] < prio@[order@[b] as int]
                        || (prio@[order@[a] as int] == prio@[order@[b] as int] && order@[a] < order@[b])) by {
                    if b == pos as int {
                        assert(order@[a] == before[a]);
                        assert(order@[a] < i);
                    } else if a == pos as int {
                        assert(order@[b] == before[b - 1]);
                        if b - 1 > pos as int {
                            assert(prio@[before[pos as int] as int] <= prio@[before[b - 1] as int] || true);
                        }
                        assert(prio@[before[pos as int] as int] > prio@[i as int]);
                        if b - 1 > pos as int {
                            assert(prio@[before[pos as int] as int] < prio@[before[b - 1] as int]
                                || (prio@[before[pos as int] as int] == prio@[before[b - 1] as int]));
                        }
                    } else if a < pos as int && b > pos as int {
                        assert(order@[a] == before[a]);
                        assert(order@[b] == before[b - 1]);
                    } else if b < pos as int {
                        assert(order@[a] == before[a]);
                        assert(order@[b] == before[b]);
                    } else {
                        assert(order@[a] == before[a - 1]);
                        assert(order@[b] == before[b - 1]);
                    }
                }
                assert forall|a: int, b: int| 0 <= a < b < order@.len() implies order@[a] != order@[b] by {
                    if a != pos as int && b != pos as int {
                        let a0 = if a < pos as int { a } else { a - 1 };
                        let b0 = if b < pos as int { b } else { b - 1 };
                        assert(order@[a] == before[a0]);
                        assert(order@[b] == before[b0]);
                    } else if a == pos as int {
                        assert(order@[b] == before[b - 1]);
                    } else {
                        assert(order@[a] == before[a]);
                    }
                }
                assert forall|a: int| 0 <= a < order@.len() implies #[trigger] order@[a] < i + 1 by {
                    if a < pos as int {
                        assert(order@[a] == before[a]);
                    } else if a > pos as int {
                        assert(order@[a] == before[a - 1]);
                    }
                }
            }
            i = i + 1;
        }
        order
    }

    /// Merge the results of the sources, dropping every record whose CVE id
    /// occurred earlier.
    pub fn dedup_by_cve(all: Vec<Vulnerability>) -> (v: Vec<Vulnerability>)
        ensures
            v@ == first_per_cve(all@),
    {
        let mut out: Vec<Vulnerability> = Vec::new();
        let mut rest = all;
        let ghost whole = rest@;
        while rest.len() > 0
            invariant
                rest@.len() <= whole.len(),
                rest@ =~= whole.skip(whole.len() - rest@.len()),
                out@ == first_per_cve(whole.take(whole.len() - rest@.len())),
            decreases rest.len(),
        {
            let ghost k = whole.len() - rest@.len();
            let v = rest.remove(0);
            proof {
                assert(v == whole[k]);
                assert(whole.take(k + 1).drop_last() =~= whole.take(k));
                assert(whole.take(k + 1).last() == whole[k]);
                assert(rest@ =~= whole.skip(k + 1));
            }
            let mut dup = false;
            let mut j: usize = 0;
            while j < out.len()
                invariant
                    j <= out@.len(),
                    dup == exists|m: int| 0 <= m < j && #[trigger] out@[m].cve_id@ == v.cve_id@,
                decreases out.len() - j,
            {
                if str_eq(out[j].cve_id.as_str(), v.cve_id.as_str()) {
                    dup = true;
                }
                j = j + 1;
            }
            if !dup {
                out.push(v);
            }
        }
        proof {
            assert(whole.take(whole.len() as int) =~= whole);
        }
        out
    }
}

} // verus!
