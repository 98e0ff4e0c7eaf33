//! AI-assisted scan summarisation: endpoint settings and prompt building.
//! The client answers with placeholders until an HTTP client is wired.

use vstd::prelude::*;
use vstd::string::*;

use crate::text::{decimal, u64_to_decimal, str_eq};
use crate::types::{Host, Port, ScanResult, open_ports_of_hosts, vulns_of_hosts, critical_of};

verus! {

/// Errors from the AI summarisation subsystem.
#[derive(Debug, Clone, PartialEq, Eq)]
pub enum AiError {
    /// Client is not configured (no API key or endpoint).
    NotConfigured,
    /// HTTP request to the AI endpoint failed.
    RequestFailed(String),
    /// The model returned an unexpected response format.
    BadResponse(String),
    /// Rate limit exceeded on the AI endpoint.
    RateLimited,
}

/// Configuration for an AI LLM endpoint.
#[derive(Debug, Clone)]
pub struct AiConfig {
    /// Base URL of the AI endpoint (e.g. `https://api.openai.com`).
    pub endpoint_url: String,
    /// API key / bearer token.
    pub api_key: String,
    /// Model identifier (e.g. `gpt-4o`, `gemini-1.5-pro`).
    pub model: String,
    /// Maximum tokens in the generated response.
    pub max_tokens: u32,
    /// Request timeout in seconds.
    pub timeout_secs: u64,
}

impl AiConfig {
    /// Create a minimal config: 2048 tokens, 30 second timeout.
    pub fn new(endpoint_url: &str, api_key: &str, model: &str) -> (c: Self)
        ensures
            c.endpoint_url@ == endpoint_url@,
            c.api_key@ == api_key@,
            c.model@ == model@,
            c.max_tokens == 2_048,
            c.timeout_secs == 30,
    {
        AiConfig {
            endpoint_url: String::from_str(endpoint_url),
            api_key: String::from_str(api_key),
            model: String::from_str(model),
            max_tokens: 2_048,
            timeout_secs: 30,
        }
    }

    /// The config appears usable: non-empty key and URL.
    pub open spec fn usable(&self) -> bool {
        self.api_key@.len() > 0 && self.endpoint_url@.len() > 0
    }

    /// Returns true if the config appears usable (non-empty key and URL).
    pub fn is_usable(&self) -> (b: bool)
        ensures
            b == self.usable(),
    {
        !self.api_key.as_str().is_empty() && !self.endpoint_url.as_str().is_empty()
    }
}

/// Elements joined with a separator between consecutive ones.
pub open spec fn join(list: Seq<Seq<char>>, sep: Seq<char>) -> Seq<char>
    decreases list.len(),
{
    if list.len() == 0 {
        Seq::empty()
    } else if list.len() == 1 {
        list[0]
    } else {
        join(list.drop_last(), sep) + sep + list.last()
    }
}

/// Distinct strings in order of first occurrence.
pub open spec fn distinct_texts(s: Seq<Seq<char>>) -> Seq<Seq<char>>
    decreases s.len(),
{
    if s.len() == 0 {
        Seq::empty()
    } else {
        let d = distinct_texts(s.drop_last());
        if d.contains(s.last()) { d } else { d.push(s.last()) }
    }
}

/// Service names of a list of ports, in port order.
pub open spec fn port_services(ports: Seq<Port>) -> Seq<Seq<char>>
    decreases ports.len(),
{
    if ports.len() == 0 {
        Seq::empty()
    } else {
        match ports.last().service {
            Some(s) => port_services(ports.drop_last()).push(s.name@),
            None => port_services(ports.drop_last()),
        }
    }
}

/// Service names of all hosts, host after host.
pub open spec fn host_services(hosts: Seq<Host>) -> Seq<Seq<char>>
    decreases hosts.len(),
{
    if hosts.len() == 0 {
        Seq::empty()
    } else {
        host_services(hosts.drop_last()) + port_services(hosts.last().ports@)
    }
}

/// The summary prompt for a scan result.
pub open spec fn summary_prompt(targets: Seq<Seq<char>>, hosts: Seq<Host>) -> Seq<char> {
    let services = distinct_texts(host_services(hosts));
    "You are a senior network security analyst. Analyse the following Aloo scan results and provide a concise executive summary with key findings, risk assessment, and prioritised remediation recommendations.\n\n## Scan Details\n- **Targets:** "@
        + join(targets, ", "@)
        + "\n- **Hosts Discovered:** "@ + decimal(hosts.len())
        + "\n- **Open Ports:** "@ + decimal(open_ports_of_hosts(hosts))
        + "\n- **Total Vulnerabilities:** "@ + decimal(vulns_of_hosts(hosts))
        + "\n- **Hosts with Critical Vulns:** "@ + decimal(critical_of(hosts).len())
        + "\n- **Detected Services:** "@
        + (if services.len() == 0 { "None identified"@ } else { join(services, ", "@) })
        + "\n\nProvide your analysis in the following format:\n1. Executive Summary (2-3 sentences)\n2. Key Findings (bullet points)\n3. Risk Rating (Critical / High / Medium / Low)\n4. Remediation Priorities (numbered list)\n"@
}

/// The prompt explaining a CVE in context.
pub open spec fn cve_prompt(cve_id: Seq<char>, service: Seq<char>, host: Seq<char>) -> Seq<char> {
    "Explain "@ + cve_id + " as it applies to a "@ + service + " service on host "@ + host
        + ". Include: (1) what the vulnerability is, (2) exploitation likelihood, (3) business impact, (4) specific remediation steps."@
}

fn join_strings(list: &Vec<String>, sep: &str) -> (s: String)
    ensures
        s@ == join(list@.map_values(|v: String| v@), sep@),
{
    let mut out = crate::text::empty_string();
    let ghost views = list@.map_values(|v: String| v@);
    let mut i: usize = 0;
    while i < list.len()
        invariant
            i <= list@.len(),
            views == list@.map_values(|v: String| v@),
            out@ == join(views.take(i as int), sep@),
        decreases list.len() - i,
    {
        proof {
            assert(views.take(i + 1).drop_last() =~= views.take(i as int));
            assert(views.take(i + 1).last() == list@[i as int]@);
        }
        if i != 0 {
            out.append(sep);
        } else {
            proof {
                assert(views.take(1) =~= seq![list@[0]@]);
            }
        }
        out.append(list[i].as_str());
        proof {
            if i == 0 {
                assert(out@ =~= list@[0]@);
                assert(join(views.take(1), sep@) == views.take(1)[0]);
            }
        }
        i = i + 1;
    }
    proof {
        assert(views.take(list@.len() as int) =~= views);
    }
    out
}

fn collect_services(hosts: &Vec<Host>) -> (v: Vec<String>)
    ensures
        v@.map_values(|s: String| s@) == distinct_texts(host_services(hosts@)),
{
    let mut out: Vec<String> = Vec::new();
    let mut i: usize = 0;
    while i < hosts.len()
        invariant
            i <= hosts@.len(),
            out@.map_values(|s: String| s@) =~= distinct_texts(host_services(hosts@.take(i as int))),
        decreases hosts.len() - i,
    {
        let ports = &hosts[i].ports;
        let ghost before = host_services(hosts@.take(i as int));
        proof {
            assert(hosts@.take(i + 1).drop_last() =~= hosts@.take(i as int));
            assert(hosts@.take(i + 1).last() == hosts@[i as int]);
        }
        let mut j: usize = 0;
        while j < ports.len()
            invariant
                j <= ports@.len(),
                ports@ == hosts@[i as int].ports@,
                out@.map_values(|s: String| s@) =~= distinct_texts(before + port_services(ports@.take(j as int))),
            decreases ports.len() - j,
        {
            let ghost acc = before + port_services(ports@.take(j as int));
            proof {
                assert(ports@.take(j + 1).drop_last() =~= ports@.take(j as int));
                assert(ports@.take(j + 1).last() == ports@[j as int]);
            }
            match &ports[j].service {
                Some(s) => {
                    proof {
                        assert(before + port_services(ports@.take(j + 1)) =~= acc.push(s.name@));
                        assert(acc.push(s.name@).drop_last() =~= acc);
                    }
                    let mut seen = false;
                    let mut k: usize = 0;
                    while k < out.len()
                        invariant
                            k <= out@.len(),
                            seen == exists|m: int| 0 <= m < k && #[trigger] out@[m]@ == s.name@,
                        decreases out.len() - k,
                    {
                        if str_eq(out[k].as_str(), s.name.as_str()) {
                            seen = true;
                        }
                        k = k + 1;
                    }
                    proof {
                        let d = out@.map_values(|x: String| x@);
                        if seen {
                            let m = choose|m: int| 0 <= m < out@.len() && #[trigger] out@[m]@ == s.name@;
                            assert(d[m] == s.name@);
                            assert(d.contains(s.name@));
                        } else {
                            assert forall|m: int| 0 <= m < d.len() implies d[m] != s.name@ by {
                                assert(d[m] == out@[m]@);
                            }
                            assert(!d.contains(s.name@));
                        }
                    }
                    if !seen {
                        out.push(s.name.clone());
                    }
                },
                None => {
                    proof {
                        assert(before + port_services(ports@.take(j + 1)) =~= acc);
                    }
                },
            }
            j = j + 1;
        }
        proof {
            assert(ports@.take(ports@.len() as int) =~= ports@);
        }
        i = i + 1;
    }
    proof {
        assert(hosts@.take(hosts@.len() as int) =~= hosts@);
    }
    out
}

/// Builds LLM prompts from scan results.
pub struct PromptBuilder;

impl PromptBuilder {
    /// Build a structured scan summary prompt. Services appear once each, in
    /// order of first appearance.
    pub fn build_scan_summary_prompt(result: &ScanResult) -> (p: String)
        requires
            open_ports_of_hosts(result.hosts@) <= usize::MAX,
            vulns_of_hosts(result.hosts@) <= usize::MAX,
        ensures
            p@ == summary_prompt(result.session.targets@.map_values(|t: String| t@), result.hosts@),
    {
        let host_count = result.hosts.len();
        let open_ports = result.total_open_ports();
        let vuln_count = result.total_vulnerabilities();
        let crit = result.critical_hosts();
        let critical = crit.len();
        proof {
            assert(crit@.map_values(|h: &Host| *h).len() == crit@.len());
        }
        let targets = join_strings(&result.session.targets, ", ");
        let services = collect_services(&result.hosts);
        let services_text = if services.len() == 0 {
            String::from_str("None identified")
        } else {
            join_strings(&services, ", ")
        };
        let mut p = String::from_str("You are a senior network security analyst. Analyse the following Aloo scan results and provide a concise executive summary with key findings, risk assessment, and prioritised remediation recommendations.\n\n## Scan Details\n- **Targets:** ");
        p.append(targets.as_str());
        p.append("\n- **Hosts Discovered:** ");
        let a = u64_to_decimal(host_count as u64);
        p.append(a.as_str());
        p.append("\n- **Open Ports:** ");
        let b = u64_to_decimal(open_ports as u64);
        p.append(b.as_str());
        p.append("\n- **Total Vulnerabilities:** ");
        let c = u64_to_decimal(vuln_count as u64);
        p.append(c.as_str());
        p.append("\n- **Hosts with Critical Vulns:** ");
        let d = u64_to_decimal(critical as u64);
        p.append(d.as_str());
        p.append("\n- **Detected Services:** ");
        p.append(services_text.as_str());
        p.append("\n\nProvide your analysis in the following format:\n1. Executive Summary (2-3 sentences)\n2. Key Findings (bullet points)\n3. Risk Rating (Critical / High / Medium / Low)\n4. Remediation Priorities (numbered list)\n");
        proof {
            assert(p@ =~= summary_prompt(result.session.targets@.map_values(|t: String| t@), result.hosts@));
        }
        p
    }

    /// Build a prompt for explaining a specific CVE in context.
    pub fn build_cve_explain_prompt(cve_id: &str, service: &str, host: &str) -> (p: String)
        ensures
            p@ == cve_prompt(cve_id@, service@, host@),
    {
        let mut p = String::from_str("Explain ");
        p.append(cve_id);
        p.append(" as it applies to a ");
        p.append(service);
        p.append(" service on host ");
        p.append(host);
        p.append(". Include: (1) what the vulnerability is, (2) exploitation likelihood, (3) business impact, (4) specific remediation steps.");
        p
    }
}

/// Sends prompts to an LLM endpoint and returns generated text.
pub struct AiClient {
    config: AiConfig,
}

impl AiClient {
    /// The client's configuration.
    pub closed spec fn settings(&self) -> AiConfig {
        self.config
    }

    /// Create an AI client with the given configuration.
    pub fn new(config: AiConfig) -> (c: Self)
        ensures
            c.settings() == config,
    {
        AiClient { config }
    }

    /// Generate a scan summary. Refused when the configuration is not
    /// usable; otherwise a placeholder naming the host count and model.
    pub fn summarise(&self, result: &ScanResult) -> (r: Result<String, AiError>)
        ensures
            !self.settings().usable() <==> r == Err::<String, AiError>(AiError::NotConfigured),
            self.settings().usable() ==> (r matches Ok(s) && s@ == "[AI stub] Would summarise scan with "@
                + decimal(result.hosts@.len()) + " hosts using model '"@ + self.settings().model@ + "'."@),
    {
        if !self.config.is_usable() {
            return Err(AiError::NotConfigured);
        }
        let mut s = String::from_str("[AI stub] Would summarise scan with ");
        let n = u64_to_decimal(result.hosts.len() as u64);
        s.append(n.as_str());
        s.append(" hosts using model '");
        s.append(self.config.model.as_str());
        s.append("'.");
        Ok(s)
    }

    /// Explain a CVE in the context of a specific host and service: refused
    /// when the configuration is not usable, otherwise a placeholder.
    pub fn explain_cve(&self, cve_id: &str, service: &str, host: &str) -> (r: Result<String, AiError>)
        ensures
            !self.settings().usable() <==> r == Err::<String, AiError>(AiError::NotConfigured),
            self.settings().usable() ==> (r matches Ok(s) && s@ == "[AI stub] Would explain "@ + cve_id@
                + " for "@ + service@ + " on "@ + host@ + "."@),
    {
        if !self.config.is_usable() {
            return Err(AiError::NotConfigured);
        }
        let mut s = String::from_str("[AI stub] Would explain ");
        s.append(cve_id);
        s.append(" for ");
        s.append(service);
        s.append(" on ");
        s.append(host);
        s.append(".");
        Ok(s)
    }
}

} // verus!
