//! Configuration model, defaults and overrides.
//!
//! Priority order (highest wins): command-line flags (`ConfigLoader::apply_flags`) →
//! `ALOO_*` env vars (`ConfigLoader::apply_overrides`) → `aloo.toml`
//! (`ConfigLoader::choose_default`) → defaults; `law_configuration_priority` states it.

use vstd::prelude::*;
use vstd::string::*;

use crate::ports::PortRange;
use crate::text::parsed_decimal;
use crate::types::ScanProfileKind;

verus! {

/// Scan-specific settings.
#[derive(Debug, Clone)]
pub struct ScanConfig {
    /// Preset scan profile.
    pub profile: ScanProfileKind,
    /// Maximum concurrent workers.
    pub max_parallelism: usize,
    /// Per-target connection timeout in milliseconds.
    pub timeout_ms: u64,
    /// Global rate limit in packets per second (0 = unlimited).
    pub rate_limit_pps: u32,
    /// Explicit port range. `None` means use the profile default.
    pub ports: Option<PortRange>,
    /// Run host discovery before port scanning.
    pub host_discovery: bool,
    /// Grab service banners from open ports.
    pub banner_grab: bool,
    /// Maximum banner size in bytes.
    pub banner_max_bytes: usize,
    /// Attempt TLS analysis on relevant ports.
    pub tls_analysis: bool,
    /// Attempt OS fingerprinting.
    pub os_fingerprint: bool,
    /// Run vulnerability correlation after fingerprinting.
    pub vuln_correlation: bool,
}

/// The port ranges a profile scans when no explicit range is given.
pub open spec fn profile_ports(p: ScanProfileKind) -> Seq<(u16, u16)> {
    match p {
        ScanProfileKind::Full => seq![(1u16, 65535u16)],
        _ => seq![(1u16, 1024u16)],
    }
}

impl Default for ScanConfig {
    fn default() -> (c: Self)
        ensures
            c.profile == ScanProfileKind::Full,
            c.max_parallelism == 1_000,
            c.timeout_ms == 3_000,
            c.rate_limit_pps == 1_000,
            c.ports is None,
            c.host_discovery,
            c.banner_grab,
            c.banner_max_bytes == 4_096,
            c.tls_analysis,
            c.os_fingerprint,
            c.vuln_correlation,
    {
        ScanConfig {
            profile: ScanProfileKind::Full,
            max_parallelism: 1_000,
            timeout_ms: 3_000,
            rate_limit_pps: 1_000,
            ports: None,
            host_discovery: true,
            banner_grab: true,
            banner_max_bytes: 4_096,
            tls_analysis: true,
            os_fingerprint: true,
            vuln_correlation: true,
        }
    }
}

/// With no explicit ports, a Full scan covers every port 1–65535 and every
/// other profile (Quick, Stealth, UDP-only, Custom) exactly the ports
/// 1–1024, each as a single range.
pub proof fn law_profile_ports(profile: ScanProfileKind)
    ensures
        profile == ScanProfileKind::Full ==> profile_ports(profile) == seq![(1u16, 65535u16)],
        profile != ScanProfileKind::Full ==> profile_ports(profile) == seq![(1u16, 1024u16)],
        forall|port: u16| #[trigger] crate::ports::ranges_contain(profile_ports(profile), port)
            <==> (1 <= port && (profile == ScanProfileKind::Full || port <= 1024)),
{
    let r = profile_ports(profile);
    assert forall|port: u16| #[trigger] crate::ports::ranges_contain(r, port)
        <==> (1 <= port && (profile == ScanProfileKind::Full || port <= 1024)) by {
        if 1 <= port && (profile == ScanProfileKind::Full || port <= 1024) {
            assert(r[0].0 <= port && port <= r[0].1);
        }
    }
}

impl ScanConfig {
    /// Effective port range (explicit override or profile default).
    pub fn effective_ports(&self) -> (r: PortRange)
        ensures
            self.ports matches Some(p) ==> r@ == p@,
            self.ports is None ==> r@ == profile_ports(self.profile),
    {
        match &self.ports {
            Some(p) => p.clone(),
            None => match self.profile {
                ScanProfileKind::Quick => PortRange::top_1000(),
                ScanProfileKind::Full => PortRange::all(),
                ScanProfileKind::Stealth => PortRange::top_1000(),
                ScanProfileKind::UdpOnly => PortRange::top_1000(),
                ScanProfileKind::Custom => PortRange::top_1000(),
            },
        }
    }
}

/// Output and reporting settings.
#[derive(Debug, Clone)]
pub struct OutputConfig {
    /// Directory to write report files into.
    pub output_dir: String,
    /// Emit JSON output.
    pub json: bool,
    /// Emit HTML report.
    pub html: bool,
    /// Emit Markdown summary.
    pub markdown: bool,
    /// Pretty-print JSON.
    pub json_pretty: bool,
}

impl Default for OutputConfig {
    fn default() -> (c: Self)
        ensures
            c.output_dir@ == "./aloo-reports"@,
            c.json,
            !c.html,
            !c.markdown,
            !c.json_pretty,
    {
        OutputConfig {
            output_dir: String::from_str("./aloo-reports"),
            json: true,
            html: false,
            markdown: false,
            json_pretty: false,
        }
    }
}

/// Persistence settings.
#[derive(Debug, Clone)]
pub struct StorageConfig {
    /// Path to the SQLite history database.
    pub db_path: String,
    /// Enable persistent scan history.
    pub persist_history: bool,
}

impl Default for StorageConfig {
    fn default() -> (c: Self)
        ensures
            c.db_path@ == "~/.aloo/history.db"@,
            c.persist_history,
    {
        StorageConfig { db_path: String::from_str("~/.aloo/history.db"), persist_history: true }
    }
}

/// Plugin subsystem settings.
#[derive(Debug, Clone)]
pub struct PluginConfig {
    /// Plugin search directory.
    pub plugin_dir: Option<String>,
    /// Enable the WASM plugin sandbox.
    pub enable_wasm: bool,
    /// Enable native (.so/.dll) plugins (requires trust).
    pub enable_native: bool,
    /// WASM instruction fuel limit per plugin call.
    pub wasm_fuel_limit: u64,
    /// WASM memory limit per plugin instance in bytes.
    pub wasm_memory_limit: u64,
}

impl Default for PluginConfig {
    fn default() -> (c: Self)
        ensures
            c.plugin_dir is None,
            !c.enable_wasm,
            !c.enable_native,
            c.wasm_fuel_limit == 10_000_000,
            c.wasm_memory_limit == 64 * 1024 * 1024,
    {
        PluginConfig {
            plugin_dir: None,
            enable_wasm: false,
            enable_native: false,
            wasm_fuel_limit: 10_000_000,
            wasm_memory_limit: 64 * 1024 * 1024,
        }
    }
}

/// Logging and tracing settings.
#[derive(Debug, Clone)]
pub struct LoggingConfig {
    /// Log level filter string (e.g. `info`, `debug`).
    pub level: String,
    /// Emit structured JSON logs.
    pub json: bool,
    /// Log file path. `None` = stderr.
    pub file: Option<String>,
}

impl Default for LoggingConfig {
    fn default() -> (c: Self)
        ensures
            c.level@ == "info"@,
            !c.json,
            c.file is None,
    {
        LoggingConfig { level: String::from_str("info"), json: false, file: None }
    }
}

/// Root Aloo configuration structure.
#[derive(Debug, Clone)]
pub struct AlooConfig {
    /// Network scanning settings.
    pub scan: ScanConfig,
    /// Output and reporting settings.
    pub output: OutputConfig,
    /// Persistence settings.
    pub storage: StorageConfig,
    /// Plugin subsystem settings.
    pub plugins: PluginConfig,
    /// Logging / tracing settings.
    pub logging: LoggingConfig,
}

/// The defaults of every section.
pub open spec fn is_default_config(c: AlooConfig) -> bool {
    &&& c.scan.profile == ScanProfileKind::Full
    &&& c.scan.max_parallelism == 1_000
    &&& c.scan.timeout_ms == 3_000
    &&& c.scan.rate_limit_pps == 1_000
    &&& c.scan.ports is None
    &&& c.scan.host_discovery && c.scan.banner_grab && c.scan.tls_analysis
    &&& c.scan.os_fingerprint && c.scan.vuln_correlation
    &&& c.scan.banner_max_bytes == 4_096
    &&& c.output.output_dir@ == "./aloo-reports"@
    &&& c.output.json && !c.output.html && !c.output.markdown && !c.output.json_pretty
    &&& c.storage.db_path@ == "~/.aloo/history.db"@ && c.storage.persist_history
    &&& c.plugins.plugin_dir is None && !c.plugins.enable_wasm && !c.plugins.enable_native
    &&& c.plugins.wasm_fuel_limit == 10_000_000 && c.plugins.wasm_memory_limit == 64 * 1024 * 1024
    &&& c.logging.level@ == "info"@ && !c.logging.json && c.logging.file is None
}

impl Default for AlooConfig {
    fn default() -> (c: Self)
        ensures
            is_default_config(c),
    {
        AlooConfig {
            scan: ScanConfig::default(),
            output: OutputConfig::default(),
            storage: StorageConfig::default(),
            plugins: PluginConfig::default(),
            logging: LoggingConfig::default(),
        }
    }
}

/// What the standard library's `u32` parser makes of a text.
pub open spec fn parsed_u32(text: Seq<char>) -> Option<u32> {
    match parsed_decimal(text, u32::MAX as nat) {
        Some(n) => Some(n as u32),
        None => None,
    }
}

/// What the standard library's `usize` parser makes of a text.
pub open spec fn parsed_usize(text: Seq<char>) -> Option<usize> {
    match parsed_decimal(text, usize::MAX as nat) {
        Some(n) => Some(n as usize),
        None => None,
    }
}

/// What the standard library's `u64` parser makes of a text.
pub open spec fn parsed_u64(text: Seq<char>) -> Option<u64> {
    match parsed_decimal(text, u64::MAX as nat) {
        Some(n) => Some(n as u64),
        None => None,
    }
}

/// Parse a decimal `u32` (`str::parse::<u32>`, that is `from_str_radix`
/// with radix 10, whose documentation asks for an optional `+` followed by
/// digits only and reports an error for an empty text, any other character
/// or a value that overflows); `None` on any error.
#[verifier::external_body]
fn parse_u32(s: &str) -> (r: Option<u32>)
    ensures
        r == parsed_u32(s@),
{
    s.parse::<u32>().ok()
}

/// Parse a decimal `usize` (`str::parse::<usize>`, read as for `u32`);
/// `None` on any error.
#[verifier::external_body]
fn parse_usize(s: &str) -> (r: Option<usize>)
    ensures
        r == parsed_usize(s@),
{
    s.parse::<usize>().ok()
}

/// Parse a decimal `u64` (`str::parse::<u64>`, read as for `u32`);
/// `None` on any error.
#[verifier::external_body]
fn parse_u64(s: &str) -> (r: Option<u64>)
    ensures
        r == parsed_u64(s@),
{
    s.parse::<u64>().ok()
}

/// A value that is present replaces the current one.
pub open spec fn override_with<T>(value: Option<T>, current: T) -> T {
    match value {
        Some(v) => v,
        None => current,
    }
}

/// The `u32` an environment value gives: none when unset or unparsable.
pub open spec fn env_u32(value: Option<String>) -> Option<u32> {
    match value {
        Some(v) => parsed_u32(v@),
        None => None,
    }
}

/// The `usize` an environment value gives: none when unset or unparsable.
pub open spec fn env_usize(value: Option<String>) -> Option<usize> {
    match value {
        Some(v) => parsed_usize(v@),
        None => None,
    }
}

/// The `u64` an environment value gives: none when unset or unparsable.
pub open spec fn env_u64(value: Option<String>) -> Option<u64> {
    match value {
        Some(v) => parsed_u64(v@),
        None => None,
    }
}

/// Loads and merges configuration from all sources.
pub struct ConfigLoader;

impl ConfigLoader {
    /// The configuration to use when the default file was looked for:
    /// what it held when it was found and parsed, the defaults otherwise.
    pub fn choose_default(loaded: Option<AlooConfig>) -> (c: AlooConfig)
        ensures
            loaded matches Some(l) ==> c == l,
            loaded is None ==> is_default_config(c),
    {
        match loaded {
            Some(l) => l,
            None => AlooConfig::default(),
        }
    }

    /// Apply `ALOO_*` overrides, given the values of the variables
    /// `ALOO_RATE_LIMIT_PPS`, `ALOO_MAX_PARALLELISM`, `ALOO_TIMEOUT_MS`
    /// and `ALOO_LOG_LEVEL` (`None` when unset). A numeric value that does
    /// not parse leaves the setting as it was.
    pub fn apply_overrides(
        config: AlooConfig,
        rate_limit_pps: Option<String>,
        max_parallelism: Option<String>,
        timeout_ms: Option<String>,
        log_level: Option<String>,
    ) -> (c: AlooConfig)
        ensures
            c.scan.rate_limit_pps == override_with(env_u32(rate_limit_pps), config.scan.rate_limit_pps),
            c.scan.max_parallelism == override_with(env_usize(max_parallelism), config.scan.max_parallelism),
            c.scan.timeout_ms == override_with(env_u64(timeout_ms), config.scan.timeout_ms),
            c.logging.level@ == (match log_level {
                Some(v) => v@,
                None => config.logging.level@,
            }),
            c.scan.profile == config.scan.profile,
            c.scan.ports == config.scan.ports,
            c.scan.host_discovery == config.scan.host_discovery,
            c.scan.banner_grab == config.scan.banner_grab,
            c.scan.banner_max_bytes == config.scan.banner_max_bytes,
            c.scan.tls_analysis == config.scan.tls_analysis,
            c.scan.os_fingerprint == config.scan.os_fingerprint,
            c.scan.vuln_correlation == config.scan.vuln_correlation,
            c.output == config.output,
            c.storage == config.storage,
            c.plugins == config.plugins,
            c.logging.json == config.logging.json,
            c.logging.file == config.logging.file,
    {
        let mut config = config;
        if let Some(v) = rate_limit_pps {
            if let Some(n) = parse_u32(v.as_str()) {
                config.scan.rate_limit_pps = n;
            }
        }
        if let Some(v) = max_parallelism {
            if let Some(n) = parse_usize(v.as_str()) {
                config.scan.max_parallelism = n;
            }
        }
        if let Some(v) = timeout_ms {
            if let Some(n) = parse_u64(v.as_str()) {
                config.scan.timeout_ms = n;
            }
        }
        if let Some(v) = log_level {
            config.logging.level = v;
        }
        config
    }

    /// Apply the scan settings given on the command line: each flag given
    /// replaces its setting, everything else is kept.
    pub fn apply_flags(config: AlooConfig, flags: &ScanFlags) -> (c: AlooConfig)
        ensures
            c.scan.profile == override_with(flags.profile, config.scan.profile),
            flags.ports matches Some(p) ==> (c.scan.ports matches Some(q) && q@ == p@),
            flags.ports is None ==> c.scan.ports == config.scan.ports,
            c.scan.max_parallelism == override_with(flags.max_parallelism, config.scan.max_parallelism),
            c.scan.timeout_ms == override_with(flags.timeout_ms, config.scan.timeout_ms),
            c.scan.rate_limit_pps == override_with(flags.rate_limit_pps, config.scan.rate_limit_pps),
            c.scan.host_discovery == config.scan.host_discovery,
            c.scan.banner_grab == config.scan.banner_grab,
            c.scan.banner_max_bytes == config.scan.banner_max_bytes,
            c.scan.tls_analysis == config.scan.tls_analysis,
            c.scan.os_fingerprint == config.scan.os_fingerprint,
            c.scan.vuln_correlation == config.scan.vuln_correlation,
            c.output == config.output,
            c.storage == config.storage,
            c.plugins == config.plugins,
            c.logging == config.logging,
    {
        let mut config = config;
        if let Some(p) = flags.profile {
            config.scan.profile = p;
        }
        match &flags.ports {
            Some(p) => {
                config.scan.ports = Some(p.clone());
            },
            None => {},
        }
        if let Some(n) = flags.max_parallelism {
            config.scan.max_parallelism = n;
        }
        if let Some(n) = flags.timeout_ms {
            config.scan.timeout_ms = n;
        }
        if let Some(n) = flags.rate_limit_pps {
            config.scan.rate_limit_pps = n;
        }
        config
    }
}

/// Scan settings given on the command line; `None` where a flag was not given.
#[derive(Debug, Clone)]
pub struct ScanFlags {
    /// `--profile`.
    pub profile: Option<ScanProfileKind>,
    /// `--ports`.
    pub ports: Option<PortRange>,
    /// `--parallelism`.
    pub max_parallelism: Option<usize>,
    /// `--timeout`, in milliseconds.
    pub timeout_ms: Option<u64>,
    /// `--rate`, in packets per second.
    pub rate_limit_pps: Option<u32>,
}

/// Where a numeric scan setting comes from when a run starts from the
/// configuration `chosen` from the file and applies the environment value,
/// then the command-line flag: the flag wins, then an environment value
/// that parses, then the chosen configuration.
pub open spec fn layered<T>(flag: Option<T>, env: Option<T>, chosen: T) -> T {
    override_with(flag, override_with(env, chosen))
}

/// Settings are layered, highest first: command-line flags, then `ALOO_*`
/// values that parse, then what the configuration file held, then the
/// defaults. `chosen` is the configuration picked from the file (what
/// `ConfigLoader::choose_default` gives for `loaded`).
pub proof fn law_configuration_priority(
    loaded: Option<AlooConfig>,
    chosen: AlooConfig,
    env_rate: Option<String>,
    env_parallelism: Option<String>,
    env_timeout: Option<String>,
    flags: ScanFlags,
)
    requires
        loaded matches Some(l) ==> chosen == l,
        loaded is None ==> is_default_config(chosen),
    ensures
        layered(flags.rate_limit_pps, env_u32(env_rate), chosen.scan.rate_limit_pps) == (
            if flags.rate_limit_pps is Some { flags.rate_limit_pps->0 }
            else if env_u32(env_rate) is Some { env_u32(env_rate)->0 }
            else if loaded is Some { loaded->0.scan.rate_limit_pps }
            else { 1_000u32 }),
        layered(flags.max_parallelism, env_usize(env_parallelism), chosen.scan.max_parallelism) == (
            if flags.max_parallelism is Some { flags.max_parallelism->0 }
            else if env_usize(env_parallelism) is Some { env_usize(env_parallelism)->0 }
            else if loaded is Some { loaded->0.scan.max_parallelism }
            else { 1_000usize }),
        layered(flags.timeout_ms, env_u64(env_timeout), chosen.scan.timeout_ms) == (
            if flags.timeout_ms is Some { flags.timeout_ms->0 }
            else if env_u64(env_timeout) is Some { env_u64(env_timeout)->0 }
            else if loaded is Some { loaded->0.scan.timeout_ms }
            else { 3_000u64 }),
        override_with(flags.profile, chosen.scan.profile) == (
            if flags.profile is Some { flags.profile->0 }
            else if loaded is Some { loaded->0.scan.profile }
            else { ScanProfileKind::Full }),
{
}

} // verus!
