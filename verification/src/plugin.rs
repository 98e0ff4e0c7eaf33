//! Plugin manifests, the plugin registry and plugin execution context.

use dashmap::DashMap;

use vstd::prelude::*;
use vstd::string::*;

use crate::addr::IpAddr;
use crate::text::decimal;

verus! {

#[verifier::external_type_specification]
#[verifier::external_body]
#[verifier::reject_recursive_types(K)]
#[verifier::reject_recursive_types(V)]
#[verifier::reject_recursive_types(S)]
pub struct ExDashMap<K, V, S>(dashmap::DashMap<K, V, S>);

/// Plugin registry errors.
#[derive(Debug, Clone, PartialEq, Eq)]
pub enum PluginError {
    /// Plugin with the given ID not found.
    NotFound(String),
    /// Plugin manifest is invalid.
    InvalidManifest(String),
    /// Plugin API version mismatch.
    ApiVersionMismatch {
        /// The host's API version.
        expected: u32,
        /// The manifest's API version.
        got: u32,
    },
}

impl PluginError {
    /// Human-readable message, as the error is displayed.
    pub fn message(&self) -> (s: String)
        ensures
            self matches PluginError::NotFound(m) ==> s@ == "Plugin not found: "@ + m@,
            self matches PluginError::InvalidManifest(m) ==> s@ == "Invalid plugin manifest: "@ + m@,
            self matches PluginError::ApiVersionMismatch { expected, got }
                ==> s@ == "API version mismatch: expected "@ + decimal(expected as nat) + ", got "@ + decimal(got as nat),
    {
        match self {
            PluginError::NotFound(m) => {
                let mut s = String::from_str("Plugin not found: ");
                s.append(m.as_str());
                s
            },
            PluginError::InvalidManifest(m) => {
                let mut s = String::from_str("Invalid plugin manifest: ");
                s.append(m.as_str());
                s
            },
            PluginError::ApiVersionMismatch { expected, got } => {
                let mut s = String::from_str("API version mismatch: expected ");
                let e = crate::text::u64_to_decimal(*expected as u64);
                s.append(e.as_str());
                s.append(", got ");
                let g = crate::text::u64_to_decimal(*got as u64);
                s.append(g.as_str());
                s
            },
        }
    }
}

/// The runtime kind of a plugin.
#[derive(Debug, Clone, Copy, PartialEq, Eq, Structural)]
pub enum PluginKind {
    /// WebAssembly plugin (sandboxed, cross-platform).
    Wasm,
    /// Native shared library (.so / .dll / .dylib).
    Native,
}

impl PluginKind {
    /// Lower-case kind name, as the kind is displayed.
    pub fn label(&self) -> (s: &'static str)
        ensures
            s@ == (if *self is Wasm { "wasm"@ } else { "native"@ }),
    {
        match self {
            PluginKind::Wasm => "wasm",
            PluginKind::Native => "native",
        }
    }
}

/// Describes a plugin and how to load it.
#[derive(Debug, PartialEq, Eq)]
pub struct PluginManifest {
    /// Unique plugin identifier (reverse-DNS recommended, e.g. `io.aloo.http-probe`).
    pub id: String,
    /// Human-readable plugin name.
    pub name: String,
    /// Plugin version string (SemVer recommended).
    pub version: String,
    /// Runtime kind.
    pub kind: PluginKind,
    /// Entry point: path to `.wasm` or shared library.
    pub entry: String,
    /// Aloo plugin API version this plugin was built against.
    pub api_version: u32,
    /// Optional description.
    pub description: Option<String>,
    /// Optional author information.
    pub author: Option<String>,
}

fn clone_opt(o: &Option<String>) -> (r: Option<String>)
    ensures
        r == *o,
{
    match o {
        Some(s) => Some(s.clone()),
        None => None,
    }
}

impl Clone for PluginManifest {
    fn clone(&self) -> (r: Self)
        ensures
            r == *self,
    {
        PluginManifest {
            id: self.id.clone(),
            name: self.name.clone(),
            version: self.version.clone(),
            kind: self.kind,
            entry: self.entry.clone(),
            api_version: self.api_version,
            description: clone_opt(&self.description),
            author: clone_opt(&self.author),
        }
    }
}

impl PluginManifest {
    /// Verify the API version is the host's API version.
    pub fn check_api_version(&self, host_api_version: u32) -> (r: Result<(), PluginError>)
        ensures
            self.api_version == host_api_version <==> r is Ok,
            self.api_version != host_api_version ==> r == Err::<(), PluginError>(
                PluginError::ApiVersionMismatch { expected: host_api_version, got: self.api_version },
            ),
    {
        if self.api_version != host_api_version {
            return Err(PluginError::ApiVersionMismatch { expected: host_api_version, got: self.api_version });
        }
        Ok(())
    }
}

/// Current host plugin API version.
pub const HOST_API_VERSION: u32 = 1;

/// The manifests held by a plugin table, by plugin id.
pub uninterp spec fn plugin_table(m: DashMap<String, PluginManifest>) -> Map<Seq<char>, PluginManifest>;

/// An empty table (`DashMap::new`).
#[verifier::external_body]
fn table_new() -> (table: DashMap<String, PluginManifest>)
    ensures
        plugin_table(table) =~= Map::empty(),
{
    DashMap::new()
}

/// Insert or replace the manifest under a key (`DashMap::insert`; the
/// returned old value is dropped).
#[verifier::external_body]
fn table_insert(m: &mut DashMap<String, PluginManifest>, key: String, value: PluginManifest)
    ensures
        plugin_table(*final(m)) == plugin_table(*old(m)).insert(key@, value),
{
    m.insert(key, value);
}

/// A copy of the manifest under a key (`DashMap::get`, then `Clone` of
/// the value, whose clone is the value itself).
#[verifier::external_body]
fn table_get(m: &DashMap<String, PluginManifest>, key: &str) -> (r: Option<PluginManifest>)
    ensures
        plugin_table(*m).contains_key(key@) ==> r == Some(plugin_table(*m)[key@]),
        !plugin_table(*m).contains_key(key@) ==> r is None,
{
    m.get(key).map(|e| e.value().clone())
}

/// Remove the entry of a key (`DashMap::remove`); whether there was one.
#[verifier::external_body]
fn table_remove(m: &mut DashMap<String, PluginManifest>, key: &str) -> (r: bool)
    ensures
        r == plugin_table(*old(m)).contains_key(key@),
        plugin_table(*final(m)) == plugin_table(*old(m)).remove(key@),
{
    m.remove(key).is_some()
}

/// The keys, in the table's iteration order (`DashMap::iter`, each key
/// cloned). The order is the hash order of the shards, which nothing here
/// fixes: only that each key comes once is stated.
#[verifier::external_body]
fn table_keys(m: &DashMap<String, PluginManifest>) -> (r: Vec<String>)
    ensures
        r@.map_values(|k: String| k@).no_duplicates(),
        r@.map_values(|k: String| k@).to_set() == plugin_table(*m).dom(),
{
    m.iter().map(|e| e.key().clone()).collect()
}

/// Number of entries (`DashMap::len`).
#[verifier::external_body]
fn table_len(m: &DashMap<String, PluginManifest>) -> (n: usize)
    ensures
        n == plugin_table(*m).dom().len(),
{
    m.len()
}

/// Registry of loaded plugin manifests.
pub struct PluginRegistry {
    plugins: DashMap<String, PluginManifest>,
}

impl PluginRegistry {
    /// The registered manifests, by plugin id.
    pub closed spec fn registered(&self) -> Map<Seq<char>, PluginManifest> {
        plugin_table(self.plugins)
    }

    /// Create an empty registry.
    pub fn new() -> (r: Self)
        ensures
            r.registered() == Map::<Seq<char>, PluginManifest>::empty(),
    {
        PluginRegistry { plugins: table_new() }
    }

    /// Register a plugin manifest under its id, replacing any manifest with
    /// that id. Refused, leaving the registry unchanged, when the API
    /// version is not the host's.
    pub fn register(&mut self, manifest: PluginManifest) -> (r: Result<(), PluginError>)
        ensures
            manifest.api_version == HOST_API_VERSION ==> r is Ok
                && final(self).registered() == old(self).registered().insert(manifest.id@, manifest),
            manifest.api_version != HOST_API_VERSION ==> r == Err::<(), PluginError>(
                PluginError::ApiVersionMismatch { expected: HOST_API_VERSION, got: manifest.api_version },
            ) && final(self).registered() == old(self).registered(),
    {
        match manifest.check_api_version(HOST_API_VERSION) {
            Err(e) => {
                return Err(e);
            },
            Ok(()) => {},
        }
        let key = manifest.id.clone();
        table_insert(&mut self.plugins, key, manifest);
        Ok(())
    }

    /// Retrieve a manifest by plugin ID.
    pub fn get(&self, id: &str) -> (r: Option<PluginManifest>)
        ensures
            self.registered().contains_key(id@) ==> r == Some(self.registered()[id@]),
            !self.registered().contains_key(id@) ==> r is None,
    {
        table_get(&self.plugins, id)
    }

    /// Remove a plugin by ID. Returns true if it existed.
    pub fn remove(&mut self, id: &str) -> (b: bool)
        ensures
            b == old(self).registered().contains_key(id@),
            final(self).registered() == old(self).registered().remove(id@),
    {
        table_remove(&mut self.plugins, id)
    }

    /// List all registered plugin IDs, each once, in no fixed order.
    pub fn ids(&self) -> (v: Vec<String>)
        ensures
            v@.map_values(|k: String| k@).no_duplicates(),
            v@.map_values(|k: String| k@).to_set() == self.registered().dom(),
    {
        table_keys(&self.plugins)
    }

    /// Total number of registered plugins.
    pub fn len(&self) -> (n: usize)
        ensures
            n == self.registered().dom().len(),
    {
        table_len(&self.plugins)
    }

    /// True if no plugins are registered.
    pub fn is_empty(&self) -> (b: bool)
        ensures
            b == (self.registered().dom().len() == 0),
    {
        table_len(&self.plugins) == 0
    }
}

/// A manifest registered under an id is the one a later lookup of that id
/// returns, until another registration or removal of that id.
pub proof fn law_register_then_get(before: Map<Seq<char>, PluginManifest>, m: PluginManifest)
    ensures
        before.insert(m.id@, m).contains_key(m.id@),
        before.insert(m.id@, m)[m.id@] == m,
{
}

/// Removing an id leaves nothing to look up under it, and every other
/// registration in place.
pub proof fn law_remove_forgets(before: Map<Seq<char>, PluginManifest>, id: Seq<char>)
    ensures
        !before.remove(id).contains_key(id),
        forall|k: Seq<char>| k != id ==> (#[trigger] before.remove(id).contains_key(k) <==> before.contains_key(k)),
{
}

/// Context passed to a plugin during execution.
#[derive(Debug, Clone)]
pub struct PluginContext {
    /// Target host IP address.
    pub target_ip: IpAddr,
    /// Target port number.
    pub target_port: u16,
    /// Session ID string.
    pub session_id: String,
    /// Arbitrary key-value metadata, in insertion order.
    pub metadata: Vec<(String, String)>,
}

impl PluginContext {
    /// Create a minimal context for a target.
    pub fn new(target_ip: IpAddr, target_port: u16, session_id: &str) -> (c: Self)
        ensures
            c.target_ip == target_ip,
            c.target_port == target_port,
            c.session_id@ == session_id@,
            c.metadata@.len() == 0,
    {
        PluginContext { target_ip, target_port, session_id: String::from_str(session_id), metadata: Vec::new() }
    }
}

} // verus!
