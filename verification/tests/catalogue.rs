use aloo::addr::IpAddr;
use aloo::assets::{GraphBuilder, GraphEdge, InfraGraph, RelationType};
use aloo::history::DiffEngine;
use aloo::id::{HostId, SessionId};
use aloo::plugin::{PluginContext, PluginError, PluginKind, PluginManifest, PluginRegistry, HOST_API_VERSION};
use aloo::probes::ProbeRegistry;
use aloo::types::Protocol;

fn sample_manifest() -> PluginManifest {
    PluginManifest {
        id: "io.aloo.http-probe".to_string(),
        name: "HTTP Probe".to_string(),
        version: "0.1.0".to_string(),
        kind: PluginKind::Wasm,
        entry: "plugins/http_probe.wasm".to_string(),
        api_version: 1,
        description: Some("Probes HTTP endpoints".to_string()),
        author: Some("Aloo Contributors".to_string()),
    }
}

#[test]
fn diff_engine_returns_empty_stub() {
    let engine = DiffEngine::new();
    let diff = engine.compare(SessionId::new(), SessionId::new()).unwrap();
    assert!(diff.new_hosts.is_empty());
    assert!(diff.port_changes.is_empty());
}

#[test]
fn registry_register_and_get() {
    let m = sample_manifest();
    let mut registry = PluginRegistry::new();
    registry.register(m.clone()).unwrap();
    let got = registry.get("io.aloo.http-probe").unwrap();
    assert_eq!(got.name, "HTTP Probe");
}

#[test]
fn registry_api_version_mismatch_errors() {
    let mut m = sample_manifest();
    m.api_version = 99;
    let mut registry = PluginRegistry::new();
    let err = registry.register(m).unwrap_err();
    assert!(matches!(err, PluginError::ApiVersionMismatch { .. }));
}

#[test]
fn registry_remove() {
    let m = sample_manifest();
    let mut registry = PluginRegistry::new();
    registry.register(m).unwrap();
    assert!(registry.remove("io.aloo.http-probe"));
    assert!(registry.is_empty());
}

#[test]
fn plugin_context_new() {
    let ctx = PluginContext::new(IpAddr::parse("192.168.1.1").unwrap(), 443, "sess-001");
    assert_eq!(ctx.target_port, 443);
    assert_eq!(ctx.session_id, "sess-001");
}

#[test]
fn mismatch_reports_both_versions() {
    let mut m = sample_manifest();
    m.api_version = 99;
    match m.check_api_version(HOST_API_VERSION) {
        Err(PluginError::ApiVersionMismatch { expected, got }) => {
            assert_eq!(expected, 1);
            assert_eq!(got, 99);
        }
        _ => panic!("expected a version mismatch"),
    }
    assert!(sample_manifest().check_api_version(HOST_API_VERSION).is_ok());
}

#[test]
fn registry_replaces_same_id_and_lists_ids() {
    let mut registry = PluginRegistry::new();
    registry.register(sample_manifest()).unwrap();
    let mut second = sample_manifest();
    second.name = "Renamed".to_string();
    registry.register(second).unwrap();
    assert_eq!(registry.len(), 1);
    assert_eq!(registry.get("io.aloo.http-probe").unwrap().name, "Renamed");
    assert_eq!(registry.ids(), vec!["io.aloo.http-probe".to_string()]);
    assert!(!registry.remove("absent"));
    assert!(registry.get("absent").is_none());
}

#[test]
fn plugin_kind_labels() {
    assert_eq!(PluginKind::Wasm.label(), "wasm");
    assert_eq!(PluginKind::Native.label(), "native");
}

#[test]
fn registry_with_defaults_not_empty() {
    let r = ProbeRegistry::with_defaults();
    assert!(!r.is_empty());
}

#[test]
fn probes_for_port_80_tcp() {
    let r = ProbeRegistry::with_defaults();
    let matching = r.probes_for(80, Protocol::Tcp);
    let names: Vec<&str> = matching.iter().map(|p| p.name).collect();
    assert!(names.contains(&"http"));
    assert!(names.contains(&"banner"));
}

#[test]
fn probes_for_port_53_udp() {
    let r = ProbeRegistry::with_defaults();
    let matching = r.probes_for(53, Protocol::Udp);
    let names: Vec<&str> = matching.iter().map(|p| p.name).collect();
    assert!(names.contains(&"dns"));
}

#[test]
fn probes_for_keeps_registration_order() {
    let r = ProbeRegistry::with_defaults();
    assert_eq!(r.len(), 7);
    let names: Vec<&str> = r.probes_for(22, Protocol::Tcp).iter().map(|p| p.name).collect();
    assert_eq!(names, vec!["banner", "ssh"]);
    let udp: Vec<&str> = r.probes_for(80, Protocol::Udp).iter().map(|p| p.name).collect();
    assert!(udp.is_empty());
}

#[test]
fn can_add_edge_to_graph() {
    let mut graph = InfraGraph::new();
    let src = HostId::new();
    let dst = HostId::new();

    graph.add_edge(GraphEdge {
        source: src,
        target: dst,
        relation: RelationType::RoutesTo,
        confidence_bits: 0.95f32.to_bits(),
    });

    assert_eq!(graph.edges.len(), 1);
    assert_eq!(graph.edges.get(&src.0).unwrap().len(), 1);
}

#[test]
fn edges_accumulate_per_source() {
    let mut graph = InfraGraph::new();
    let a = HostId::new();
    let b = HostId::new();
    graph.add_edge(GraphEdge { source: a, target: b, relation: RelationType::RoutesTo, confidence_bits: 0 });
    graph.add_edge(GraphEdge { source: a, target: b, relation: RelationType::PeersWith, confidence_bits: 0 });
    assert_eq!(graph.edges_from(a).unwrap().len(), 2);
    assert_eq!(graph.edges_from(a).unwrap()[1].relation, RelationType::PeersWith);
    assert!(graph.edges_from(b).is_none());
}

#[test]
fn graph_builder_gives_empty_graph() {
    let ips = vec![IpAddr::parse("10.0.0.1").unwrap()];
    let g = GraphBuilder::new().build_from_scan(&ips).unwrap();
    assert!(g.edges.is_empty());
}
