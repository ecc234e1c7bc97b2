use llama_engine::allowlist::find_dangerous_pattern;
use llama_engine::allowlist::is_command_allowed;
use llama_engine::bridge::BridgeData;
use llama_engine::bridge::BridgeRequest;
use llama_engine::bridge::BridgeSettings;
use llama_engine::learning::UserPreferences;
use llama_engine::memory::KnowledgeGraph;

fn request(id: &str) -> BridgeRequest {
    BridgeRequest {
        id: id.to_string(),
        message: "do the thing".to_string(),
        request_type: "command".to_string(),
        status: "pending".to_string(),
        timestamp: "2024-01-01T00:00:00Z".to_string(),
    }
}

#[test]
fn test_bridge_defaults() {
    let data = BridgeData::default();
    assert!(!data.auto_approve);
    assert!(data.requests.is_empty());
    let settings = BridgeSettings::default();
    assert_eq!(settings.poll_interval_ms, 2000);
    assert_eq!(settings.max_pending_requests, 10);
    assert_eq!(settings.timeout_ms, 300000);
    assert_eq!(data.settings, settings);
}

#[test]
fn test_approve_request_marks_only_the_matching_one() {
    let mut data = BridgeData::default();
    data.requests.push(request("a"));
    data.requests.push(request("b"));
    data.set_request_status("b", "approved");
    assert_eq!(data.requests[0].status, "pending");
    assert_eq!(data.requests[1].status, "approved");
    assert_eq!(data.requests[1].message, "do the thing");
}

#[test]
fn test_reject_unknown_request_changes_nothing() {
    let mut data = BridgeData::default();
    data.requests.push(request("a"));
    data.set_request_status("zzz", "rejected");
    assert_eq!(data.requests.len(), 1);
    assert_eq!(data.requests[0].status, "pending");
}

#[test]
fn test_set_auto_approve_and_clear() {
    let mut data = BridgeData::default();
    data.requests.push(request("a"));
    data.set_auto_approve(true);
    assert!(data.auto_approve);
    assert_eq!(data.requests.len(), 1);
    data.clear_requests();
    assert!(data.requests.is_empty());
    assert!(data.auto_approve);
}

#[test]
fn test_default_knowledge_graph() {
    let graph = KnowledgeGraph::default();
    assert_eq!(graph.nodes.len(), 5);
    assert_eq!(graph.nodes[0].id, "ClaudeCli");
    assert_eq!(graph.nodes[0].node_type, "project");
    assert_eq!(graph.nodes[1].label.as_deref(), Some("React 19"));
    assert_eq!(graph.nodes[4].id, "Rust");
    assert_eq!(graph.edges.len(), 4);
    assert_eq!(graph.edges[0].source, "ClaudeCli");
    assert_eq!(graph.edges[0].target, "React");
    assert_eq!(graph.edges[0].label, "frontend");
    assert_eq!(graph.edges[3].label, "powered_by");
}

#[test]
fn test_default_preferences() {
    let prefs = UserPreferences::default();
    assert_eq!(prefs.language, "Polish");
    assert_eq!(prefs.code_language, "English");
    assert_eq!(prefs.frameworks, vec!["React 19", "TypeScript", "Zustand", "Tauri"]);
    assert_eq!(prefs.coding_style, "functional, strict TypeScript, no-any");
    assert_eq!(prefs.persona, "Jaskier");
}

#[test]
fn test_add_node_rejects_duplicates_and_empties() {
    let mut graph = KnowledgeGraph::default();
    assert!(graph.add_node("Zig".to_string(), "language".to_string(), "Zig".to_string()).is_ok());
    assert_eq!(graph.nodes.len(), 6);
    assert_eq!(graph.nodes[5].id, "Zig");
    assert_eq!(graph.nodes[5].label.as_deref(), Some("Zig"));
    assert!(graph.add_node("Zig".to_string(), "language".to_string(), "Zig again".to_string()).is_err());
    assert!(graph.add_node("".to_string(), "language".to_string(), "x".to_string()).is_err());
    assert!(graph.add_node("x".to_string(), "language".to_string(), "".to_string()).is_err());
    assert_eq!(graph.nodes.len(), 6);
}

#[test]
fn test_add_edge_requires_existing_endpoints() {
    let mut graph = KnowledgeGraph::default();
    assert!(graph.add_edge("Rust".to_string(), "Ghost".to_string(), "uses".to_string()).is_err());
    assert!(graph.add_edge("Rust".to_string(), "React".to_string(), "".to_string()).is_err());
    assert_eq!(graph.edges.len(), 4);
    assert!(graph.add_edge("Rust".to_string(), "React".to_string(), "unrelated".to_string()).is_ok());
    assert_eq!(graph.edges.len(), 5);
    assert_eq!(graph.edges[4].source, "Rust");
    assert_eq!(graph.edges[4].target, "React");
    assert_eq!(graph.edges[4].label, "unrelated");
}

#[test]
fn test_command_allowlist() {
    assert!(is_command_allowed("ls"));
    assert!(is_command_allowed("git status --short"));
    // Matching is case-insensitive on both sides.
    assert!(is_command_allowed("GIT STATUS"));
    assert!(is_command_allowed("Echo hello"));
    assert!(!is_command_allowed("rm -rf /"));
    assert!(!is_command_allowed("curl http://example.com"));
    assert!(!is_command_allowed(""));
}

#[test]
fn test_dangerous_patterns() {
    assert_eq!(find_dangerous_pattern("git status"), None);
    assert_eq!(find_dangerous_pattern("echo hi"), None);
    // "rm " is the first configured fragment.
    assert_eq!(find_dangerous_pattern("ls; rm -rf /"), Some(0));
    // Matching is case-insensitive; "Invoke-Expression" also holds "iex".
    assert_eq!(find_dangerous_pattern("INVOKE-EXPRESSION foo"), Some(17));
    assert!(find_dangerous_pattern("cat a > b").is_some());
    assert!(find_dangerous_pattern("echo `whoami`").is_some());
    assert!(find_dangerous_pattern("ls && whoami").is_some());
}
