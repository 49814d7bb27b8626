use wazuh_cli::{
    agent_key_path, agent_op_path, agent_path, agents_list_path, agents_query, contains_text,
    filter_services, parse_service_status, services_from_status, start_path, stop_refused,
    upgrade_body, AgentParams, Service, ServiceStatus,
};

#[test]
fn service_status_ignores_case() {
    assert_eq!(parse_service_status(Some("running")), ServiceStatus::Running);
    assert_eq!(parse_service_status(Some("RUNNING")), ServiceStatus::Running);
    assert_eq!(parse_service_status(Some("Stopped")), ServiceStatus::Stopped);
    assert_eq!(parse_service_status(Some("paused")), ServiceStatus::Unknown);
    assert_eq!(parse_service_status(None), ServiceStatus::Unknown);
}

#[test]
fn services_from_status_answer() {
    let body = r#"{"error":0,"data":{"wazuh-analysisd":"running","wazuh-db":"stopped","wazuh-x":3}}"#;
    let services = services_from_status(body);
    assert_eq!(services.len(), 3);
    assert_eq!(services[0].name, "wazuh-analysisd");
    assert_eq!(services[0].status, ServiceStatus::Running);
    assert_eq!(services[1].name, "wazuh-db");
    assert_eq!(services[1].status, ServiceStatus::Stopped);
    assert_eq!(services[2].status, ServiceStatus::Unknown);
    assert!(services[0].pid.is_none() && services[0].version.is_none());
}

#[test]
fn services_without_object() {
    assert!(services_from_status(r#"{"error":0,"data":[1,2]}"#).is_empty());
    assert!(services_from_status("not json").is_empty());
}

fn service(name: &str) -> Service {
    Service { name: name.to_string(), status: ServiceStatus::Running, pid: None, version: None }
}

#[test]
fn filter_by_name_ignoring_case() {
    let all = vec![service("wazuh-AnalysisD"), service("wazuh-db"), service("ossec-analysis")];
    let hit = filter_services(&all, "ANALYSIS");
    let names: Vec<&str> = hit.iter().map(|s| s.name.as_str()).collect();
    assert_eq!(names, vec!["wazuh-AnalysisD", "ossec-analysis"]);
    assert!(filter_services(&all, "remoted").is_empty());
    assert_eq!(filter_services(&all, "").len(), 3);
}

#[test]
fn text_containment() {
    assert!(contains_text("abcdef", "cde"));
    assert!(contains_text("abc", ""));
    assert!(contains_text("abc", "abc"));
    assert!(!contains_text("abc", "abcd"));
    assert!(!contains_text("abc", "bd"));
}

#[test]
fn agent_paths() {
    assert_eq!(agent_path("007"), "/agents/007");
    assert_eq!(agent_key_path("007"), "/agents/007/key");
    assert_eq!(agent_op_path("007", "restart"), "/agents/007/restart");
    assert_eq!(agent_op_path("ALL", "restart"), "/agents/restart");
    assert_eq!(agent_op_path("all", "upgrade"), "/agents/upgrade");
    assert_eq!(agent_op_path("allx", "upgrade"), "/agents/allx/upgrade");
}

#[test]
fn upgrade_bodies() {
    assert_eq!(upgrade_body(None, false), "{}");
    assert_eq!(upgrade_body(None, true), r#"{"force":true}"#);
    assert_eq!(upgrade_body(Some("4.8.0"), false), r#"{"version":"4.8.0"}"#);
    assert_eq!(upgrade_body(Some("4.8\"x"), true), r#"{"force":true,"version":"4.8\"x"}"#);
}

#[test]
fn service_start_and_stop() {
    assert_eq!(start_path(None), "/manager/restart");
    assert_eq!(start_path(Some("all")), "/manager/restart");
    assert_eq!(start_path(Some("wazuh-db")), "/manager/restart?service=wazuh-db");
    assert!(stop_refused(None));
    assert!(stop_refused(Some("all")));
    assert!(!stop_refused(Some("wazuh-db")));
}

#[test]
fn listing_query() {
    let mut params = AgentParams::default();
    params.status = Some("never connected".to_string());
    params.search = Some("a&b".to_string());
    let q = agents_query(&params);
    assert_eq!(q, "limit=500&search=a%26b&status=never+connected");
    assert_eq!(agents_list_path(&q), "/agents?limit=500&search=a%26b&status=never+connected");
}

#[test]
fn all_in_any_case() {
    assert!(wazuh_cli::names_all_text("All"));
    assert!(wazuh_cli::names_all_text("all"));
    assert!(!wazuh_cli::names_all_text("al"));
}

