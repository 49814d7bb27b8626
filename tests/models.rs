use wazuh_cli::{AgentParams, AgentStatus, ServiceStatus};

#[test]
fn test_agent_status_display() {
    assert_eq!(AgentStatus::Active.to_string(), "Active");
    assert_eq!(AgentStatus::Disconnected.to_string(), "Disconnected");
    assert_eq!(AgentStatus::NeverConnected.to_string(), "Never Connected");
    assert_eq!(AgentStatus::Pending.to_string(), "Pending");
}

#[test]
fn test_service_status_display() {
    assert_eq!(ServiceStatus::Running.to_string(), "Running");
    assert_eq!(ServiceStatus::Stopped.to_string(), "Stopped");
    assert_eq!(ServiceStatus::Unknown.to_string(), "Unknown");
}

#[test]
fn default_listing_pairs() {
    let params = AgentParams::default();
    assert_eq!(params.limit, Some(500));
    let pairs = params.query_pairs();
    assert_eq!(pairs, vec![("limit".to_string(), "500".to_string())]);
}

#[test]
fn listing_pairs_keep_field_order() {
    let mut params = AgentParams::default();
    params.status = Some("active".to_string());
    params.os_platform = Some("ubuntu".to_string());
    params.version = Some("4.7".to_string());
    params.offset = Some(20);
    let pairs = params.query_pairs();
    let names: Vec<&str> = pairs.iter().map(|p| p.0.as_str()).collect();
    assert_eq!(names, vec!["limit", "offset", "status", "os_platform", "version"]);
    assert_eq!(pairs[1].1, "20");
    assert_eq!(pairs[3].1, "ubuntu");
}
