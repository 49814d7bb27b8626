use vstd::prelude::*;
use std::collections::HashMap;
use crate::text::{decimal, decimal_string, opt_text};

verus! {

/// The envelope that wraps every API answer: an error code (zero on
/// success), the payload, and an optional message.
#[derive(Debug)]
pub struct ApiResponse<T> {
    pub error: i32,
    pub data: T,
    pub message: Option<String>,
}

/// Connection state of an agent.
#[derive(Debug, Clone, Copy, PartialEq, Eq, Structural)]
pub enum AgentStatus {
    Active,
    Disconnected,
    NeverConnected,
    Pending,
}

pub open spec fn agent_status_text(s: AgentStatus) -> Seq<char> {
    match s {
        AgentStatus::Active => "Active"@,
        AgentStatus::Disconnected => "Disconnected"@,
        AgentStatus::NeverConnected => "Never Connected"@,
        AgentStatus::Pending => "Pending"@,
    }
}

impl AgentStatus {
    /// The status as it is shown to a person.
    pub fn to_string(&self) -> (r: String)
        ensures
            r@ == agent_status_text(*self),
    {
        match self {
            AgentStatus::Active => String::from_str("Active"),
            AgentStatus::Disconnected => String::from_str("Disconnected"),
            AgentStatus::NeverConnected => String::from_str("Never Connected"),
            AgentStatus::Pending => String::from_str("Pending"),
        }
    }
}

/// Operating system of an agent, as far as it is known.
#[derive(Debug, Clone)]
pub struct AgentOs {
    pub platform: Option<String>,
    pub version: Option<String>,
    pub name: Option<String>,
    pub arch: Option<String>,
    pub major: Option<String>,
    pub minor: Option<String>,
    pub codename: Option<String>,
}

/// State of a manager service.
#[derive(Debug, Clone, Copy, PartialEq, Eq, Structural)]
pub enum ServiceStatus {
    Running,
    Stopped,
    Unknown,
}

pub open spec fn service_status_text(s: ServiceStatus) -> Seq<char> {
    match s {
        ServiceStatus::Running => "Running"@,
        ServiceStatus::Stopped => "Stopped"@,
        ServiceStatus::Unknown => "Unknown"@,
    }
}

impl ServiceStatus {
    /// The status as it is shown to a person.
    pub fn to_string(&self) -> (r: String)
        ensures
            r@ == service_status_text(*self),
    {
        match self {
            ServiceStatus::Running => String::from_str("Running"),
            ServiceStatus::Stopped => String::from_str("Stopped"),
            ServiceStatus::Unknown => String::from_str("Unknown"),
        }
    }
}

/// A manager service and its state.
#[derive(Debug, Clone)]
pub struct Service {
    pub name: String,
    pub status: ServiceStatus,
    pub pid: Option<u32>,
    pub version: Option<String>,
}

/// Facts about the manager.
#[derive(Debug, Clone)]
pub struct ManagerInfo {
    pub compilation_date: Option<String>,
    pub version: String,
    pub openssl_support: bool,
    pub max_agents: u32,
    pub tz_offset: String,
    pub tz_name: String,
    pub name: String,
    pub cluster: ClusterInfo,
}

/// Cluster membership of the manager.
#[derive(Debug, Clone)]
pub struct ClusterInfo {
    pub enabled: bool,
    pub node_name: Option<String>,
    pub node_type: Option<String>,
}

/// The registration key of an agent.
#[derive(Debug, Clone)]
pub struct AgentKey {
    pub id: String,
    pub key: String,
}

/// Event counters by name.
#[derive(Debug, Clone)]
pub struct Stats {
    pub alerts: HashMap<String, u64>,
    pub events: HashMap<String, u64>,
    pub syscheck: HashMap<String, u64>,
    pub syscollector: HashMap<String, u64>,
}

/// Filters and paging of an agent listing; a field left `None` is not sent.
#[derive(Debug, Clone)]
pub struct AgentParams {
    pub limit: Option<u32>,
    pub offset: Option<u32>,
    pub sort: Option<String>,
    pub search: Option<String>,
    pub status: Option<String>,
    pub q: Option<String>,
    pub os_platform: Option<String>,
    pub os_version: Option<String>,
    pub manager: Option<String>,
    pub version: Option<String>,
    pub group: Option<String>,
    pub node_name: Option<String>,
}

impl Default for AgentParams {
    /// A page of at most 500 agents, with no filter.
    fn default() -> (r: Self)
        ensures
            r.limit == Some(500u32),
            r.offset is None,
            r.sort is None,
            r.search is None,
            r.status is None,
            r.q is None,
            r.os_platform is None,
            r.os_version is None,
            r.manager is None,
            r.version is None,
            r.group is None,
            r.node_name is None,
    {
        AgentParams {
            limit: Some(500),
            offset: None,
            sort: None,
            search: None,
            status: None,
            q: None,
            os_platform: None,
            os_version: None,
            manager: None,
            version: None,
            group: None,
            node_name: None,
        }
    }
}

/// The text of an optional count.
pub open spec fn opt_count(n: Option<u32>) -> Option<Seq<char>> {
    match n {
        Some(v) => Some(decimal(v as nat)),
        None => None,
    }
}

/// One query pair for a field that is set, none for one that is not.
pub open spec fn field_pair(name: Seq<char>, value: Option<Seq<char>>) -> Seq<(Seq<char>, Seq<char>)> {
    match value {
        Some(v) => seq![(name, v)],
        None => seq![],
    }
}

/// The query pairs of an agent listing, in the order of the fields.
pub open spec fn query_pairs_of(p: AgentParams) -> Seq<(Seq<char>, Seq<char>)> {
    field_pair("limit"@, opt_count(p.limit))
        + field_pair("offset"@, opt_count(p.offset))
        + field_pair("sort"@, opt_text(p.sort))
        + field_pair("search"@, opt_text(p.search))
        + field_pair("status"@, opt_text(p.status))
        + field_pair("q"@, opt_text(p.q))
        + field_pair("os_platform"@, opt_text(p.os_platform))
        + field_pair("os_version"@, opt_text(p.os_version))
        + field_pair("manager"@, opt_text(p.manager))
        + field_pair("version"@, opt_text(p.version))
        + field_pair("group"@, opt_text(p.group))
        + field_pair("node_name"@, opt_text(p.node_name))
}

/// The view of a list of text pairs.
pub open spec fn pairs_view(v: Seq<(String, String)>) -> Seq<(Seq<char>, Seq<char>)> {
    v.map_values(|x: (String, String)| (x.0@, x.1@))
}

fn push_pair(pairs: &mut Vec<(String, String)>, name: &str, value: &Option<String>)
    ensures
        pairs_view(final(pairs)@) == pairs_view(old(pairs)@) + field_pair(name@, opt_text(*value)),
{
    if let Some(v) = value {
        pairs.push((String::from_str(name), v.clone()));
    }
    assert(pairs_view(final(pairs)@) =~= pairs_view(old(pairs)@) + field_pair(name@, opt_text(*value)));
}

fn push_count(pairs: &mut Vec<(String, String)>, name: &str, value: Option<u32>)
    ensures
        pairs_view(final(pairs)@) == pairs_view(old(pairs)@) + field_pair(name@, opt_count(value)),
{
    if let Some(v) = value {
        pairs.push((String::from_str(name), decimal_string(v as u64)));
    }
    assert(pairs_view(final(pairs)@) =~= pairs_view(old(pairs)@) + field_pair(name@, opt_count(value)));
}

impl AgentParams {
    /// The query pairs of the listing: one `(name, value)` for each field
    /// that is set, in the order of the fields.
    pub fn query_pairs(&self) -> (r: Vec<(String, String)>)
        ensures
            pairs_view(r@) == query_pairs_of(*self),
    {
        let mut v: Vec<(String, String)> = Vec::new();
        assert(pairs_view(v@) =~= seq![]);
        push_count(&mut v, "limit", self.limit);
        push_count(&mut v, "offset", self.offset);
        push_pair(&mut v, "sort", &self.sort);
        push_pair(&mut v, "search", &self.search);
        push_pair(&mut v, "status", &self.status);
        push_pair(&mut v, "q", &self.q);
        push_pair(&mut v, "os_platform", &self.os_platform);
        push_pair(&mut v, "os_version", &self.os_version);
        push_pair(&mut v, "manager", &self.manager);
        push_pair(&mut v, "version", &self.version);
        push_pair(&mut v, "group", &self.group);
        push_pair(&mut v, "node_name", &self.node_name);
        assert(pairs_view(v@) =~= query_pairs_of(*self));
        v
    }
}

/// What is sent to register a new agent.
#[derive(Debug, Clone)]
pub struct AddAgentRequest {
    pub name: String,
    pub ip: Option<String>,
    pub force: Option<bool>,
}

/// What the API answers to a registration.
#[derive(Debug, Clone)]
pub struct AddAgentResponse {
    pub id: String,
    pub key: String,
}

} // verus!
