use vstd::prelude::*;
use crate::error::{ErrorView, WazuhError};
use crate::models::{pairs_view, AgentParams, Service, ServiceStatus};
use crate::text::{has_prefix, opt_text, same_text, starts_with};

verus! {

/// The lower-case form of `s`, as Rust's `to_lowercase` gives it.
pub uninterp spec fn lower_of(s: Seq<char>) -> Seq<char>;

/// The members of the JSON object that `pointer` reaches in the document
/// `body`, in serde_json's order, each name with its value when that value
/// is a string.
pub uninterp spec fn json_members_at(body: Seq<char>, pointer: Seq<char>) -> Option<Seq<(Seq<char>, Option<Seq<char>>)>>;

/// The JSON text of the object with the given string members and boolean
/// members, as serde_json writes it.
pub uninterp spec fn json_object_text(
    strings: Seq<(Seq<char>, Seq<char>)>,
    flags: Seq<(Seq<char>, bool)>,
) -> Seq<char>;

/// The `application/x-www-form-urlencoded` text of a list of pairs.
pub uninterp spec fn form_encoded(pairs: Seq<(Seq<char>, Seq<char>)>) -> Seq<char>;

/// Relies on str::to_lowercase.
#[verifier::external_body]
fn lowercase(s: &str) -> (r: String)
    ensures
        r@ == lower_of(s@),
{
    s.to_lowercase()
}

/// Relies on serde_json::from_str into serde_json::Value, Value::pointer,
/// Value::as_object and Value::as_str: the members of the object at
/// `pointer`.
#[verifier::external_body]
fn members_at(body: &str, pointer: &str) -> (r: Option<Vec<(String, Option<String>)>>)
    ensures
        match r {
            Some(v) => json_members_at(body@, pointer@) == Some(members_view(v@)),
            None => json_members_at(body@, pointer@) is None,
        },
{
    match serde_json::from_str::<serde_json::Value>(body) {
        Ok(v) => v.pointer(pointer).and_then(serde_json::Value::as_object).map(|m| {
            m.iter().map(|(k, x)| (k.clone(), x.as_str().map(str::to_string))).collect()
        }),
        Err(_) => None,
    }
}

/// Relies on serde_json: a serde_json::Map with a Value::String for each
/// string member and a Value::Bool for each boolean member, written through
/// the Display impl of Value::Object.
#[verifier::external_body]
fn json_object(strings: &Vec<(String, String)>, flags: &Vec<(String, bool)>) -> (r: String)
    ensures
        r@ == json_object_text(pairs_view(strings@), flags_view(flags@)),
{
    let mut m = serde_json::Map::new();
    for (k, v) in strings.iter() {
        m.insert(k.clone(), serde_json::Value::String(v.clone()));
    }
    for (k, b) in flags.iter() {
        m.insert(k.clone(), serde_json::Value::Bool(*b));
    }
    serde_json::Value::Object(m).to_string()
}

/// Relies on serde_urlencoded::to_string on a slice of text pairs, which
/// accepts every pair of strings.
#[verifier::external_body]
fn urlencode(pairs: &Vec<(String, String)>) -> (r: Option<String>)
    ensures
        r is Some,
        r matches Some(s) ==> s@ == form_encoded(pairs_view(pairs@)),
{
    serde_urlencoded::to_string(pairs.as_slice()).ok()
}

/// The view of a list of named flags.
pub open spec fn flags_view(v: Seq<(String, bool)>) -> Seq<(Seq<char>, bool)> {
    v.map_values(|x: (String, bool)| (x.0@, x.1))
}

/// The view of a list of object members.
pub open spec fn members_view(v: Seq<(String, Option<String>)>) -> Seq<(Seq<char>, Option<Seq<char>>)> {
    v.map_values(|x: (String, Option<String>)| (x.0@, opt_text(x.1)))
}

/// Whether `needle` occurs in `hay`.
pub open spec fn occurs_in(needle: Seq<char>, hay: Seq<char>) -> bool {
    exists|i: int| 0 <= i && i + needle.len() <= hay.len() && #[trigger] hay.subrange(i, i + needle.len()) == needle
}

/// Whether `needle` occurs in `hay`.
pub fn contains_text(hay: &str, needle: &str) -> (r: bool)
    ensures
        r == occurs_in(needle@, hay@),
{
    let h = hay.unicode_len();
    let n = needle.unicode_len();
    if n > h {
        proof {
            assert forall|i: int| 0 <= i && i + needle@.len() <= hay@.len() implies
                #[trigger] hay@.subrange(i, i + needle@.len()) != needle@ by {}
        }
        return false;
    }
    let last = h - n;
    let mut i: usize = 0;
    loop
        invariant
            h == hay@.len(),
            n == needle@.len(),
            last == h - n,
            i <= last,
            forall|j: int| 0 <= j < i ==> #[trigger] hay@.subrange(j, j + n) != needle@,
        decreases last - i,
    {
        let rest = hay.substring_char(i, h);
        assert(rest@.subrange(0, n as int) =~= hay@.subrange(i as int, i + n));
        if has_prefix(rest, needle) {
            return true;
        }
        if i == last {
            return false;
        }
        i = i + 1;
    }
}

/// The state named by a status text, compared without regard to case.
pub open spec fn status_of_lowered(lowered: Seq<char>) -> ServiceStatus {
    if lowered == "running"@ {
        ServiceStatus::Running
    } else if lowered == "stopped"@ {
        ServiceStatus::Stopped
    } else {
        ServiceStatus::Unknown
    }
}

/// The state of a service whose status value is `text` (`None`: not a string).
pub open spec fn status_for(text: Option<Seq<char>>) -> ServiceStatus {
    match text {
        Some(t) => status_of_lowered(lower_of(t)),
        None => ServiceStatus::Unknown,
    }
}

/// The state named by an already lower-cased status text.
pub fn status_from_lowered(lowered: &str) -> (r: ServiceStatus)
    ensures
        r == status_of_lowered(lowered@),
{
    if same_text(lowered, "running") {
        ServiceStatus::Running
    } else if same_text(lowered, "stopped") {
        ServiceStatus::Stopped
    } else {
        ServiceStatus::Unknown
    }
}

/// The state of a service from its status value: `running` and `stopped`
/// in any case, anything else unknown.
pub fn parse_service_status(text: Option<&str>) -> (r: ServiceStatus)
    ensures
        r == status_for(match text { Some(t) => Some(t@), None => None }),
{
    match text {
        Some(t) => {
            let l = lowercase(t);
            status_from_lowered(l.as_str())
        },
        None => ServiceStatus::Unknown,
    }
}

/// The services of a status listing, one per member, in order: the member's
/// name, and its state from its value; no pid and no version.
pub fn services_from_members(members: &Vec<(String, Option<String>)>) -> (r: Vec<Service>)
    ensures
        r@.len() == members@.len(),
        forall|i: int| 0 <= i < r@.len() ==> {
            &&& (#[trigger] r@[i]).name@ == members@[i].0@
            &&& r@[i].status == status_for(opt_text(members@[i].1))
            &&& r@[i].pid is None
            &&& r@[i].version is None
        },
{
    let mut out: Vec<Service> = Vec::new();
    let mut i: usize = 0;
    while i < members.len()
        invariant
            i <= members@.len(),
            out@.len() == i,
            forall|j: int| 0 <= j < i ==> {
                &&& (#[trigger] out@[j]).name@ == members@[j].0@
                &&& out@[j].status == status_for(opt_text(members@[j].1))
                &&& out@[j].pid is None
                &&& out@[j].version is None
            },
        decreases members@.len() - i,
    {
        let (name, value) = &members[i];
        let status = match value {
            Some(t) => parse_service_status(Some(t.as_str())),
            None => parse_service_status(None),
        };
        out.push(Service { name: name.clone(), status, pid: None, version: None });
        i = i + 1;
    }
    out
}

/// The services named in a status answer's `data` object; none when `data`
/// is not an object.
pub fn services_from_status(body: &str) -> (r: Vec<Service>)
    ensures
        match json_members_at(body@, "/data"@) {
            Some(m) => r@.len() == m.len() && forall|i: int| 0 <= i < r@.len() ==> {
                &&& (#[trigger] r@[i]).name@ == m[i].0
                &&& r@[i].status == status_for(m[i].1)
                &&& r@[i].pid is None
                &&& r@[i].version is None
            },
            None => r@.len() == 0,
        },
{
    match members_at(body, "/data") {
        Some(m) => {
            let r = services_from_members(&m);
            assert forall|i: int| 0 <= i < r@.len() implies
                (#[trigger] r@[i]).name@ == members_view(m@)[i].0
                && r@[i].status == status_for(members_view(m@)[i].1)
                && r@[i].pid is None && r@[i].version is None by {}
            r
        },
        None => Vec::new(),
    }
}

/// Whether `name` matches the query `query` without regard to case.
pub open spec fn name_matches(name: Seq<char>, query: Seq<char>) -> bool {
    occurs_in(lower_of(query), lower_of(name))
}

fn copy_service(s: &Service) -> (r: Service)
    ensures
        r == *s,
{
    Service { name: s.name.clone(), status: s.status, pid: s.pid, version: s.version.clone() }
}

/// The services whose name contains the query, ignoring case, in order.
pub fn filter_services(services: &Vec<Service>, query: &str) -> (r: Vec<Service>)
    ensures
        r@ == services@.filter(|s: Service| name_matches(s.name@, query@)),
{
    let q = lowercase(query);
    let mut out: Vec<Service> = Vec::new();
    let mut i: usize = 0;
    while i < services.len()
        invariant
            i <= services@.len(),
            q@ == lower_of(query@),
            out@ == services@.subrange(0, i as int).filter(|s: Service| name_matches(s.name@, query@)),
        decreases services@.len() - i,
    {
        let s = &services[i];
        let l = lowercase(s.name.as_str());
        let keep = contains_text(l.as_str(), q.as_str());
        proof {
            assert(services@.subrange(0, i + 1) =~= services@.subrange(0, i as int).push(services@[i as int]));
            services@.subrange(0, i as int).lemma_filter_push(
                services@[i as int],
                |s: Service| name_matches(s.name@, query@),
            );
        }
        if keep {
            out.push(copy_service(s));
        }
        i = i + 1;
    }
    assert(services@.subrange(0, services@.len() as int) =~= services@);
    out
}

/// Whether a target names every agent or service: `all` in any case.
pub open spec fn names_all(target: Seq<char>) -> bool {
    lower_of(target) == "all"@
}

/// Path of one agent.
pub open spec fn agent_path_of(id: Seq<char>) -> Seq<char> {
    "/agents/"@ + id
}

/// Path of an operation `op` (such as `restart`) on one agent, or on all
/// agents when the target says `all`.
pub open spec fn agent_op_path_of(target: Seq<char>, op: Seq<char>) -> Seq<char> {
    if names_all(target) {
        "/agents/"@ + op
    } else {
        "/agents/"@ + target + "/"@ + op
    }
}

/// Path of one agent.
pub fn agent_path(id: &str) -> (r: String)
    ensures
        r@ == agent_path_of(id@),
{
    let mut s = String::from_str("/agents/");
    s.append(id);
    s
}

/// Path of the registration key of one agent.
pub fn agent_key_path(id: &str) -> (r: String)
    ensures
        r@ == agent_path_of(id@) + "/key"@,
{
    let mut s = agent_path(id);
    s.append("/key");
    s
}

/// Whether a target names everything, once lower-cased.
pub fn lowered_names_all(lowered: &str) -> (r: bool)
    ensures
        r == (lowered@ == "all"@),
{
    same_text(lowered, "all")
}

/// Whether a target names every agent: `all` in any case.
pub fn names_all_text(target: &str) -> (r: bool)
    ensures
        r == names_all(target@),
{
    let l = lowercase(target);
    lowered_names_all(l.as_str())
}

/// Path of operation `op` on the target agent, or on all agents.
pub fn agent_op_path(target: &str, op: &str) -> (r: String)
    ensures
        r@ == agent_op_path_of(target@, op@),
{
    if names_all_text(target) {
        let mut s = String::from_str("/agents/");
        s.append(op);
        s
    } else {
        let mut s = agent_path(target);
        s.append("/");
        s.append(op);
        s
    }
}

/// The string members of an upgrade order: the target version, if given.
pub open spec fn upgrade_strings_of(version: Option<Seq<char>>) -> Seq<(Seq<char>, Seq<char>)> {
    match version {
        Some(v) => seq![("version"@, v)],
        None => seq![],
    }
}

/// The boolean members of an upgrade order: `force`, if asked for.
pub open spec fn upgrade_flags_of(force: bool) -> Seq<(Seq<char>, bool)> {
    if force {
        seq![("force"@, true)]
    } else {
        seq![]
    }
}

/// Writes the body of an upgrade order: a JSON object with `version` when a
/// target version is given and `force: true` when forcing is asked for.
pub fn upgrade_body(version: Option<&str>, force: bool) -> (r: String)
    ensures
        r@ == json_object_text(
            upgrade_strings_of(match version { Some(x) => Some(x@), None => None }),
            upgrade_flags_of(force),
        ),
{
    let mut strings: Vec<(String, String)> = Vec::new();
    if let Some(v) = version {
        strings.push((String::from_str("version"), String::from_str(v)));
    }
    let mut flags: Vec<(String, bool)> = Vec::new();
    if force {
        flags.push((String::from_str("force"), true));
    }
    proof {
        let vv = match version { Some(x) => Some(x@), None => None };
        assert(pairs_view(strings@) =~= upgrade_strings_of(vv));
        assert(flags_view(flags@) =~= upgrade_flags_of(force));
    }
    json_object(&strings, &flags)
}

/// Path that starts services: the named one, or all of them when no name or
/// `all` is given.
pub open spec fn start_path_of(service: Option<Seq<char>>) -> Seq<char> {
    match service {
        Some(s) if s != "all"@ => "/manager/restart?service="@ + s,
        _ => "/manager/restart"@,
    }
}

/// Writes the path that starts services.
pub fn start_path(service: Option<&str>) -> (r: String)
    ensures
        r@ == start_path_of(match service { Some(x) => Some(x@), None => None }),
{
    match service {
        Some(s) => {
            if same_text(s, "all") {
                String::from_str("/manager/restart")
            } else {
                let mut p = String::from_str("/manager/restart?service=");
                p.append(s);
                p
            }
        },
        None => String::from_str("/manager/restart"),
    }
}

/// Whether a stop order is refused because it names no single service.
pub fn stop_refused(service: Option<&str>) -> (r: bool)
    ensures
        r == match service { Some(s) => s@ == "all"@, None => true },
{
    match service {
        Some(s) => same_text(s, "all"),
        None => true,
    }
}

/// The query string of an agent listing.
pub fn agents_query(params: &AgentParams) -> (r: String)
    ensures
        r@ == form_encoded(crate::models::query_pairs_of(*params)),
{
    let pairs = params.query_pairs();
    urlencode(&pairs).unwrap()
}

/// Path of an agent listing with its query.
pub fn agents_list_path(query: &str) -> (r: String)
    ensures
        r@ == "/agents?"@ + query@,
{
    let mut s = String::from_str("/agents?");
    s.append(query);
    s
}

} // verus!
