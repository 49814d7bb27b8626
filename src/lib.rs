//! Authenticated request pipeline for a security-management REST API.
//!
//! The library holds the decisions of the client, each with a proved
//! contract: the configuration and its defaults, how the HTTP transport is
//! set up, the login attempt (probe a stored token, else log in with the
//! credentials), the API call (send with the stored token, and after an
//! unauthorized answer log in once and resend once), and the decoding of
//! answers and error envelopes. Network I/O is left to the caller: the login
//! attempt and the API call are step functions that say which request to
//! send next and take back what came of it.

mod auth;
mod commands;
mod config;
mod decode;
mod error;
mod executor;
mod http;
mod json;
mod models;
mod text;
mod transport;

pub use auth::{
    auth_abort, auth_begin, auth_on_response, auth_sends_in, auth_step, auth_trace, base64_text,
    basic, basic_from_encoded, basic_header, basic_header_from_encoded,
    lemma_login_sends_at_most_twice, lemma_valid_token_probe_only, login_or_refuse,
    login_outcome, login_outcome_from, login_request, login_url, probe_request, probe_url,
    AuthAction, AuthActionView, AuthEvent, AuthPhase, AuthState, Authenticator,
};
pub use commands::{
    agent_key_path, agent_op_path, agent_op_path_of, agent_path, agent_path_of, agents_list_path,
    agents_query, contains_text, filter_services, form_encoded, json_members_at, json_object_text,
    lower_of, lowered_names_all, members_view, name_matches, names_all, names_all_text,
    occurs_in, parse_service_status, services_from_members, services_from_status, start_path,
    start_path_of, status_for, status_from_lowered, status_of_lowered, stop_refused,
    upgrade_body, upgrade_flags_of, upgrade_strings_of, flags_view,
};
pub use config::{
    api_url_of, setting_of, ApiConfig, AuthConfig, Config, OutputConfig, TlsConfig,
};
pub use decode::{
    api_error_of, body_shape_error, decode, decoded, envelope_error, error_from_envelope_parts,
    error_from_response, lemma_envelope_error_kept, lemma_plain_body_kept, text_result,
};
pub use error::{ErrorView, FileFailure, WazuhError};
pub use executor::{
    call_request, exec_abort, exec_accepts, exec_begin, exec_on_login, exec_on_response,
    exec_step, exec_trace, lemma_call_sends_at_most_twice, lemma_failed_login_stops,
    lemma_no_token_no_request, lemma_single_retry, logins_in, sends_in, sends_left, ExecAction,
    ExecActionView, ExecEvent, ExecPhase, ExecState, Executor,
};
pub use http::{
    bearer, bearer_header, has_scheme, is_scheme_char, is_scheme_start, is_success,
    is_success_status, resolve_target, scheme_ends_at, starts_with_scheme, target_url, HttpMethod, OutboundRequest, RawResponse, RequestView, ResponseView,
    UNAUTHORIZED,
};
pub use json::{json_int_at, json_str_at, json_text};
pub use models::{
    agent_status_text, field_pair, opt_count, pairs_view, query_pairs_of, service_status_text,
    AddAgentRequest, AddAgentResponse, AgentKey, AgentOs, AgentParams, AgentStatus,
    ApiResponse, ClusterInfo, ManagerInfo, Service, ServiceStatus, Stats,
};
pub use text::{
    bool_string, bool_text, decimal, decimal_string, digit_char, has_prefix, opt_int, opt_text,
    push_decimal, same_text, starts_with,
};
pub use transport::{
    build_transport, ca_error_text, ca_pem_usable, ca_refused, identity_error_text,
    identity_pem_accepted, identity_refused,
    pem_certificate_count, plan_transport, TransportPlan,
};
