use vstd::prelude::*;
use crate::text::opt_text;

verus! {

/// The status code of a response that rejects the caller's credentials.
pub const UNAUTHORIZED: u16 = 401;

/// The HTTP methods that the API uses.
#[derive(Debug, Clone, Copy, PartialEq, Eq, Structural)]
pub enum HttpMethod {
    Get,
    Post,
    Put,
    Delete,
}

/// A response as the transport delivered it: its status and its whole body
/// as text.
#[derive(Debug, Clone)]
pub struct RawResponse {
    pub status: u16,
    pub body: String,
}

pub ghost struct ResponseView {
    pub status: u16,
    pub body: Seq<char>,
}

impl View for RawResponse {
    type V = ResponseView;

    open spec fn view(&self) -> ResponseView {
        ResponseView { status: self.status, body: self.body@ }
    }
}

/// A request ready for the transport: method, absolute URL, the value of the
/// `Authorization` header, and a JSON body if there is one.
#[derive(Debug, Clone)]
pub struct OutboundRequest {
    pub method: HttpMethod,
    pub url: String,
    pub authorization: String,
    pub body: Option<String>,
}

pub ghost struct RequestView {
    pub method: HttpMethod,
    pub url: Seq<char>,
    pub authorization: Seq<char>,
    pub body: Option<Seq<char>>,
}

impl View for OutboundRequest {
    type V = RequestView;

    open spec fn view(&self) -> RequestView {
        RequestView {
            method: self.method,
            url: self.url@,
            authorization: self.authorization@,
            body: opt_text(self.body),
        }
    }
}

/// A 2xx status.
pub open spec fn is_success_status(status: u16) -> bool {
    200 <= status && status < 300
}

/// Whether `status` is a 2xx status.
pub fn is_success(status: u16) -> (r: bool)
    ensures
        r == is_success_status(status),
{
    200 <= status && status < 300
}

/// A letter, which may begin a URL scheme.
pub open spec fn is_scheme_start(c: char) -> bool {
    ('a' <= c && c <= 'z') || ('A' <= c && c <= 'Z')
}

/// A character that may follow the first one in a URL scheme: a letter, a
/// digit, `+`, `-` or `.`.
pub open spec fn is_scheme_char(c: char) -> bool {
    is_scheme_start(c) || ('0' <= c && c <= '9') || c == '+' || c == '-' || c == '.'
}

/// A target that begins with a URL scheme followed by `://`: a letter, then
/// letters, digits, `+`, `-` or `.`, in any case.
pub open spec fn has_scheme(target: Seq<char>) -> bool {
    exists|k: int| #[trigger] scheme_ends_at(target, k)
}

/// The target's scheme runs up to index `k`, where `://` follows.
pub open spec fn scheme_ends_at(target: Seq<char>, k: int) -> bool {
    &&& 1 <= k && k + 3 <= target.len()
    &&& is_scheme_start(target[0])
    &&& forall|j: int| 1 <= j < k ==> is_scheme_char(#[trigger] target[j])
    &&& target[k] == ':' && target[k + 1] == '/' && target[k + 2] == '/'
}

fn scheme_start(c: char) -> (r: bool)
    ensures
        r == is_scheme_start(c),
{
    ('a' <= c && c <= 'z') || ('A' <= c && c <= 'Z')
}

fn scheme_char(c: char) -> (r: bool)
    ensures
        r == is_scheme_char(c),
{
    scheme_start(c) || ('0' <= c && c <= '9') || c == '+' || c == '-' || c == '.'
}

/// Whether a target begins with a URL scheme and `://`.
pub fn starts_with_scheme(target: &str) -> (r: bool)
    ensures
        r == has_scheme(target@),
{
    let n = target.unicode_len();
    if n == 0 || !scheme_start(target.get_char(0)) {
        return false;
    }
    let mut i: usize = 1;
    while i < n && scheme_char(target.get_char(i))
        invariant
            n == target@.len(),
            1 <= i <= n,
            forall|j: int| 1 <= j < i ==> is_scheme_char(#[trigger] target@[j]),
        decreases n - i,
    {
        i = i + 1;
    }
    let found = n - i >= 3 && target.get_char(i) == ':' && target.get_char(i + 1) == '/'
        && target.get_char(i + 2) == '/';
    proof {
        if found {
            assert(scheme_ends_at(target@, i as int));
        } else {
            assert forall|k: int| !#[trigger] scheme_ends_at(target@, k) by {
                if scheme_ends_at(target@, k) {
                    if k < i {
                        assert(is_scheme_char(target@[k]));
                    } else if k > i {
                        assert(is_scheme_char(target@[i as int]));
                    }
                }
            }
        }
    }
    found
}

/// The URL a target resolves to: itself when it has a scheme, else the base
/// URL followed by the target.
pub open spec fn target_url(base: Seq<char>, target: Seq<char>) -> Seq<char> {
    if has_scheme(target) {
        target
    } else {
        base + target
    }
}

/// Resolves a path or an absolute URL against the base URL.
pub fn resolve_target(base_url: &str, target: &str) -> (r: String)
    ensures
        r@ == target_url(base_url@, target@),
{
    if starts_with_scheme(target) {
        String::from_str(target)
    } else {
        let mut s = String::from_str(base_url);
        s.append(target);
        s
    }
}

/// The `Authorization` value that presents a bearer token.
pub open spec fn bearer(token: Seq<char>) -> Seq<char> {
    "Bearer "@ + token
}

/// Builds the `Authorization` value for a bearer token.
pub fn bearer_header(token: &str) -> (r: String)
    ensures
        r@ == bearer(token@),
{
    let mut s = String::from_str("Bearer ");
    s.append(token);
    s
}

} // verus!
