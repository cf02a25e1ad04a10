//! The policy model: immutable value types describing a server's protocol,
//! its ordered authorization rules, and its HTTP route policy. Every policy
//! update replaces a whole `ServerPolicy` value; nothing here mutates one in
//! place.

use vstd::prelude::*;
use crate::authz::Authorization;
use crate::route::{MatchHost, MatchRequest, ModifyRequestHeader, RedirectRequest};

verus! {

/// A server's policy: its protocol, its ordered authorization rules, and
/// the policy resource's kind and name for diagnostics and labels.
#[derive(Clone, Debug)]
pub struct ServerPolicy {
    pub protocol: Protocol,
    pub authorizations: Vec<Authorization>,
    pub kind: String,
    pub name: String,
}

/// The protocol configured for a server, with the HTTP configuration where
/// one applies. `Detect` sniffs the protocol within a timeout, given here in
/// milliseconds.
#[derive(Clone, Debug)]
pub enum Protocol {
    Detect { http: HttpConfig, timeout: u64 },
    Http1(HttpConfig),
    Http2(HttpConfig),
    Grpc { disable_info_headers: bool },
    Opaque,
    Tls,
}

/// HTTP-level configuration: whether informational headers are suppressed,
/// and the ordered route list.
#[derive(Clone, Debug)]
pub struct HttpConfig {
    pub disable_info_headers: bool,
    pub routes: Vec<HttpRoute>,
}

/// One HTTP route: the hosts it applies to and its ordered rules.
#[derive(Clone, Debug)]
pub struct HttpRoute {
    pub hosts: Vec<MatchHost>,
    pub rules: Vec<HttpRule>,
}

/// One rule of an HTTP route: its request matchers and the policy applied
/// on a match.
#[derive(Clone, Debug)]
pub struct HttpRule {
    pub matches: Vec<MatchRequest>,
    pub policy: RoutePolicy,
}

/// The policy attached to one HTTP route: per-route authorization rules that
/// may tighten the server's, the filters to apply, and labels for metrics.
#[derive(Clone, Debug)]
pub struct RoutePolicy {
    pub authorizations: Vec<Authorization>,
    pub filters: Vec<RouteFilter>,
    pub labels: Vec<(String, String)>,
}

/// A filter applied to requests matched by a route.
#[derive(Clone, Debug)]
pub enum RouteFilter {
    RequestHeaders(ModifyRequestHeader),
    Redirect(RedirectRequest),
}

/// The kind and name identifying a server policy resource, attached to
/// permits and denials for observability.
#[derive(Clone, Debug)]
pub struct ServerLabel {
    pub kind: String,
    pub name: String,
}

/// The labels of a permitted connection: the matched authorization's kind
/// and name, and the server resource's label.
#[derive(Clone, Debug)]
pub struct AuthzLabels {
    pub kind: String,
    pub name: String,
    pub server: ServerLabel,
}

impl ServerPolicy {
    /// The label identifying this policy resource.
    pub fn server_label(&self) -> (r: ServerLabel)
        ensures
            r.kind@ == self.kind@,
            r.name@ == self.name@,
    {
        ServerLabel { kind: self.kind.clone(), name: self.name.clone() }
    }

    /// The route list of an HTTP-capable protocol, and nothing for an
    /// opaque, TLS or gRPC server.
    pub fn http_routes(self) -> (r: Option<Vec<HttpRoute>>)
        ensures
            match self.protocol {
                Protocol::Detect { http, .. } => r matches Some(v) && v == http.routes,
                Protocol::Http1(http) => r matches Some(v) && v == http.routes,
                Protocol::Http2(http) => r matches Some(v) && v == http.routes,
                _ => r is None,
            },
    {
        match self.protocol {
            Protocol::Detect { http, .. } => Some(http.routes),
            Protocol::Http1(http) => Some(http.routes),
            Protocol::Http2(http) => Some(http.routes),
            _ => None,
        }
    }
}

} // verus!
