//! The per-connection policy handle and the application of the
//! authorization engine to a whole policy: the port-level pre-check, the
//! per-connection authorization check producing a `Permit` or a denial, the
//! default-policy fallback, and the live snapshot cell the handle reads.

use vstd::prelude::*;
use vstd::string::StringExecFns;
use crate::addr::SockAddr;
use crate::authz::{spec_is_authorized, is_authorized, Authorization, TlsState};
use crate::server::{AuthzLabels, HttpRoute, Protocol, ServerLabel, ServerPolicy};

verus! {

// --- the live snapshot cell ---------------------------------------------------

#[verifier::external_type_specification]
#[verifier::external_body]
#[verifier::reject_recursive_types(T)]
pub struct ExWatchSender<T>(tokio::sync::watch::Sender<T>);

#[verifier::external_type_specification]
#[verifier::external_body]
#[verifier::reject_recursive_types(T)]
pub struct ExWatchReceiver<T>(tokio::sync::watch::Receiver<T>);

/// Relies on tokio::sync::watch::Receiver's Clone impl: a new reader
/// handle on the same cell. Nothing is claimed of the copy.
pub assume_specification<T>[ <tokio::sync::watch::Receiver<T> as Clone>::clone ](
    rx: &tokio::sync::watch::Receiver<T>,
) -> tokio::sync::watch::Receiver<T>;

/// Relies on tokio::sync::watch::channel: makes a single-writer,
/// many-reader cell holding `init`, returning the writer and one reader
/// handle.
#[verifier::external_body]
pub fn policy_channel(init: ServerPolicy) -> (tokio::sync::watch::Sender<ServerPolicy>, tokio::sync::watch::Receiver<ServerPolicy>) {
    tokio::sync::watch::channel(init)
}

/// Relies on tokio::sync::watch::Receiver::borrow: yields one complete
/// published `ServerPolicy`, never a value mixing two updates. Which update
/// is seen depends on what the writer has published, so nothing more is
/// claimed of the result.
#[verifier::external_body]
pub fn policy_snapshot(rx: &tokio::sync::watch::Receiver<ServerPolicy>) -> ServerPolicy {
    rx.borrow().clone()
}

/// Relies on tokio::sync::watch::Sender::send: replaces the cell's value as
/// one whole, never blocking on readers; it reports failure only when every
/// receiver is gone.
#[verifier::external_body]
pub fn policy_publish(tx: &tokio::sync::watch::Sender<ServerPolicy>, policy: ServerPolicy) -> bool {
    tx.send(policy).is_ok()
}

// --- decisions ------------------------------------------------------------------

/// The denial of a connection: no authorization matched (or none exists),
/// labeled with the server policy resource's kind and name — never with the
/// rule that failed.
#[derive(Clone, Debug)]
pub struct DeniedUnauthorized {
    pub kind: String,
    pub name: String,
}

impl DeniedUnauthorized {
    /// The denial's description.
    pub fn message(&self) -> (r: String)
        ensures
            r@ == "unauthorized connection on "@ + self.kind@ + "/"@ + self.name@,
    {
        let mut s = String::from_str("unauthorized connection on ");
        s.append(self.kind.as_str());
        s.append("/");
        s.append(self.name.as_str());
        proof {
            assert(s@ =~= "unauthorized connection on "@ + self.kind@ + "/"@ + self.name@);
        }
        s
    }
}

/// The record of a permitted connection: the destination, the protocol of
/// the matched snapshot, and the labels of the matched authorization and of
/// the server resource.
#[derive(Clone, Debug)]
pub struct Permit {
    pub dst: SockAddr,
    pub protocol: Protocol,
    pub labels: AuthzLabels,
}

impl Permit {
    /// Builds the permit for a connection to `dst` under `server`, matched
    /// by the authorization labeled `authz_kind`/`authz_name`.
    pub fn new(dst: SockAddr, server: ServerPolicy, authz_kind: String, authz_name: String) -> (r:
        Permit)
        ensures
            r.dst == dst,
            r.protocol == server.protocol,
            r.labels.kind == authz_kind,
            r.labels.name == authz_name,
            r.labels.server.kind == server.kind,
            r.labels.server.name == server.name,
    {
        Permit {
            dst,
            protocol: server.protocol,
            labels: AuthzLabels {
                kind: authz_kind,
                name: authz_name,
                server: ServerLabel { kind: server.kind, name: server.name },
            },
        }
    }
}

// --- the engine applied to a whole policy ----------------------------------------

/// Whether the port-level pre-check passes: a policy with no authorizations
/// at all denies every connection before TLS is even evaluated.
pub open spec fn spec_port_allowed(p: ServerPolicy) -> bool {
    p.authorizations@.len() > 0
}

/// No entry of `authzs` before index `i` authorizes the connection.
pub open spec fn none_authorized_before(
    authzs: Seq<Authorization>,
    client_addr: SockAddr,
    tls: TlsState,
    i: int,
) -> bool {
    forall|j: int| 0 <= j < i ==> !spec_is_authorized(authzs[j], client_addr, tls)
}

/// Index `i` holds the first entry of `authzs`, in list order, whose
/// network and authentication tests both pass.
pub open spec fn spec_first_authorized(
    authzs: Seq<Authorization>,
    client_addr: SockAddr,
    tls: TlsState,
    i: int,
) -> bool {
    &&& 0 <= i < authzs.len()
    &&& spec_is_authorized(authzs[i], client_addr, tls)
    &&& none_authorized_before(authzs, client_addr, tls, i)
}

impl ServerPolicy {
    /// The port-level pre-check: denies, carrying this policy's kind and
    /// name, exactly when the authorization list is empty; otherwise
    /// passes. Cheap enough to run before TLS negotiation.
    pub fn check_port_allowed(&self) -> (r: Result<(), DeniedUnauthorized>)
        ensures
            r is Ok <==> spec_port_allowed(*self),
            r matches Err(e) ==> e.kind@ == self.kind@ && e.name@ == self.name@,
    {
        if self.authorizations.len() == 0 {
            return Err(DeniedUnauthorized { kind: self.kind.clone(), name: self.name.clone() });
        }
        Ok(())
    }

    /// Evaluates the authorization list in fixed order against a client
    /// address and TLS state: the first entry whose network and
    /// authentication tests both pass wins and yields a permit labeled with
    /// that entry and this policy; if none passes, the denial carries only
    /// this policy's kind and name.
    #[verifier::loop_isolation(false)]
    pub fn check_authorized(self, dst: SockAddr, client_addr: SockAddr, tls: &TlsState) -> (r:
        Result<Permit, DeniedUnauthorized>)
        ensures
            r is Ok <==> exists|i: int|
                0 <= i < self.authorizations@.len() && spec_is_authorized(
                    self.authorizations@[i],
                    client_addr,
                    *tls,
                ),
            r matches Ok(p) ==> exists|i: int|
                {
                    &&& #[trigger] spec_first_authorized(
                        self.authorizations@,
                        client_addr,
                        *tls,
                        i,
                    )
                    &&& p.dst == dst
                    &&& p.protocol == self.protocol
                    &&& p.labels.kind@ == self.authorizations@[i].kind@
                    &&& p.labels.name@ == self.authorizations@[i].name@
                    &&& p.labels.server.kind@ == self.kind@
                    &&& p.labels.server.name@ == self.name@
                },
            r matches Err(e) ==> e.kind@ == self.kind@ && e.name@ == self.name@,
    {
        let mut i: usize = 0;
        while i < self.authorizations.len()
            invariant
                i <= self.authorizations@.len(),
                none_authorized_before(self.authorizations@, client_addr, *tls, i as int),
            decreases self.authorizations@.len() - i,
        {
            if is_authorized(&self.authorizations[i], client_addr, tls) {
                assert(spec_first_authorized(self.authorizations@, client_addr, *tls, i as int));
                let authz_kind = self.authorizations[i].kind.clone();
                let authz_name = self.authorizations[i].name.clone();
                return Ok(Permit::new(dst, self, authz_kind, authz_name));
            }
            i += 1;
        }
        Err(DeniedUnauthorized { kind: self.kind, name: self.name })
    }
}

// --- the default policy -----------------------------------------------------------

/// The fallback applied to a destination with no dynamic policy: either a
/// configured allow policy, or an unconditional deny.
#[derive(Debug)]
pub enum DefaultPolicy {
    Allow(ServerPolicy),
    Deny,
}

impl DefaultPolicy {
    /// Wraps a configured policy as the allowing default.
    pub fn from(p: ServerPolicy) -> (r: DefaultPolicy)
        ensures
            r == DefaultPolicy::Allow(p),
    {
        DefaultPolicy::Allow(p)
    }
}

impl ServerPolicy {
    /// Renders a default policy as a full server policy, so that the deny
    /// fallback flows through the ordinary authorization path: `Deny`
    /// becomes an opaque policy with no authorizations — which denies
    /// universally — labeled `default`/`deny`.
    pub fn from(d: DefaultPolicy) -> (r: ServerPolicy)
        ensures
            match d {
                DefaultPolicy::Allow(p) => r == p,
                DefaultPolicy::Deny => {
                    &&& r.protocol is Opaque
                    &&& r.authorizations@.len() == 0
                    &&& r.kind@ == "default"@
                    &&& r.name@ == "deny"@
                },
            },
    {
        match d {
            DefaultPolicy::Allow(p) => p,
            DefaultPolicy::Deny => ServerPolicy {
                protocol: Protocol::Opaque,
                authorizations: Vec::new(),
                kind: String::from_str("default"),
                name: String::from_str("deny"),
            },
        }
    }
}

/// A policy with no authorizations — the rendering of `DefaultPolicy::Deny`
/// among others — never passes the port-level pre-check.
pub proof fn lemma_empty_authorizations_deny(p: ServerPolicy)
    requires
        p.authorizations@.len() == 0,
    ensures
        !spec_port_allowed(p),
{
}

// --- the per-connection handle -----------------------------------------------------

/// A per-connection handle on a destination's live policy: the destination
/// address and a reader of the policy's snapshot cell. Reads are
/// non-blocking and never see a torn value.
#[derive(Clone, Debug)]
pub struct AllowPolicy {
    pub dst: SockAddr,
    pub server: tokio::sync::watch::Receiver<ServerPolicy>,
}

/// The capability to look up the traffic policy configured for a
/// destination address. Implemented by whatever holds the live
/// destination-to-policy index; the lookup never fails, falling back to the
/// configured default.
pub trait GetPolicy {
    /// Returns the traffic policy configured for the destination address.
    fn get_policy(&self, dst: SockAddr) -> AllowPolicy;
}

impl AllowPolicy {
    /// Builds a handle over a fresh snapshot cell holding `server`,
    /// returning the writer so the caller can publish updates.
    pub fn for_test(dst: SockAddr, server: ServerPolicy) -> (r: (
        AllowPolicy,
        tokio::sync::watch::Sender<ServerPolicy>,
    ))
        ensures
            r.0.dst == dst,
    {
        let (tx, rx) = policy_channel(server);
        (AllowPolicy { dst, server: rx }, tx)
    }

    /// The destination address this handle was looked up for.
    pub fn dst_addr(&self) -> (r: SockAddr)
        ensures
            r == self.dst,
    {
        self.dst
    }

    /// The protocol of the current snapshot; non-blocking.
    pub fn protocol(&self) -> Protocol {
        policy_snapshot(&self.server).protocol
    }

    /// The kind and name of the current snapshot's policy resource;
    /// non-blocking.
    pub fn server_label(&self) -> ServerLabel {
        let s = policy_snapshot(&self.server);
        s.server_label()
    }

    /// The current snapshot's route list, when its protocol carries HTTP
    /// configuration.
    pub fn http_routes(&self) -> Option<Vec<HttpRoute>> {
        policy_snapshot(&self.server).http_routes()
    }

    /// The port-level pre-check against the current snapshot: denies,
    /// carrying the snapshot's kind and name, when its authorization list
    /// is empty; otherwise passes the handle through unchanged.
    pub fn check_port_allowed(self) -> (r: Result<AllowPolicy, DeniedUnauthorized>)
        ensures
            r matches Ok(p) ==> p == self,
    {
        let s = policy_snapshot(&self.server);
        match s.check_port_allowed() {
            Ok(()) => Ok(self),
            Err(e) => Err(e),
        }
    }

    /// Runs the authorization engine over the current snapshot's list for a
    /// client address and TLS state; on success the permit carries this
    /// handle's destination.
    pub fn check_authorized(&self, client_addr: SockAddr, tls: &TlsState) -> (r: Result<
        Permit,
        DeniedUnauthorized,
    >)
        ensures
            r matches Ok(p) ==> p.dst == self.dst,
    {
        let s = policy_snapshot(&self.server);
        s.check_authorized(self.dst, client_addr, tls)
    }
}

} // verus!
